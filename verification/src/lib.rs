//! A verified proxy for the on-chain address lookup table program.
//!
//! The library validates caller-supplied account identities against the
//! expected derived addresses and well-known program constants, then builds
//! the request that is forwarded to the external program. The forwarding
//! itself (the cross-program invocation) is left to the surrounding runtime;
//! everything the proxy decides locally is verified here.

pub mod accounts;
pub mod addresses;
pub mod errors;
mod instructions;
pub mod proxy;
pub mod requests;
