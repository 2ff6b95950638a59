//! The error taxonomy surfaced to the caller.

use vstd::prelude::*;

verus! {

/// Every failure a proxy operation can surface.
///
/// The first three variants are detected locally, before any request is
/// forwarded. The last two carry the outcome of a forwarded request back to
/// the caller: the external program refused it, or the invocation mechanism
/// itself failed. No error is retried; each is reported to the immediate
/// caller with enough detail to tell the kinds apart.
#[derive(Clone, Copy, Debug, PartialEq, Eq, Structural)]
pub enum AltError {
    /// The caller-supplied lookup table handle does not equal the handle
    /// derived from the authority and the recent slot marker.
    AddressMismatch,
    /// A supplied program account differs from the well-known identity it
    /// must carry.
    ProgramMismatch,
    /// More entries were supplied to an extension than one request may carry.
    TooManyEntries,
    /// The external program refused the forwarded request; the code it
    /// reported is carried unchanged.
    ExternalRejection(u64),
    /// The invocation mechanism itself failed before the external program
    /// could decide; the code it reported is carried unchanged.
    EnvironmentFailure(u64),
}

} // verus!
