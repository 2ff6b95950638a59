//! The shape of a request forwarded to the address lookup table program.
//!
//! A request names the program it is addressed to, the ordered account
//! references it carries (each with its signer and writability flags), and
//! the opaque request payload the external program decodes. The spec
//! functions here pin the exact shape each of the five operations forwards.

use vstd::prelude::*;
use crate::addresses::{Address, alt_program_id, system_program_id};

verus! {

/// One account reference carried by a request: who, and with which rights.
#[derive(Clone, Copy, Debug, PartialEq, Eq)]
pub struct AccountRef {
    pub address: Address,
    pub signer: bool,
    pub writable: bool,
}

/// A fully built request, ready to be forwarded to the external program.
#[derive(Clone, Debug, PartialEq, Eq)]
pub struct Request {
    /// The program the request is addressed to.
    pub program: Address,
    /// The ordered account references the request carries.
    pub accounts: Vec<AccountRef>,
    /// The payload the external program decodes.
    pub data: Vec<u8>,
}

/// The reference at hand names `address` with exactly the given rights.
pub open spec fn account_is(m: AccountRef, address: Seq<u8>, signer: bool, writable: bool) -> bool {
    &&& m.address@ == address
    &&& m.signer == signer
    &&& m.writable == writable
}

/// The views of a sequence of addresses, element by element.
pub open spec fn addr_views(s: Seq<Address>) -> Seq<Seq<u8>> {
    s.map(|i: int, a: Address| a@)
}

// The handle `derive_lookup_table_address` (reached through
// `create_lookup_table_signed`) derives from an authority and a recent slot
// marker. The derivation runs a collision-resistant hash over the two; it
// depends on them alone, so it carries a name rather than a definition.
pub uninterp spec fn derived_handle(authority: Seq<u8>, recent_slot: u64) -> Seq<u8>;

// The payload `create_lookup_table_signed` builds for a creation request.
// Besides the recent slot marker it carries a bump value found during
// handle derivation, so it too is a function of the authority and the slot
// alone and carries a name.
pub uninterp spec fn create_request_data(authority: Seq<u8>, recent_slot: u64) -> Seq<u8>;

// The payload `extend_lookup_table` builds for an extension request: the
// encoded entry list, a function of the entries alone.
pub uninterp spec fn extend_request_data(entries: Seq<Seq<u8>>) -> Seq<u8>;

/// The payload of a freeze request: the four-byte request tag alone.
pub open spec fn freeze_request_data() -> Seq<u8> {
    seq![1u8, 0u8, 0u8, 0u8]
}

/// The payload of a deactivation request: the four-byte request tag alone.
pub open spec fn deactivate_request_data() -> Seq<u8> {
    seq![3u8, 0u8, 0u8, 0u8]
}

/// The payload of a closure request: the four-byte request tag alone.
pub open spec fn close_request_data() -> Seq<u8> {
    seq![4u8, 0u8, 0u8, 0u8]
}

/// Two requests that agree name the same program, carry the same account
/// references with the same rights in the same order, and the same payload:
/// the external program cannot tell them apart.
pub open spec fn requests_agree(r1: Request, r2: Request) -> bool {
    &&& r1.program@ == r2.program@
    &&& r1.data@ == r2.data@
    &&& r1.accounts@.len() == r2.accounts@.len()
    &&& forall|i: int|
        0 <= i < r1.accounts@.len() ==> {
            &&& (#[trigger] r1.accounts@[i]).address@ == r2.accounts@[i].address@
            &&& r1.accounts@[i].signer == r2.accounts@[i].signer
            &&& r1.accounts@[i].writable == r2.accounts@[i].writable
        }
}

/// The exact shape of a creation request: the derived handle (writable),
/// the authority (signer), the payer (signer, writable, funding the new
/// table) and the system program, with the creation payload.
pub open spec fn create_request_ok(
    r: Request,
    authority: Seq<u8>,
    payer: Seq<u8>,
    recent_slot: u64,
) -> bool {
    &&& r.program@ == alt_program_id()
    &&& r.accounts@.len() == 4
    &&& account_is(r.accounts@[0], derived_handle(authority, recent_slot), false, true)
    &&& account_is(r.accounts@[1], authority, true, false)
    &&& account_is(r.accounts@[2], payer, true, true)
    &&& account_is(r.accounts@[3], system_program_id(), false, false)
    &&& r.data@ == create_request_data(authority, recent_slot)
}

/// The exact shape of a freeze request: the table (writable) and its
/// authority (signer), with the freeze payload.
pub open spec fn freeze_request_ok(r: Request, lookup_table: Seq<u8>, authority: Seq<u8>) -> bool {
    &&& r.program@ == alt_program_id()
    &&& r.accounts@.len() == 2
    &&& account_is(r.accounts@[0], lookup_table, false, true)
    &&& account_is(r.accounts@[1], authority, true, false)
    &&& r.data@ == freeze_request_data()
}

/// The exact shape of an extension request: the table (writable), its
/// authority (signer), the payer (signer, writable) and the system program,
/// with the encoded entry list as payload.
pub open spec fn extend_request_ok(
    r: Request,
    lookup_table: Seq<u8>,
    authority: Seq<u8>,
    payer: Seq<u8>,
    entries: Seq<Seq<u8>>,
) -> bool {
    &&& r.program@ == alt_program_id()
    &&& r.accounts@.len() == 4
    &&& account_is(r.accounts@[0], lookup_table, false, true)
    &&& account_is(r.accounts@[1], authority, true, false)
    &&& account_is(r.accounts@[2], payer, true, true)
    &&& account_is(r.accounts@[3], system_program_id(), false, false)
    &&& r.data@ == extend_request_data(entries)
}

/// The exact shape of a deactivation request: the table (writable) and its
/// authority (signer), with the deactivation payload.
pub open spec fn deactivate_request_ok(
    r: Request,
    lookup_table: Seq<u8>,
    authority: Seq<u8>,
) -> bool {
    &&& r.program@ == alt_program_id()
    &&& r.accounts@.len() == 2
    &&& account_is(r.accounts@[0], lookup_table, false, true)
    &&& account_is(r.accounts@[1], authority, true, false)
    &&& r.data@ == deactivate_request_data()
}

/// The exact shape of a closure request: the table (writable), its
/// authority (signer) and the recipient of the drained balance (writable),
/// with the closure payload.
pub open spec fn close_request_ok(
    r: Request,
    lookup_table: Seq<u8>,
    authority: Seq<u8>,
    recipient: Seq<u8>,
) -> bool {
    &&& r.program@ == alt_program_id()
    &&& r.accounts@.len() == 3
    &&& account_is(r.accounts@[0], lookup_table, false, true)
    &&& account_is(r.accounts@[1], authority, true, false)
    &&& account_is(r.accounts@[2], recipient, false, true)
    &&& r.data@ == close_request_data()
}

} // verus!
