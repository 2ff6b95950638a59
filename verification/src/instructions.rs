//! Trusted wrappers around the external program's instruction builders.
//!
//! Each wrapper makes one call into the address lookup table interface
//! crate, converts the returned instruction into the library's [`Request`]
//! record, and is trusted to return exactly the shape that the builder's
//! source shows: the program identity, the ordered account references with
//! their rights, and the payload.

use vstd::prelude::*;
use solana_pubkey::Pubkey;
use solana_address_lookup_table_interface::instruction::{
    close_lookup_table, create_lookup_table_signed, deactivate_lookup_table, extend_lookup_table,
    freeze_lookup_table,
};
use crate::addresses::Address;
use crate::requests::{
    AccountRef, Request, addr_views, close_request_ok, create_request_data, create_request_ok,
    deactivate_request_ok, derived_handle, extend_request_data, extend_request_ok,
    freeze_request_ok,
};

verus! {

/// Relies on `create_lookup_table_signed`: it derives the table handle from
/// the authority and the recent slot alone, and builds a creation request
/// addressed to the lookup table program that carries the derived handle
/// (writable), the authority (signer), the payer (signer, writable) and the
/// system program, with the creation payload.
#[allow(deprecated)]
#[verifier::external_body]
pub(crate) fn build_create_request(authority: &Address, payer: &Address, recent_slot: u64) -> (r: (
    Request,
    Address,
))
    ensures
        r.1@ == derived_handle(authority@, recent_slot),
        r.0.data@ == create_request_data(authority@, recent_slot),
        create_request_ok(r.0, authority@, payer@, recent_slot),
{
    let (ix, key) = create_lookup_table_signed(
        Pubkey::new_from_array(authority.bytes), Pubkey::new_from_array(payer.bytes), recent_slot);
    let accounts: Vec<AccountRef> = ix.accounts.iter().map(|m| AccountRef {
        address: Address { bytes: m.pubkey.to_bytes() }, signer: m.is_signer, writable: m.is_writable,
    }).collect();
    (Request { program: Address { bytes: ix.program_id.to_bytes() }, accounts, data: ix.data },
        Address { bytes: key.to_bytes() })
}

/// Relies on `freeze_lookup_table`: it builds a freeze request addressed to
/// the lookup table program that carries the table (writable) and its
/// authority (signer), with the freeze payload.
#[verifier::external_body]
pub(crate) fn build_freeze_request(lookup_table: &Address, authority: &Address) -> (r: Request)
    ensures
        freeze_request_ok(r, lookup_table@, authority@),
{
    let ix = freeze_lookup_table(
        Pubkey::new_from_array(lookup_table.bytes), Pubkey::new_from_array(authority.bytes));
    let accounts: Vec<AccountRef> = ix.accounts.iter().map(|m| AccountRef {
        address: Address { bytes: m.pubkey.to_bytes() }, signer: m.is_signer, writable: m.is_writable,
    }).collect();
    Request { program: Address { bytes: ix.program_id.to_bytes() }, accounts, data: ix.data }
}

/// Relies on `extend_lookup_table`: given a payer, it builds an extension
/// request addressed to the lookup table program that carries the table
/// (writable), its authority (signer), the payer (signer, writable) and the
/// system program, with the encoded entry list as payload. The builder
/// forwards the entry list it is given, whatever its length.
#[verifier::external_body]
pub(crate) fn build_extend_request(
    lookup_table: &Address,
    authority: &Address,
    payer: &Address,
    entries: &Vec<Address>,
) -> (r: Request)
    ensures
        r.data@ == extend_request_data(addr_views(entries@)),
        extend_request_ok(r, lookup_table@, authority@, payer@, addr_views(entries@)),
{
    let new_addresses: Vec<Pubkey> =
        entries.iter().map(|a| Pubkey::new_from_array(a.bytes)).collect();
    let ix = extend_lookup_table(
        Pubkey::new_from_array(lookup_table.bytes), Pubkey::new_from_array(authority.bytes),
        Some(Pubkey::new_from_array(payer.bytes)), new_addresses);
    let accounts: Vec<AccountRef> = ix.accounts.iter().map(|m| AccountRef {
        address: Address { bytes: m.pubkey.to_bytes() }, signer: m.is_signer, writable: m.is_writable,
    }).collect();
    Request { program: Address { bytes: ix.program_id.to_bytes() }, accounts, data: ix.data }
}

/// Relies on `deactivate_lookup_table`: it builds a deactivation request
/// addressed to the lookup table program that carries the table (writable)
/// and its authority (signer), with the deactivation payload.
#[verifier::external_body]
pub(crate) fn build_deactivate_request(lookup_table: &Address, authority: &Address) -> (r: Request)
    ensures
        deactivate_request_ok(r, lookup_table@, authority@),
{
    let ix = deactivate_lookup_table(
        Pubkey::new_from_array(lookup_table.bytes), Pubkey::new_from_array(authority.bytes));
    let accounts: Vec<AccountRef> = ix.accounts.iter().map(|m| AccountRef {
        address: Address { bytes: m.pubkey.to_bytes() }, signer: m.is_signer, writable: m.is_writable,
    }).collect();
    Request { program: Address { bytes: ix.program_id.to_bytes() }, accounts, data: ix.data }
}

/// Relies on `close_lookup_table`: it builds a closure request addressed to
/// the lookup table program that carries the table (writable), its authority
/// (signer) and the recipient of the drained balance (writable), with the
/// closure payload.
#[verifier::external_body]
pub(crate) fn build_close_request(
    lookup_table: &Address,
    authority: &Address,
    recipient: &Address,
) -> (r: Request)
    ensures
        close_request_ok(r, lookup_table@, authority@, recipient@),
{
    let ix = close_lookup_table(
        Pubkey::new_from_array(lookup_table.bytes), Pubkey::new_from_array(authority.bytes),
        Pubkey::new_from_array(recipient.bytes));
    let accounts: Vec<AccountRef> = ix.accounts.iter().map(|m| AccountRef {
        address: Address { bytes: m.pubkey.to_bytes() }, signer: m.is_signer, writable: m.is_writable,
    }).collect();
    Request { program: Address { bytes: ix.program_id.to_bytes() }, accounts, data: ix.data }
}

} // verus!
