//! The five proxy operations.
//!
//! Each operation validates the supplied account identities, builds the
//! request for the external program, and hands it back to the surrounding
//! runtime for forwarding. The proxy holds no state of its own: every call
//! validates from scratch, and its outcome is a function of its arguments
//! alone.

use vstd::prelude::*;
use crate::accounts::{
    CloseAddressLookupTable, CreateAddressLookupTable, DeactivateAddressLookupTable,
    ExtendAddressLookupTable, FreezeAddressLookupTable,
};
use crate::addresses::{Address, address_eq, alt_program_address, alt_program_id,
    system_program_address, system_program_id};
use crate::errors::AltError;
use crate::instructions::{
    build_close_request, build_create_request, build_deactivate_request, build_extend_request,
    build_freeze_request,
};
use crate::requests::{
    Request, addr_views, close_request_ok, create_request_ok, deactivate_request_ok,
    derived_handle, extend_request_ok, freeze_request_ok, requests_agree,
};

verus! {

/// The most entries one extension request may carry: a bound set by the
/// external program. Longer entry lists are rejected locally.
pub const MAX_EXTEND_ENTRIES: usize = 20;

/// Both supplied program accounts carry their well-known identities.
pub open spec fn programs_valid(alt_program: Seq<u8>, system_program: Seq<u8>) -> bool {
    &&& alt_program == alt_program_id()
    &&& system_program == system_program_id()
}

/// The pre-call identity check shared by every operation: the supplied
/// lookup table program and system program accounts must carry their
/// well-known identities.
pub fn check_program_accounts(alt_program: &Address, system_program: &Address) -> (r: bool)
    ensures
        r <==> programs_valid(alt_program@, system_program@),
{
    let expected_alt = alt_program_address();
    let expected_system = system_program_address();
    address_eq(alt_program, &expected_alt) && address_eq(system_program, &expected_system)
}

/// Builds the request that creates a lookup table.
///
/// The handle of the new table is derived from the authority and the recent
/// slot marker; when the caller supplied any other handle the call is
/// rejected with [`AltError::AddressMismatch`] and nothing is forwarded.
/// Otherwise the creation request is returned for forwarding, carrying the
/// derived handle, the authority, the payer and the system program.
pub fn create_address_lookup_table(accounts: &CreateAddressLookupTable, recent_slot: u64) -> (r:
    Result<Request, AltError>)
    ensures
        r is Ok <==> (programs_valid(
            accounts.address_lookup_table_program@,
            accounts.system_program@,
        ) && accounts.lookup_table@ == derived_handle(accounts.authority@, recent_slot)),
        r == Err::<Request, AltError>(AltError::ProgramMismatch) <==> !programs_valid(
            accounts.address_lookup_table_program@,
            accounts.system_program@,
        ),
        r == Err::<Request, AltError>(AltError::AddressMismatch) <==> (programs_valid(
            accounts.address_lookup_table_program@,
            accounts.system_program@,
        ) && accounts.lookup_table@ != derived_handle(accounts.authority@, recent_slot)),
        r matches Ok(req) ==> create_request_ok(
            req,
            accounts.authority@,
            accounts.payer@,
            recent_slot,
        ),
{
    if !check_program_accounts(&accounts.address_lookup_table_program, &accounts.system_program) {
        return Err(AltError::ProgramMismatch);
    }
    let (request, derived) = build_create_request(&accounts.authority, &accounts.payer, recent_slot);
    if !address_eq(&accounts.lookup_table, &derived) {
        return Err(AltError::AddressMismatch);
    }
    Ok(request)
}

/// Builds the request that permanently freezes a lookup table, making it
/// immutable.
///
/// No local rule besides the program identity check applies: whether the
/// table may be frozen (an empty or already frozen table may not) is
/// decided by the external program, whose answer the runtime surfaces
/// through [`propagate_outcome`].
pub fn freeze_address_lookup_table(accounts: &FreezeAddressLookupTable) -> (r: Result<
    Request,
    AltError,
>)
    ensures
        r is Ok <==> programs_valid(
            accounts.address_lookup_table_program@,
            accounts.system_program@,
        ),
        r is Err ==> r == Err::<Request, AltError>(AltError::ProgramMismatch),
        r matches Ok(req) ==> freeze_request_ok(req, accounts.lookup_table@, accounts.authority@),
{
    if !check_program_accounts(&accounts.address_lookup_table_program, &accounts.system_program) {
        return Err(AltError::ProgramMismatch);
    }
    Ok(build_freeze_request(&accounts.lookup_table, &accounts.authority))
}

/// The three entries an [`ExtendAddressLookupTable`] record carries.
pub open spec fn record_entries(accounts: ExtendAddressLookupTable) -> Seq<Seq<u8>> {
    seq![accounts.publickey_1@, accounts.publickey_2@, accounts.publickey_3@]
}

/// Builds the request that appends the record's three entries to a lookup
/// table.
pub fn extend_address_lookup_table(accounts: &ExtendAddressLookupTable) -> (r: Result<
    Request,
    AltError,
>)
    ensures
        r is Ok <==> programs_valid(
            accounts.address_lookup_table_program@,
            accounts.system_program@,
        ),
        r is Err ==> r == Err::<Request, AltError>(AltError::ProgramMismatch),
        r matches Ok(req) ==> extend_request_ok(
            req,
            accounts.lookup_table@,
            accounts.authority@,
            accounts.payer@,
            record_entries(*accounts),
        ),
{
    let mut entries: Vec<Address> = Vec::new();
    entries.push(accounts.publickey_1);
    entries.push(accounts.publickey_2);
    entries.push(accounts.publickey_3);
    proof {
        assert(addr_views(entries@) =~= record_entries(*accounts));
    }
    extend_address_lookup_table_with(accounts, &entries)
}

/// Builds the request that appends `entries` to a lookup table.
///
/// At most [`MAX_EXTEND_ENTRIES`] entries may go into one request; a longer
/// list is rejected locally with [`AltError::TooManyEntries`], whole and
/// unforwarded — never silently truncated. The payer and system program
/// references are always carried:
/// the proxy cannot know in advance whether the table needs a larger balance
/// after the extension.
pub fn extend_address_lookup_table_with(
    accounts: &ExtendAddressLookupTable,
    entries: &Vec<Address>,
) -> (r: Result<Request, AltError>)
    ensures
        r is Ok <==> (programs_valid(
            accounts.address_lookup_table_program@,
            accounts.system_program@,
        ) && entries@.len() <= MAX_EXTEND_ENTRIES),
        r == Err::<Request, AltError>(AltError::ProgramMismatch) <==> !programs_valid(
            accounts.address_lookup_table_program@,
            accounts.system_program@,
        ),
        r == Err::<Request, AltError>(AltError::TooManyEntries) <==> (programs_valid(
            accounts.address_lookup_table_program@,
            accounts.system_program@,
        ) && entries@.len() > MAX_EXTEND_ENTRIES),
        r matches Ok(req) ==> extend_request_ok(
            req,
            accounts.lookup_table@,
            accounts.authority@,
            accounts.payer@,
            addr_views(entries@),
        ) && entries@.len() <= MAX_EXTEND_ENTRIES,
{
    if !check_program_accounts(&accounts.address_lookup_table_program, &accounts.system_program) {
        return Err(AltError::ProgramMismatch);
    }
    if entries.len() > MAX_EXTEND_ENTRIES {
        return Err(AltError::TooManyEntries);
    }
    Ok(build_extend_request(&accounts.lookup_table, &accounts.authority, &accounts.payer, entries))
}

/// Builds the request that deactivates a lookup table, making it unusable
/// and, after a cool-down the external program defines, eligible for
/// closure.
///
/// The proxy holds no record of earlier deactivations: repeating the call
/// builds the same request again, and the second outcome is decided solely
/// by the external program.
pub fn deactivate_address_lookup_table(accounts: &DeactivateAddressLookupTable) -> (r: Result<
    Request,
    AltError,
>)
    ensures
        r is Ok <==> programs_valid(
            accounts.address_lookup_table_program@,
            accounts.system_program@,
        ),
        r is Err ==> r == Err::<Request, AltError>(AltError::ProgramMismatch),
        r matches Ok(req) ==> deactivate_request_ok(
            req,
            accounts.lookup_table@,
            accounts.authority@,
        ),
{
    if !check_program_accounts(&accounts.address_lookup_table_program, &accounts.system_program) {
        return Err(AltError::ProgramMismatch);
    }
    Ok(build_deactivate_request(&accounts.lookup_table, &accounts.authority))
}

/// Builds the request that closes a lookup table, deallocating it and
/// draining its balance to the recipient.
///
/// The recipient identifier is forwarded exactly as supplied, unchanged.
pub fn close_address_lookup_table(accounts: &CloseAddressLookupTable) -> (r: Result<
    Request,
    AltError,
>)
    ensures
        r is Ok <==> programs_valid(
            accounts.address_lookup_table_program@,
            accounts.system_program@,
        ),
        r is Err ==> r == Err::<Request, AltError>(AltError::ProgramMismatch),
        r matches Ok(req) ==> close_request_ok(
            req,
            accounts.lookup_table@,
            accounts.authority@,
            accounts.recipient@,
        ),
        r matches Ok(req) ==> req.accounts@[2].address@ == accounts.recipient@,
{
    if !check_program_accounts(&accounts.address_lookup_table_program, &accounts.system_program) {
        return Err(AltError::ProgramMismatch);
    }
    Ok(build_close_request(&accounts.lookup_table, &accounts.authority, &accounts.recipient))
}

/// Deactivation holds no local state: two deactivation requests built from
/// the same accounts agree in everything the external program sees, so a
/// repeated deactivation forwards the very same request again and its
/// outcome lies with the external program alone.
pub proof fn lemma_deactivate_repeatable(
    accounts: DeactivateAddressLookupTable,
    r1: Request,
    r2: Request,
)
    requires
        deactivate_request_ok(r1, accounts.lookup_table@, accounts.authority@),
        deactivate_request_ok(r2, accounts.lookup_table@, accounts.authority@),
    ensures
        requests_agree(r1, r2),
{
    assert forall|i: int| 0 <= i < r1.accounts@.len() implies {
        &&& (#[trigger] r1.accounts@[i]).address@ == r2.accounts@[i].address@
        &&& r1.accounts@[i].signer == r2.accounts@[i].signer
        &&& r1.accounts@[i].writable == r2.accounts@[i].writable
    } by {
        if i != 0 {
            assert(i == 1);
        }
    }
}

/// What the runtime observed when it forwarded a request.
#[derive(Clone, Copy, Debug, PartialEq, Eq, Structural)]
pub enum ForwardOutcome {
    /// The external program accepted the request.
    Accepted,
    /// The external program refused the request, reporting the given code.
    Rejected(u64),
    /// The invocation mechanism failed with the given code before the
    /// external program could decide.
    Unavailable(u64),
}

/// Surfaces the outcome of a forwarded request to the caller, verbatim.
///
/// A refusal by the external program is never reported as success: the
/// caller observes exactly what the forwarding observed, and nothing is
/// retried.
pub fn propagate_outcome(outcome: ForwardOutcome) -> (r: Result<(), AltError>)
    ensures
        r is Ok <==> outcome is Accepted,
        outcome matches ForwardOutcome::Rejected(code) ==> r == Err::<(), AltError>(
            AltError::ExternalRejection(code),
        ),
        outcome matches ForwardOutcome::Unavailable(code) ==> r == Err::<(), AltError>(
            AltError::EnvironmentFailure(code),
        ),
{
    match outcome {
        ForwardOutcome::Accepted => Ok(()),
        ForwardOutcome::Rejected(code) => Err(AltError::ExternalRejection(code)),
        ForwardOutcome::Unavailable(code) => Err(AltError::EnvironmentFailure(code)),
    }
}

} // verus!
