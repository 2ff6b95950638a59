//! The five operations, held against the external program's own builders.

use lookup_table_proxy::accounts::{
    CloseAddressLookupTable, CreateAddressLookupTable, DeactivateAddressLookupTable,
    ExtendAddressLookupTable, FreezeAddressLookupTable,
};
use lookup_table_proxy::addresses::{Address, alt_program_address, system_program_address};
use lookup_table_proxy::errors::AltError;
use lookup_table_proxy::proxy::{
    close_address_lookup_table, create_address_lookup_table, deactivate_address_lookup_table,
    extend_address_lookup_table, extend_address_lookup_table_with, freeze_address_lookup_table,
};
use lookup_table_proxy::requests::Request;
use solana_address_lookup_table_interface::instruction::{
    close_lookup_table, create_lookup_table_signed, deactivate_lookup_table,
    derive_lookup_table_address, extend_lookup_table, freeze_lookup_table,
};
use solana_instruction::Instruction;
use solana_pubkey::Pubkey;

fn addr(bytes: [u8; 32]) -> Address {
    Address { bytes }
}

fn pk(a: &Address) -> Pubkey {
    Pubkey::new_from_array(a.bytes)
}

/// The request must agree with the instruction in program, accounts,
/// rights, order, and payload.
fn assert_matches_instruction(req: &Request, ix: &Instruction) {
    assert_eq!(req.program.bytes, ix.program_id.to_bytes());
    assert_eq!(req.accounts.len(), ix.accounts.len());
    for (r, m) in req.accounts.iter().zip(ix.accounts.iter()) {
        assert_eq!(r.address.bytes, m.pubkey.to_bytes());
        assert_eq!(r.signer, m.is_signer);
        assert_eq!(r.writable, m.is_writable);
    }
    assert_eq!(req.data, ix.data);
}

#[test]
fn create_with_derived_handle_forwards() {
    let authority = addr([7; 32]);
    let payer = addr([8; 32]);
    let recent_slot: u64 = 12345;
    let (derived, _bump) = derive_lookup_table_address(&pk(&authority), recent_slot);
    let accounts = CreateAddressLookupTable {
        authority,
        payer,
        lookup_table: addr(derived.to_bytes()),
        address_lookup_table_program: alt_program_address(),
        system_program: system_program_address(),
    };
    let req = create_address_lookup_table(&accounts, recent_slot).unwrap();
    #[allow(deprecated)]
    let (ix, key) = create_lookup_table_signed(pk(&authority), pk(&payer), recent_slot);
    assert_eq!(key, derived);
    assert_matches_instruction(&req, &ix);
    assert_eq!(req.accounts[0].address.bytes, derived.to_bytes());
}

#[test]
fn create_with_other_handle_is_rejected() {
    let authority = addr([7; 32]);
    let recent_slot: u64 = 12345;
    let (derived, _bump) = derive_lookup_table_address(&pk(&authority), recent_slot);
    let mut wrong = derived.to_bytes();
    wrong[0] = wrong[0].wrapping_add(1);
    let accounts = CreateAddressLookupTable {
        authority,
        payer: addr([8; 32]),
        lookup_table: addr(wrong),
        address_lookup_table_program: alt_program_address(),
        system_program: system_program_address(),
    };
    let r = create_address_lookup_table(&accounts, recent_slot);
    assert_eq!(r, Err(AltError::AddressMismatch));
}

#[test]
fn create_under_wrong_program_is_rejected() {
    let authority = addr([7; 32]);
    let recent_slot: u64 = 12345;
    let (derived, _bump) = derive_lookup_table_address(&pk(&authority), recent_slot);
    let accounts = CreateAddressLookupTable {
        authority,
        payer: addr([8; 32]),
        lookup_table: addr(derived.to_bytes()),
        address_lookup_table_program: addr([9; 32]),
        system_program: system_program_address(),
    };
    let r = create_address_lookup_table(&accounts, recent_slot);
    assert_eq!(r, Err(AltError::ProgramMismatch));
}

#[test]
fn freeze_matches_builder() {
    let accounts = FreezeAddressLookupTable {
        authority: addr([1; 32]),
        lookup_table: addr([2; 32]),
        address_lookup_table_program: alt_program_address(),
        system_program: system_program_address(),
    };
    let req = freeze_address_lookup_table(&accounts).unwrap();
    let ix = freeze_lookup_table(pk(&accounts.lookup_table), pk(&accounts.authority));
    assert_matches_instruction(&req, &ix);
    assert_eq!(req.data, vec![1, 0, 0, 0]);
}

#[test]
fn freeze_under_wrong_system_program_is_rejected() {
    let accounts = FreezeAddressLookupTable {
        authority: addr([1; 32]),
        lookup_table: addr([2; 32]),
        address_lookup_table_program: alt_program_address(),
        system_program: addr([3; 32]),
    };
    assert_eq!(freeze_address_lookup_table(&accounts), Err(AltError::ProgramMismatch));
}

#[test]
fn extend_record_matches_builder() {
    let accounts = ExtendAddressLookupTable {
        authority: addr([1; 32]),
        payer: addr([2; 32]),
        lookup_table: addr([3; 32]),
        publickey_1: addr([4; 32]),
        publickey_2: addr([5; 32]),
        publickey_3: addr([6; 32]),
        address_lookup_table_program: alt_program_address(),
        system_program: system_program_address(),
    };
    let req = extend_address_lookup_table(&accounts).unwrap();
    let ix = extend_lookup_table(
        pk(&accounts.lookup_table),
        pk(&accounts.authority),
        Some(pk(&accounts.payer)),
        vec![
            pk(&accounts.publickey_1),
            pk(&accounts.publickey_2),
            pk(&accounts.publickey_3),
        ],
    );
    assert_matches_instruction(&req, &ix);
}

#[test]
fn extend_with_twenty_entries_forwards() {
    let accounts = ExtendAddressLookupTable {
        authority: addr([1; 32]),
        payer: addr([2; 32]),
        lookup_table: addr([3; 32]),
        publickey_1: addr([4; 32]),
        publickey_2: addr([5; 32]),
        publickey_3: addr([6; 32]),
        address_lookup_table_program: alt_program_address(),
        system_program: system_program_address(),
    };
    let mut entries = Vec::new();
    for i in 0..20u8 {
        entries.push(addr([i; 32]));
    }
    let req = extend_address_lookup_table_with(&accounts, &entries).unwrap();
    let ix = extend_lookup_table(
        pk(&accounts.lookup_table),
        pk(&accounts.authority),
        Some(pk(&accounts.payer)),
        entries.iter().map(pk).collect(),
    );
    assert_matches_instruction(&req, &ix);
}

#[test]
fn extend_with_twenty_one_entries_is_rejected() {
    let accounts = ExtendAddressLookupTable {
        authority: addr([1; 32]),
        payer: addr([2; 32]),
        lookup_table: addr([3; 32]),
        publickey_1: addr([4; 32]),
        publickey_2: addr([5; 32]),
        publickey_3: addr([6; 32]),
        address_lookup_table_program: alt_program_address(),
        system_program: system_program_address(),
    };
    let mut entries = Vec::new();
    for i in 0..21u8 {
        entries.push(addr([i; 32]));
    }
    let r = extend_address_lookup_table_with(&accounts, &entries);
    assert_eq!(r, Err(AltError::TooManyEntries));
}

#[test]
fn deactivate_matches_builder_and_repeats_identically() {
    let accounts = DeactivateAddressLookupTable {
        authority: addr([1; 32]),
        lookup_table: addr([2; 32]),
        address_lookup_table_program: alt_program_address(),
        system_program: system_program_address(),
    };
    let first = deactivate_address_lookup_table(&accounts).unwrap();
    let ix = deactivate_lookup_table(pk(&accounts.lookup_table), pk(&accounts.authority));
    assert_matches_instruction(&first, &ix);
    assert_eq!(first.data, vec![3, 0, 0, 0]);
    let second = deactivate_address_lookup_table(&accounts).unwrap();
    assert_eq!(first, second);
}

#[test]
fn close_forwards_recipient_unchanged() {
    let accounts = CloseAddressLookupTable {
        authority: addr([1; 32]),
        lookup_table: addr([2; 32]),
        recipient: addr([42; 32]),
        address_lookup_table_program: alt_program_address(),
        system_program: system_program_address(),
    };
    let req = close_address_lookup_table(&accounts).unwrap();
    let ix = close_lookup_table(
        pk(&accounts.lookup_table),
        pk(&accounts.authority),
        pk(&accounts.recipient),
    );
    assert_matches_instruction(&req, &ix);
    assert_eq!(req.accounts[2].address.bytes, [42; 32]);
    assert_eq!(req.data, vec![4, 0, 0, 0]);
}
