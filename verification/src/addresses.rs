//! Plain 32-byte account addresses and the well-known program identities.

use vstd::prelude::*;

verus! {

/// A 32-byte account address, the identifier of every on-chain resource:
/// lookup tables, authorities, payers, recipients and programs alike.
#[derive(Clone, Copy, Debug, PartialEq, Eq)]
pub struct Address {
    pub bytes: [u8; 32],
}

impl View for Address {
    type V = Seq<u8>;

    open spec fn view(&self) -> Seq<u8> {
        self.bytes@
    }
}

/// The well-known identity of the address lookup table program
/// (the base58 form reads `AddressLookupTab1e1111111111111111111111111`).
pub open spec fn alt_program_id() -> Seq<u8> {
    seq![
        2u8, 119u8, 166u8, 175u8, 151u8, 51u8, 155u8, 122u8, 200u8, 141u8, 24u8, 146u8, 201u8,
        4u8, 70u8, 245u8, 0u8, 2u8, 48u8, 146u8, 102u8, 246u8, 46u8, 83u8, 193u8, 24u8, 36u8,
        73u8, 130u8, 0u8, 0u8, 0u8,
    ]
}

/// The well-known identity of the system program: thirty-two zero bytes.
pub open spec fn system_program_id() -> Seq<u8> {
    Seq::new(32, |i: int| 0u8)
}

/// The executable form of [`alt_program_id`].
pub fn alt_program_address() -> (r: Address)
    ensures
        r@ == alt_program_id(),
{
    let bytes: [u8; 32] = [
        2, 119, 166, 175, 151, 51, 155, 122, 200, 141, 24, 146, 201, 4, 70, 245, 0, 2, 48, 146,
        102, 246, 46, 83, 193, 24, 36, 73, 130, 0, 0, 0,
    ];
    let r = Address { bytes };
    proof {
        assert(r@ =~= alt_program_id());
    }
    r
}

/// The executable form of [`system_program_id`].
pub fn system_program_address() -> (r: Address)
    ensures
        r@ == system_program_id(),
{
    let r = Address { bytes: [0; 32] };
    proof {
        assert(r@ =~= system_program_id());
    }
    r
}

/// Byte-wise equality of two addresses, proved against their views.
pub fn address_eq(a: &Address, b: &Address) -> (r: bool)
    ensures
        r <==> a@ == b@,
{
    let mut i: usize = 0;
    while i < 32
        invariant
            i <= 32,
            forall|j: int| 0 <= j < i ==> a.bytes@[j] == b.bytes@[j],
        decreases 32 - i,
    {
        if a.bytes[i] != b.bytes[i] {
            assert(a@[i as int] != b@[i as int]);
            return false;
        }
        i += 1;
    }
    proof {
        assert(a@ =~= b@);
    }
    true
}

} // verus!
