//! The per-operation account records.
//!
//! Each record enumerates the account identities a caller must supply for
//! one operation. The rights each account is forwarded with (signer,
//! writable) are fixed per operation and live in the request shapes; the
//! records here carry identities alone.

use vstd::prelude::*;
use crate::addresses::Address;

verus! {

/// The accounts a caller supplies to create a lookup table.
#[derive(Clone, Copy, Debug, PartialEq, Eq)]
pub struct CreateAddressLookupTable {
    /// The entity that will control the new table.
    pub authority: Address,
    /// The entity funding the new table.
    pub payer: Address,
    /// The handle the caller expects the new table to live at; it must
    /// equal the handle derived from the authority and the recent slot.
    pub lookup_table: Address,
    /// The lookup table program; must carry its well-known identity.
    pub address_lookup_table_program: Address,
    /// The system program; must carry its well-known identity.
    pub system_program: Address,
}

/// The accounts a caller supplies to freeze a lookup table.
#[derive(Clone, Copy, Debug, PartialEq, Eq)]
pub struct FreezeAddressLookupTable {
    /// The entity controlling the table.
    pub authority: Address,
    /// The table to freeze.
    pub lookup_table: Address,
    /// The lookup table program; must carry its well-known identity.
    pub address_lookup_table_program: Address,
    /// The system program; must carry its well-known identity.
    pub system_program: Address,
}

/// The accounts a caller supplies to extend a lookup table.
#[derive(Clone, Copy, Debug, PartialEq, Eq)]
pub struct ExtendAddressLookupTable {
    /// The entity controlling the table.
    pub authority: Address,
    /// The entity funding the extension, should the table need a larger
    /// balance afterwards; always supplied, since the proxy cannot know the
    /// balance in advance.
    pub payer: Address,
    /// The table to extend.
    pub lookup_table: Address,
    /// The first entry to append.
    pub publickey_1: Address,
    /// The second entry to append.
    pub publickey_2: Address,
    /// The third entry to append.
    pub publickey_3: Address,
    /// The lookup table program; must carry its well-known identity.
    pub address_lookup_table_program: Address,
    /// The system program; must carry its well-known identity.
    pub system_program: Address,
}

/// The accounts a caller supplies to deactivate a lookup table.
#[derive(Clone, Copy, Debug, PartialEq, Eq)]
pub struct DeactivateAddressLookupTable {
    /// The entity controlling the table.
    pub authority: Address,
    /// The table to deactivate.
    pub lookup_table: Address,
    /// The lookup table program; must carry its well-known identity.
    pub address_lookup_table_program: Address,
    /// The system program; must carry its well-known identity.
    pub system_program: Address,
}

/// The accounts a caller supplies to close a lookup table.
#[derive(Clone, Copy, Debug, PartialEq, Eq)]
pub struct CloseAddressLookupTable {
    /// The entity controlling the table.
    pub authority: Address,
    /// The table to close.
    pub lookup_table: Address,
    /// The recipient of the closed table's drained balance.
    pub recipient: Address,
    /// The lookup table program; must carry its well-known identity.
    pub address_lookup_table_program: Address,
    /// The system program; must carry its well-known identity.
    pub system_program: Address,
}

} // verus!
