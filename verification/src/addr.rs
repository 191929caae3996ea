//! Opaque 256-bit identities.
//!
//! The host environment addresses every participant (users, external
//! components, asset accounts) by a 32-byte identity. The ledger core never
//! inspects such a value beyond comparing it for equality, so it carries the
//! 32 bytes as four 64-bit words in little-endian word order.

use vstd::prelude::*;

verus! {

/// A 32-byte identity, stored as four little-endian 64-bit words.
#[derive(Clone, Copy, Debug, PartialEq, Eq, Structural)]
pub struct Address {
    pub w0: u64,
    pub w1: u64,
    pub w2: u64,
    pub w3: u64,
}

impl Address {
    /// Builds an identity from its four little-endian words.
    pub fn from_words(w0: u64, w1: u64, w2: u64, w3: u64) -> (r: Address)
        ensures
            r == (Address { w0, w1, w2, w3 }),
    {
        Address { w0, w1, w2, w3 }
    }
}

/// The all-zero identity: the storage sentinel for an absent optional
/// reference or an empty whitelist slot. No legitimate participant may be
/// addressed by it, since stored records cannot tell it from absence.
pub open spec fn zero_address() -> Address {
    Address { w0: 0, w1: 0, w2: 0, w3: 0 }
}

} // verus!
