//! Plain-value model of a 32-byte account address (a public key).
//!
//! The runner's logic only ever compares addresses and uses them as map
//! keys, so an address is held as two 128-bit halves of its 32 bytes in
//! big-endian order. Conversions from and to the byte form live with the
//! unverified glue around this library.

use vstd::prelude::*;

verus! {

/// A 32-byte account address, split into the high and the low 16 bytes,
/// each read in big-endian order.
#[derive(Clone, Copy, Debug, PartialEq, Eq, Hash, Structural)]
pub struct Address {
    pub hi: u128,
    pub lo: u128,
}

impl Address {
    /// The all-zero address. It is both the default owner of plainly
    /// funded accounts and the id of the system program, whose 32 bytes
    /// are all zero.
    pub fn zero() -> (r: Address)
        ensures
            r == Address::spec_zero(),
    {
        Address { hi: 0, lo: 0 }
    }

    pub open spec fn spec_zero() -> Address {
        Address { hi: 0, lo: 0 }
    }

    /// The id of the standard upgradeable loader
    /// (`BPFLoaderUpgradeab1e11111111111111111111111`), as the two
    /// big-endian halves of its 32 bytes.
    pub fn upgradeable_loader() -> (r: Address)
        ensures
            r == Address::spec_upgradeable_loader(),
    {
        Address { hi: 0x02a8f6914e88a1b0e210153ef763ae2b, lo: 0x00c2b93d16c124d2c0537a1004800000 }
    }

    pub open spec fn spec_upgradeable_loader() -> Address {
        Address { hi: 0x02a8f6914e88a1b0e210153ef763ae2b, lo: 0x00c2b93d16c124d2c0537a1004800000 }
    }
}

} // verus!
