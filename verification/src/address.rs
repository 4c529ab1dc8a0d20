//! Thirty-two byte addresses and identifiers.

use vstd::prelude::*;

verus! {

/// The address of an account holder, an authority, a mint or a record.
///
/// An address is a capability token: an operation that needs authorization
/// compares the caller's address with the one stored in the record.
#[derive(Clone, Copy, Debug, PartialEq, Eq, Hash)]
pub struct Address {
    pub bytes: [u8; 32],
}

/// Thirty-two zero bytes: the value that stands for "no hash given".
pub open spec fn zero_bytes32() -> Seq<u8> {
    Seq::new(32, |i: int| 0u8)
}

/// Whether two 32-byte values hold the same bytes.
pub fn bytes32_eq(a: &[u8; 32], b: &[u8; 32]) -> (same: bool)
    ensures
        same == (*a == *b),
        same == (a@ == b@),
{
    let mut i: usize = 0;
    while i < 32
        invariant
            i <= 32,
            forall|j: int| 0 <= j < i ==> a@[j] == b@[j],
        decreases 32 - i,
    {
        if a[i] != b[i] {
            return false;
        }
        i += 1;
    }
    assert(a@ =~= b@);
    assert(*a =~= *b);
    true
}

/// Whether every byte of a 32-byte value is zero.
pub fn bytes32_is_zero(a: &[u8; 32]) -> (zero: bool)
    ensures
        zero == (a@ == zero_bytes32()),
{
    let mut i: usize = 0;
    while i < 32
        invariant
            i <= 32,
            forall|j: int| 0 <= j < i ==> a@[j] == 0u8,
        decreases 32 - i,
    {
        if a[i] != 0 {
            return false;
        }
        i += 1;
    }
    assert(a@ =~= zero_bytes32());
    true
}

impl Address {
    /// Wraps thirty-two bytes as an address.
    pub fn new(bytes: [u8; 32]) -> (address: Address)
        ensures
            address.bytes == bytes,
    {
        Address { bytes }
    }

    /// Whether two addresses are the same.
    pub fn equals(&self, other: &Address) -> (same: bool)
        ensures
            same == (*self == *other),
    {
        bytes32_eq(&self.bytes, &other.bytes)
    }
}

} // verus!
