//! Addresses.

use vstd::prelude::*;

verus! {

/// An address of a program: an offset into its memory.
#[derive(Clone, Copy, Debug, PartialEq, Eq, Structural)]
pub struct Address {
    pub offset: u64,
}

/// The number of addresses.
pub open spec fn address_count() -> int {
    0x1_0000_0000_0000_0000
}

/// The offset that stands `bytes` after `base`, where the first address comes
/// after the last one.
pub open spec fn offset_after(base: u64, bytes: int) -> u64 {
    ((base + bytes) % address_count()) as u64
}

/// How many bytes after `base` an offset stands, where the first address comes
/// after the last one.
pub open spec fn distance(base: u64, offset: u64) -> int {
    (offset - base) % address_count()
}

/// Adds to a `fugue::ir::Address` with its `+`, and takes the offset of the
/// sum. Claims that the sum wraps around.
#[verifier::external_body]
pub(crate) fn address_sum(base: u64, bytes: u64) -> (offset: u64)
    ensures
        offset == offset_after(base, bytes as int),
{
    (fugue::ir::Address::from(base) + bytes).offset()
}

impl Address {
    /// The address that stands `bytes` after this one.
    pub fn after(self, bytes: u64) -> (address: Address)
        ensures
            address.offset == offset_after(self.offset, bytes as int),
    {
        Address { offset: address_sum(self.offset, bytes) }
    }
}

/// The offset `bytes` after `base` is `bytes` away from it, and is the only one
/// that is.
pub proof fn lemma_distance(base: u64, offset: u64, bytes: int)
    requires
        0 <= bytes < address_count(),
    ensures
        distance(base, offset) == bytes <==> offset == offset_after(base, bytes),
        0 <= distance(base, offset) < address_count(),
{
}

} // verus!
