//! Address spaces.

use crate::ir::address::address_count;
use crate::ir::term::share;
use std::sync::Arc;
use vstd::prelude::*;

verus! {

/// What an address space is known by: its place among the spaces, and marks of
/// what it is for.
#[derive(Clone, Copy, Debug, PartialEq, Eq, Structural)]
pub struct AddressSpaceId {
    pub bits: u32,
}

/// The place that an identifier gives: its low sixteen bits.
pub open spec fn space_index(bits: u32) -> int {
    bits as int % 0x1_0000
}

/// Calls `fugue::ir::AddressSpaceId::index` on the identifier with the given
/// bits. Claims that it is their low half.
#[verifier::external_body]
pub(crate) fn space_index_of(bits: u32) -> (index: usize)
    ensures
        index == space_index(bits),
{
    fugue::ir::AddressSpaceId::from_bits(bits).index()
}

/// An address space; sizes in bytes.
#[derive(Debug)]
pub struct AddressSpace {
    pub id: AddressSpaceId,
    pub name: String,
    pub address_size: usize,
    pub word_size: usize,
}

/// The number of values of some bytes. More than eight count as eight.
pub open spec fn value_count(bytes: int) -> int {
    if bytes <= 0 {
        1
    } else if bytes == 1 {
        0x100
    } else if bytes == 2 {
        0x1_0000
    } else if bytes == 3 {
        0x100_0000
    } else if bytes == 4 {
        0x1_0000_0000
    } else if bytes == 5 {
        0x100_0000_0000
    } else if bytes == 6 {
        0x1_0000_0000_0000
    } else if bytes == 7 {
        0x100_0000_0000_0000
    } else {
        address_count()
    }
}

fn count_values(bytes: usize) -> (count: u128)
    ensures
        count == value_count(bytes as int),
        count <= address_count(),
{
    match bytes {
        0 => 1,
        1 => 0x100,
        2 => 0x1_0000,
        3 => 0x100_0000,
        4 => 0x1_0000_0000,
        5 => 0x100_0000_0000,
        6 => 0x1_0000_0000_0000,
        7 => 0x100_0000_0000_0000,
        _ => 0x1_0000_0000_0000_0000,
    }
}

/// An offset as a signed number.
pub open spec fn signed_offset(offset: u64) -> int {
    if offset < 0x8000_0000_0000_0000 {
        offset as int
    } else {
        offset - address_count()
    }
}

/// An offset in a space of `size` bytes: itself where it is inside. Otherwise
/// it is taken as a signed number and counted round the space.
pub open spec fn offset_within(size: int, offset: u64) -> u64 {
    if offset < size {
        offset
    } else {
        (signed_offset(offset) % size) as u64
    }
}

/// Calls `fugue::ir::AddressValue::new` for an offset into a space whose
/// addresses and words have the given sizes, made by `fugue`'s `Space::new`,
/// and takes the offset and the highest offset of the value. Claims that the
/// space has a word for each value of an address, and that the offset is
/// counted round it.
#[verifier::external_body]
pub(crate) fn wrap_offset(address_size: usize, word_size: usize, offset: u64) -> (wrapped: (
    u64,
    u64,
))
    requires
        word_size > 0,
        value_count(address_size as int) * word_size <= address_count(),
        offset < value_count(address_size as int) * word_size || value_count(address_size as int)
            * word_size < 0x8000_0000_0000_0000,
    ensures
        wrapped.0 == offset_within(value_count(address_size as int) * word_size, offset),
        wrapped.1 == value_count(address_size as int) * word_size - 1,
{
    let kind = fugue::ir::space::SpaceKind::Default;
    let space = fugue::ir::space::Space::new(kind, "", address_size, word_size, 0, None, 0);
    let value = fugue::ir::AddressValue::new(fugue::ir::AddressSpace::Space(space), offset);
    (value.offset(), value.highest_offset())
}

/// An address in a space, with the size of a word and the highest offset of
/// that space.
#[derive(Clone, Copy, Debug, PartialEq, Eq, Structural)]
pub struct AddressValue {
    pub space: AddressSpaceId,
    pub word_size: u32,
    pub highest: u64,
    pub offset: u64,
}

impl AddressSpace {
    /// The number of bytes of the space.
    pub open spec fn size(self) -> int {
        value_count(self.address_size as int) * self.word_size
    }

    /// Whether an offset can be counted round the space: the space is not
    /// empty and its offsets are numbers of 64 bits; an offset outside needs
    /// its size to be a signed one.
    pub open spec fn holds(self, offset: u64) -> bool {
        &&& self.word_size > 0
        &&& self.size() <= address_count()
        &&& offset < self.size() || self.size() < 0x8000_0000_0000_0000
    }

    /// The address of an offset into the space.
    pub open spec fn value_at(self, offset: u64) -> AddressValue {
        AddressValue {
            space: self.id,
            word_size: self.word_size as u32,
            highest: (self.size() - 1) as u64,
            offset: offset_within(self.size(), offset),
        }
    }

    /// Whether an offset can be counted round the space.
    pub fn can_hold(&self, offset: u64) -> (can: bool)
        ensures
            can == self.holds(offset),
    {
        let addresses: u128 = count_values(self.address_size);
        let word: u128 = self.word_size as u128;
        assert(addresses * word <= 0x1_0000_0000_0000_0000 * 0xffff_ffff_ffff_ffff)
            by (nonlinear_arith)
            requires
                addresses <= 0x1_0000_0000_0000_0000,
                word <= 0xffff_ffff_ffff_ffff,
        ;
        let size: u128 = addresses * word;
        word > 0 && size <= 0x1_0000_0000_0000_0000 && ((offset as u128) < size || size
            < 0x8000_0000_0000_0000)
    }

    /// The address of an offset into the space.
    pub fn address(&self, offset: u64) -> (value: AddressValue)
        requires
            self.holds(offset),
        ensures
            value == self.value_at(offset),
    {
        let (wrapped, highest) = wrap_offset(self.address_size, self.word_size, offset);
        AddressValue {
            space: self.id,
            word_size: self.word_size as u32,
            highest,
            offset: wrapped,
        }
    }
}

/// The address spaces of a processor. Three of them are known by their place.
#[derive(Debug)]
pub struct SpaceManager {
    pub spaces: Vec<Arc<AddressSpace>>,
    pub default_space: usize,
    pub register_space: usize,
    pub unique_space: usize,
}

impl Clone for SpaceManager {
    fn clone(&self) -> (copy: Self)
        ensures
            copy.same_as(*self),
    {
        let mut spaces: Vec<Arc<AddressSpace>> = Vec::new();
        let mut i: usize = 0;
        while i < self.spaces.len()
            invariant
                i <= self.spaces@.len(),
                spaces@ == self.spaces@.take(i as int),
            decreases self.spaces@.len() - i,
        {
            spaces.push(share(&self.spaces[i]));
            i = i + 1;
        }
        assert(spaces@ =~= self.spaces@);
        SpaceManager {
            spaces,
            default_space: self.default_space,
            register_space: self.register_space,
            unique_space: self.unique_space,
        }
    }
}

impl SpaceManager {
    /// Whether two managers have the same spaces.
    pub open spec fn same_as(self, other: SpaceManager) -> bool {
        &&& self.spaces@ == other.spaces@
        &&& self.default_space == other.default_space
        &&& self.register_space == other.register_space
        &&& self.unique_space == other.unique_space
    }

    /// Whether the three places are those of spaces.
    pub open spec fn wf(self) -> bool {
        &&& self.default_space < self.spaces@.len()
        &&& self.register_space < self.spaces@.len()
        &&& self.unique_space < self.spaces@.len()
    }

    /// Whether an identifier gives the place of a space.
    pub open spec fn has_space(self, id: AddressSpaceId) -> bool {
        space_index(id.bits) < self.spaces@.len()
    }

    /// The space at the place that an identifier gives.
    pub open spec fn space_of(self, id: AddressSpaceId) -> AddressSpace {
        *self.spaces@[space_index(id.bits)]
    }

    /// Whether an identifier gives the place of a space.
    pub fn knows(&self, id: AddressSpaceId) -> (known: bool)
        ensures
            known == self.has_space(id),
    {
        space_index_of(id.bits) < self.spaces.len()
    }

    /// The space at the place that an identifier gives.
    pub fn space_by_id(&self, id: AddressSpaceId) -> (space: &AddressSpace)
        requires
            self.has_space(id),
        ensures
            *space == self.space_of(id),
    {
        &self.spaces[space_index_of(id.bits)]
    }

    /// The space of memory.
    pub fn default_space(&self) -> (space: &AddressSpace)
        requires
            self.wf(),
        ensures
            *space == *self.spaces@[self.default_space as int],
    {
        &self.spaces[self.default_space]
    }

    /// The space of registers.
    pub fn register_space(&self) -> (space: &AddressSpace)
        requires
            self.wf(),
        ensures
            *space == *self.spaces@[self.register_space as int],
    {
        &self.spaces[self.register_space]
    }

    /// The space of temporaries.
    pub fn unique_space(&self) -> (space: &AddressSpace)
        requires
            self.wf(),
        ensures
            *space == *self.spaces@[self.unique_space as int],
    {
        &self.spaces[self.unique_space]
    }
}

} // verus!
