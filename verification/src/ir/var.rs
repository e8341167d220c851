//! Variables.

use crate::ir::space::{AddressSpaceId, SpaceManager};
use vstd::prelude::*;

verus! {

/// A variable: some bits at an offset into an address space, of a generation.
#[derive(Clone, Copy, Debug, PartialEq, Eq, Structural)]
pub struct Var {
    pub space: AddressSpaceId,
    pub offset: u64,
    pub bits: u32,
    pub generation: u32,
}

impl Var {
    pub fn new(space: AddressSpaceId, offset: u64, bits: u32, generation: u32) -> (var: Var)
        ensures
            var == (Var { space, offset, bits, generation }),
    {
        Var { space, offset, bits, generation }
    }

    /// A variable of the first generation.
    pub fn new0(space: AddressSpaceId, offset: u64, bits: u32) -> (var: Var)
        ensures
            var == (Var { space, offset, bits, generation: 0 }),
    {
        Var::new(space, offset, bits, 0)
    }

    pub fn nbits(&self) -> (bits: u32)
        ensures
            bits == self.bits,
    {
        self.bits
    }
}

/// The variables of an address space.
#[derive(Clone, Copy, Debug, PartialEq, Eq, Structural)]
pub struct VarView {
    pub space: AddressSpaceId,
}

impl VarView {
    /// The variables that are registers.
    pub fn registers(manager: &SpaceManager) -> (view: VarView)
        requires
            manager.wf(),
        ensures
            view.space == manager.spaces@[manager.register_space as int].id,
    {
        VarView { space: manager.register_space().id }
    }

    pub fn space(&self) -> (space: AddressSpaceId)
        ensures
            space == self.space,
    {
        self.space
    }
}

} // verus!
