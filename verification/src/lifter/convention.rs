//! Calling conventions.

use crate::cio::info::{bits_fit, bits_of, has_bits};
use crate::ir::space::AddressSpaceId;
use crate::ir::var::Var;
use crate::names::name_text;
use std::sync::Arc;
use ustr::Ustr;
use vstd::prelude::*;

verus! {

/// Some bytes at an offset into an address space.
#[derive(Clone, Copy, Debug, PartialEq, Eq, Structural)]
pub struct VarnodeData {
    pub space: AddressSpaceId,
    pub offset: u64,
    pub size: usize,
}

impl VarnodeData {
    /// The variable of this place in a space.
    pub open spec fn var_in(self, space: AddressSpaceId) -> Var {
        Var { space, offset: self.offset, bits: bits_of(self.size), generation: 0 }
    }

    /// The variable of this place in a space.
    pub fn in_space(&self, space: AddressSpaceId) -> (var: Var)
        requires
            bits_fit(self.size),
        ensures
            var == self.var_in(space),
    {
        Var::new(space, self.offset, self.size as u32 * 8, 0)
    }
}

/// Where a call passes a value.
#[derive(Debug)]
pub enum PrototypeOperand {
    Register { name: Ustr, varnode: VarnodeData },
    RegisterJoin {
        first_name: Ustr,
        first_varnode: VarnodeData,
        second_name: Ustr,
        second_varnode: VarnodeData,
    },
    StackRelative(u64),
}

impl Clone for PrototypeOperand {
    fn clone(&self) -> (copy: Self)
        ensures
            copy == *self,
    {
        *self
    }
}

impl Copy for PrototypeOperand {

}

impl PrototypeOperand {
    /// Whether the register, if it is one, has a size that fits in bits.
    pub open spec fn fits(self) -> bool {
        self matches PrototypeOperand::Register { varnode, .. } ==> bits_fit(varnode.size)
    }

    /// Whether the register, if it is one, has a size that fits in bits.
    pub fn is_sized(&self) -> (sized: bool)
        ensures
            sized == self.fits(),
    {
        match self {
            PrototypeOperand::Register { varnode, .. } => has_bits(varnode.size),
            _ => true,
        }
    }

    /// The variable of the register in a space, if it is a register.
    pub open spec fn register_in(self, space: AddressSpaceId) -> Option<Var> {
        match self {
            PrototypeOperand::Register { varnode, .. } => Some(varnode.var_in(space)),
            _ => None,
        }
    }
}

/// Where a call passes a value of some kind; sizes in bytes.
#[derive(Debug)]
pub struct PrototypeEntry {
    pub min_size: usize,
    pub max_size: usize,
    pub alignment: u64,
    pub meta_type: Option<String>,
    pub extension: Option<String>,
    pub operand: PrototypeOperand,
}

/// The text of an optional string.
pub open spec fn optional_text(text: Option<String>) -> Option<Seq<char>> {
    match text {
        Some(t) => Some(t@),
        None => None,
    }
}

/// What a call of some kind passes, keeps and overwrites.
#[derive(Debug)]
pub struct Prototype {
    pub name: String,
    pub extra_pop: u64,
    pub stack_shift: u64,
    pub inputs: Arc<Vec<PrototypeEntry>>,
    pub outputs: Arc<Vec<PrototypeEntry>>,
    pub unaffected: Arc<Vec<PrototypeOperand>>,
    pub killed_by_call: Arc<Vec<PrototypeOperand>>,
    pub likely_trashed: Arc<Vec<PrototypeOperand>>,
}

/// Where a call leaves its return address.
#[derive(Debug)]
pub enum ReturnAddress {
    Register { name: Ustr, varnode: VarnodeData },
    StackRelative { offset: u64, size: usize },
}

impl Clone for ReturnAddress {
    fn clone(&self) -> (copy: Self)
        ensures
            copy == *self,
    {
        *self
    }
}

impl Copy for ReturnAddress {

}

impl ReturnAddress {
    /// Whether the register, if it is one, has a size that fits in bits.
    pub open spec fn fits(self) -> bool {
        self matches ReturnAddress::Register { varnode, .. } ==> bits_fit(varnode.size)
    }
}

/// Code that takes the place of calls of certain functions.
#[derive(Debug)]
pub struct CallFixup {
    pub name: String,
    pub shift: i64,
    pub targets: Vec<Ustr>,
    pub pcode: String,
}

impl CallFixup {
    /// Whether calls of a function are replaced.
    pub open spec fn targets_name(self, text: Seq<char>) -> bool {
        exists|i: int| 0 <= i < self.targets@.len() && name_text(#[trigger] self.targets@[i]) == text
    }
}

/// A calling convention.
#[derive(Debug)]
pub struct Convention {
    pub name: String,
    pub stack_pointer: VarnodeData,
    pub return_address: ReturnAddress,
    pub default_prototype: Prototype,
    pub additional_prototypes: Vec<Prototype>,
    pub call_fixups: Vec<CallFixup>,
}

} // verus!
