//! Where calls pass their values, as variables.

use crate::ir::address::{offset_after, Address};
use crate::ir::space::AddressSpaceId;
use crate::ir::term::share;
use crate::ir::var::Var;
use crate::lifter::convention::{
    optional_text, PrototypeEntry, PrototypeOperand, ReturnAddress,
};
use std::sync::Arc;
use vstd::prelude::*;

verus! {

/// Where a value is: in a register, or at an offset into the stack, with its
/// size in bytes.
#[derive(Clone, Copy, Debug, PartialEq, Eq, Structural)]
pub enum Operand {
    Register(Var),
    Stack(i64, usize),
}

/// Turns the places of a calling convention into variables.
#[derive(Debug)]
pub struct PrototypeResolver {
    pub address_bits: u32,
    pub global_space: AddressSpaceId,
    pub register_space: AddressSpaceId,
    pub return_: ReturnAddress,
}

impl Clone for PrototypeResolver {
    fn clone(&self) -> (copy: Self)
        ensures
            copy == *self,
    {
        *self
    }
}

impl Copy for PrototypeResolver {

}

impl PrototypeResolver {
    /// The variable of an address in memory that stands `bytes` after another.
    pub open spec fn memory_var(self, base: Address, bytes: u64) -> Var {
        Var {
            space: self.global_space,
            offset: offset_after(base.offset, bytes as int),
            bits: self.address_bits,
            generation: 0,
        }
    }

    /// The variable of a register, or of a place on the stack. A value in two
    /// registers has none.
    pub open spec fn resolved(self, operand: PrototypeOperand, stack_base: Address) -> Option<Var> {
        match operand {
            PrototypeOperand::StackRelative(offset) => Some(self.memory_var(stack_base, offset)),
            _ => operand.register_in(self.register_space),
        }
    }

    /// The variable of the return address.
    pub open spec fn resolved_return(self, stack_base: Address) -> Var {
        match self.return_ {
            ReturnAddress::Register { varnode, .. } => varnode.var_in(self.register_space),
            ReturnAddress::StackRelative { offset, .. } => self.memory_var(stack_base, offset),
        }
    }

    /// The operand of a register, or of a place on the stack. A value in two
    /// registers has none.
    pub open spec fn operand_of(self, operand: PrototypeOperand) -> Option<Operand> {
        match operand {
            PrototypeOperand::Register { varnode, .. } => Some(
                Operand::Register(varnode.var_in(self.register_space)),
            ),
            PrototypeOperand::StackRelative(offset) => Some(
                Operand::Stack(offset as i64, (self.address_bits as usize / 8) as usize),
            ),
            _ => None,
        }
    }

    pub fn resolve(&self, operand: &PrototypeOperand, stack_base: Address) -> (var: Option<Var>)
        requires
            operand.fits(),
        ensures
            var == self.resolved(*operand, stack_base),
    {
        match operand {
            PrototypeOperand::Register { varnode, .. } => Some(
                varnode.in_space(self.register_space),
            ),
            PrototypeOperand::StackRelative(offset) => {
                let addr = stack_base.after(*offset);
                Some(Var::new(self.global_space, addr.offset, self.address_bits, 0))
            },
            _ => None,
        }
    }

    pub fn resolve_register(&self, operand: &PrototypeOperand) -> (var: Option<Var>)
        requires
            operand.fits(),
        ensures
            var == operand.register_in(self.register_space),
    {
        if let PrototypeOperand::Register { varnode, .. } = operand {
            Some(varnode.in_space(self.register_space))
        } else {
            None
        }
    }

    pub fn resolve_return(&self, stack_base: Address) -> (var: Var)
        requires
            self.return_.fits(),
        ensures
            var == self.resolved_return(stack_base),
    {
        match self.return_ {
            ReturnAddress::Register { varnode, .. } => varnode.in_space(self.register_space),
            ReturnAddress::StackRelative { offset, .. } => {
                let addr = stack_base.after(offset);
                Var::new(self.global_space, addr.offset, self.address_bits, 0)
            },
        }
    }

    /// The operand that stands for a place.
    fn operand(&self, operand: &PrototypeOperand) -> (found: Option<Operand>)
        requires
            operand.fits(),
        ensures
            found == self.operand_of(*operand),
    {
        match operand {
            PrototypeOperand::Register { varnode, .. } => Some(
                Operand::Register(varnode.in_space(self.register_space)),
            ),
            PrototypeOperand::StackRelative(offset) => Some(
                Operand::Stack(*offset as i64, self.address_bytes()),
            ),
            _ => None,
        }
    }

    pub fn address_bytes(&self) -> (bytes: usize)
        ensures
            bytes == self.address_bits as int / 8,
    {
        self.address_bits as usize / 8
    }

    pub fn address_bits(&self) -> (bits: u32)
        ensures
            bits == self.address_bits,
    {
        self.address_bits
    }
}

/// The places for values of one kind, in order.
pub open spec fn entries_with(entries: Seq<PrototypeEntry>, meta: Option<Seq<char>>) -> Seq<
    PrototypeOperand,
>
    decreases entries.len(),
{
    if entries.len() == 0 {
        Seq::empty()
    } else {
        let before = entries_with(entries.drop_last(), meta);
        if optional_text(entries.last().meta_type) == meta {
            before.push(entries.last().operand)
        } else {
            before
        }
    }
}

/// The item at a place of a sequence, if it has so many.
pub open spec fn item_at<T>(items: Seq<T>, index: int) -> Option<T> {
    if index < items.len() {
        Some(items[index])
    } else {
        None
    }
}

/// The variables of the registers among some places, in order.
pub open spec fn registers_of(operands: Seq<PrototypeOperand>, space: AddressSpaceId) -> Seq<Var>
    decreases operands.len(),
{
    if operands.len() == 0 {
        Seq::empty()
    } else {
        let before = registers_of(operands.drop_last(), space);
        match operands.last().register_in(space) {
            Some(var) => before.push(var),
            None => before,
        }
    }
}

/// The places of some entries, in order.
pub open spec fn operands_of(entries: Seq<PrototypeEntry>) -> Seq<PrototypeOperand> {
    Seq::new(entries.len(), |i: int| entries[i].operand)
}

/// Whether the registers among some places have sizes that fit in bits.
pub open spec fn operands_fit(operands: Seq<PrototypeOperand>) -> bool {
    forall|i: int| 0 <= i < operands.len() ==> (#[trigger] operands[i]).fits()
}

/// More entries leave the places of those before them where they are.
proof fn lemma_entries_with_prefix(
    entries: Seq<PrototypeEntry>,
    meta: Option<Seq<char>>,
    count: int,
)
    requires
        0 <= count <= entries.len(),
    ensures
        entries_with(entries.take(count), meta).len() <= entries_with(entries, meta).len(),
        entries_with(entries, meta).take(
            entries_with(entries.take(count), meta).len() as int,
        ) == entries_with(entries.take(count), meta),
    decreases entries.len(),
{
    if count == entries.len() {
        assert(entries.take(count) =~= entries);
    } else {
        lemma_entries_with_prefix(entries.drop_last(), meta, count);
        assert(entries.drop_last().take(count) =~= entries.take(count));
    }
}

/// Whether two optional strings are the same.
fn same_text(a: &Option<String>, b: &Option<String>) -> (same: bool)
    ensures
        same == (optional_text(*a) == optional_text(*b)),
{
    match (a, b) {
        (Some(s), Some(t)) => *s == *t,
        (None, None) => true,
        _ => false,
    }
}

/// The place for a value of one kind, counted among those of its kind.
fn nth_with<'a>(
    entries: &'a Vec<PrototypeEntry>,
    index: usize,
    meta: &Option<String>,
) -> (operand: Option<&'a PrototypeOperand>)
    ensures
        match operand {
            Some(o) => item_at(entries_with(entries@, optional_text(*meta)), index as int) == Some(
                *o,
            ),
            None => item_at(entries_with(entries@, optional_text(*meta)), index as int) is None,
        },
{
    let ghost text = optional_text(*meta);
    let mut left: usize = index;
    let mut i: usize = 0;
    while i < entries.len()
        invariant
            i <= entries@.len(),
            left <= index,
            text == optional_text(*meta),
            entries_with(entries@.take(i as int), text).len() == index - left,
        decreases entries@.len() - i,
    {
        proof {
            assert(entries@.take(i + 1).drop_last() =~= entries@.take(i as int));
            lemma_entries_with_prefix(entries@, text, i + 1);
        }
        if same_text(&entries[i].meta_type, meta) {
            if left == 0 {
                assert(entries_with(entries@, text)[index as int] == entries_with(
                    entries@.take(i + 1),
                    text,
                )[index as int]) by {
                    assert(entries_with(entries@, text).take(index + 1)[index as int]
                        == entries_with(entries@, text)[index as int]);
                }
                return Some(&entries[i].operand);
            }
            left = left - 1;
        }
        i = i + 1;
    }
    assert(entries@.take(i as int) =~= entries@);
    None
}

/// The variables of the registers among some places.
fn registers_among(resolver: &PrototypeResolver, operands: &Vec<PrototypeOperand>) -> (vars: Vec<
    Var,
>)
    requires
        operands_fit(operands@),
    ensures
        vars@ == registers_of(operands@, resolver.register_space),
{
    let mut vars: Vec<Var> = Vec::new();
    let mut i: usize = 0;
    while i < operands.len()
        invariant
            i <= operands@.len(),
            operands_fit(operands@),
            vars@ == registers_of(operands@.take(i as int), resolver.register_space),
        decreases operands@.len() - i,
    {
        assert(operands@.take(i + 1).drop_last() =~= operands@.take(i as int));
        if let Some(var) = resolver.resolve_register(&operands[i]) {
            vars.push(var);
        }
        i = i + 1;
    }
    assert(operands@.take(i as int) =~= operands@);
    vars
}

/// What a call passes, keeps and overwrites, with what turns its places into
/// variables.
#[derive(Debug)]
pub struct DefaultPrototype {
    pub inputs: Arc<Vec<PrototypeEntry>>,
    pub outputs: Arc<Vec<PrototypeEntry>>,
    pub killed_by_call: Arc<Vec<PrototypeOperand>>,
    pub likely_trashed: Arc<Vec<PrototypeOperand>>,
    pub unaffected: Arc<Vec<PrototypeOperand>>,
    pub extra_pop: u64,
    pub resolver: PrototypeResolver,
}

impl Clone for DefaultPrototype {
    fn clone(&self) -> (copy: Self)
        ensures
            copy == *self,
    {
        DefaultPrototype {
            inputs: share(&self.inputs),
            outputs: share(&self.outputs),
            killed_by_call: share(&self.killed_by_call),
            likely_trashed: share(&self.likely_trashed),
            unaffected: share(&self.unaffected),
            extra_pop: self.extra_pop,
            resolver: self.resolver,
        }
    }
}

/// Whether the place, if there is one, has a size that fits in bits.
pub open spec fn place_fits(place: Option<PrototypeOperand>) -> bool {
    place matches Some(operand) ==> operand.fits()
}

impl DefaultPrototype {
    /// The place of an argument, counted among those of its kind.
    pub open spec fn input_at(self, index: usize, meta: Option<Seq<char>>) -> Option<
        PrototypeOperand,
    > {
        item_at(entries_with(self.inputs@, meta), index as int)
    }

    /// The place of a result, counted among those of its kind.
    pub open spec fn output_at(self, index: usize, meta: Option<Seq<char>>) -> Option<
        PrototypeOperand,
    > {
        item_at(entries_with(self.outputs@, meta), index as int)
    }

    /// The operand at a place.
    pub open spec fn operand_at(self, place: Option<PrototypeOperand>) -> Option<Operand> {
        match place {
            Some(operand) => self.resolver.operand_of(operand),
            None => None,
        }
    }

    /// The variable at a place.
    pub open spec fn var_at(self, place: Option<PrototypeOperand>, stack_base: Address) -> Option<
        Var,
    > {
        match place {
            Some(operand) => self.resolver.resolved(operand, stack_base),
            None => None,
        }
    }

    pub fn input_operand(&self, index: usize) -> (operand: Option<Operand>)
        requires
            place_fits(self.input_at(index, None)),
        ensures
            operand == self.operand_at(self.input_at(index, None)),
    {
        self.input_operand_with(index, None)
    }

    pub fn input_operand_with(&self, index: usize, meta: Option<String>) -> (operand: Option<
        Operand,
    >)
        requires
            place_fits(self.input_at(index, optional_text(meta))),
        ensures
            operand == self.operand_at(self.input_at(index, optional_text(meta))),
    {
        match self.input_with(index, meta) {
            Some(place) => self.resolver.operand(place),
            None => None,
        }
    }

    pub fn output_operand(&self, index: usize) -> (operand: Option<Operand>)
        requires
            place_fits(self.output_at(index, None)),
        ensures
            operand == self.operand_at(self.output_at(index, None)),
    {
        self.output_operand_with(index, None)
    }

    pub fn output_operand_with(&self, index: usize, meta: Option<String>) -> (operand: Option<
        Operand,
    >)
        requires
            place_fits(self.output_at(index, optional_text(meta))),
        ensures
            operand == self.operand_at(self.output_at(index, optional_text(meta))),
    {
        match self.output_with(index, meta) {
            Some(place) => self.resolver.operand(place),
            None => None,
        }
    }

    pub fn input_with(&self, index: usize, meta: Option<String>) -> (place: Option<
        &PrototypeOperand,
    >)
        ensures
            match place {
                Some(p) => self.input_at(index, optional_text(meta)) == Some(*p),
                None => self.input_at(index, optional_text(meta)) is None,
            },
    {
        nth_with(&self.inputs, index, &meta)
    }

    pub fn input(&self, index: usize) -> (place: Option<&PrototypeOperand>)
        ensures
            match place {
                Some(p) => self.input_at(index, None) == Some(*p),
                None => self.input_at(index, None) is None,
            },
    {
        self.input_with(index, None)
    }

    pub fn resolved_input_with(
        &self,
        index: usize,
        meta: Option<String>,
        stack_base: Address,
    ) -> (var: Option<Var>)
        requires
            place_fits(self.input_at(index, optional_text(meta))),
        ensures
            var == self.var_at(self.input_at(index, optional_text(meta)), stack_base),
    {
        match self.input_with(index, meta) {
            Some(place) => self.resolver.resolve(place, stack_base),
            None => None,
        }
    }

    pub fn resolved_input(&self, index: usize, stack_base: Address) -> (var: Option<Var>)
        requires
            place_fits(self.input_at(index, None)),
        ensures
            var == self.var_at(self.input_at(index, None), stack_base),
    {
        self.resolved_input_with(index, None, stack_base)
    }

    pub fn output_with(&self, index: usize, meta: Option<String>) -> (place: Option<
        &PrototypeOperand,
    >)
        ensures
            match place {
                Some(p) => self.output_at(index, optional_text(meta)) == Some(*p),
                None => self.output_at(index, optional_text(meta)) is None,
            },
    {
        nth_with(&self.outputs, index, &meta)
    }

    pub fn output(&self, index: usize) -> (place: Option<&PrototypeOperand>)
        ensures
            match place {
                Some(p) => self.output_at(index, None) == Some(*p),
                None => self.output_at(index, None) is None,
            },
    {
        self.output_with(index, None)
    }

    pub fn resolved_output_with(
        &self,
        index: usize,
        meta: Option<String>,
        stack_base: Address,
    ) -> (var: Option<Var>)
        requires
            place_fits(self.output_at(index, optional_text(meta))),
        ensures
            var == self.var_at(self.output_at(index, optional_text(meta)), stack_base),
    {
        match self.output_with(index, meta) {
            Some(place) => self.resolver.resolve(place, stack_base),
            None => None,
        }
    }

    pub fn resolved_output(&self, index: usize, stack_base: Address) -> (var: Option<Var>)
        requires
            place_fits(self.output_at(index, None)),
        ensures
            var == self.var_at(self.output_at(index, None), stack_base),
    {
        self.resolved_output_with(index, None, stack_base)
    }

    /// The registers of the results.
    pub fn output_registers(&self) -> (vars: Vec<Var>)
        requires
            operands_fit(operands_of(self.outputs@)),
        ensures
            vars@ == registers_of(operands_of(self.outputs@), self.resolver.register_space),
    {
        let mut operands: Vec<PrototypeOperand> = Vec::new();
        let mut i: usize = 0;
        while i < self.outputs.len()
            invariant
                i <= self.outputs@.len(),
                operands@ == operands_of(self.outputs@).take(i as int),
            decreases self.outputs@.len() - i,
        {
            operands.push(self.outputs[i].operand);
            i = i + 1;
        }
        assert(operands@ =~= operands_of(self.outputs@));
        registers_among(&self.resolver, &operands)
    }

    /// The registers that a call may overwrite.
    pub fn likely_killed_registers(&self) -> (vars: Vec<Var>)
        requires
            operands_fit(self.likely_trashed@),
        ensures
            vars@ == registers_of(self.likely_trashed@, self.resolver.register_space),
    {
        registers_among(&self.resolver, &self.likely_trashed)
    }

    /// The registers that a call overwrites.
    pub fn killed_registers(&self) -> (vars: Vec<Var>)
        requires
            operands_fit(self.killed_by_call@),
        ensures
            vars@ == registers_of(self.killed_by_call@, self.resolver.register_space),
    {
        registers_among(&self.resolver, &self.killed_by_call)
    }

    /// The registers that a call keeps.
    pub fn unaffected_registers(&self) -> (vars: Vec<Var>)
        requires
            operands_fit(self.unaffected@),
        ensures
            vars@ == registers_of(self.unaffected@, self.resolver.register_space),
    {
        registers_among(&self.resolver, &self.unaffected)
    }

    pub fn extra_pop(&self) -> (bytes: u64)
        ensures
            bytes == self.extra_pop,
    {
        self.extra_pop
    }

    pub fn address_bytes(&self) -> (bytes: usize)
        ensures
            bytes == self.resolver.address_bits as int / 8,
    {
        self.resolver.address_bytes()
    }

    pub fn address_bits(&self) -> (bits: u32)
        ensures
            bits == self.resolver.address_bits,
    {
        self.resolver.address_bits()
    }

    pub fn resolver(&self) -> (resolver: &PrototypeResolver)
        ensures
            *resolver == self.resolver,
    {
        &self.resolver
    }

    pub fn into_resolver(self) -> (resolver: PrototypeResolver)
        ensures
            resolver == self.resolver,
    {
        self.resolver
    }
}

} // verus!
