//! The lifter: a processor with a calling convention.

use crate::cio::info::{bits_fit, bits_of, has_bits};
use crate::ir::address::{offset_after, Address};
use crate::ir::space::{AddressSpace, AddressSpaceId, AddressValue};
use crate::ir::term::{make_mut, share};
use crate::ir::var::{Var, VarView};
use crate::lifter::convention::{CallFixup, Convention, PrototypeOperand};
use crate::lifter::prototype::{DefaultPrototype, PrototypeResolver};
use crate::lifter::translator::{FloatKind, Translator, TranslatorExt};
use crate::names::name_text;
use ahash::AHashMap;
use std::sync::Arc;
use ustr::{Ustr, UstrMap};
use vstd::prelude::*;

verus! {

/// The order of the bytes of a word.
#[derive(Clone, Copy, Debug, PartialEq, Eq, Structural)]
pub enum Endian {
    Big,
    Little,
}

/// The float formats by their sizes in bits.
pub uninterp spec fn float_entries(kinds: AHashMap<u32, FloatKind>) -> Map<u32, FloatKind>;

/// Calls `AHashMap::new`. Claims that the map is empty.
#[verifier::external_body]
fn new_floats() -> (kinds: AHashMap<u32, FloatKind>)
    ensures
        float_entries(kinds).is_empty(),
{
    AHashMap::new()
}

/// Calls `AHashMap::insert`. Claims that the key has
/// the new value then, and that the others stay.
#[verifier::external_body]
fn float_insert(kinds: &mut AHashMap<u32, FloatKind>, bits: u32, kind: FloatKind)
    ensures
        float_entries(*final(kinds)) == float_entries(*old(kinds)).insert(bits, kind),
{
    kinds.insert(bits, kind);
}

/// Calls `AHashMap::get`. Claims that the result is the value under the key.
#[verifier::external_body]
fn float_get(kinds: &AHashMap<u32, FloatKind>, bits: u32) -> (kind: Option<&FloatKind>)
    ensures
        match kind {
            Some(k) => float_entries(*kinds).get(bits) == Some(*k),
            None => float_entries(*kinds).get(bits) is None,
        },
{
    kinds.get(&bits)
}

/// Calls `AHashMap::clone`. Claims that the copy holds the same: a value is
/// copied as it is.
#[verifier::external_body]
fn copy_floats(kinds: &AHashMap<u32, FloatKind>) -> (copy: AHashMap<u32, FloatKind>)
    ensures
        float_entries(copy) == float_entries(*kinds),
{
    kinds.clone()
}

/// The places of call fixups by the names of the functions they are for.
pub uninterp spec fn fixup_entries(fixups: UstrMap<usize>) -> Map<Seq<char>, usize>;

/// Calls `UstrMap::default`. Claims that the table is empty.
#[verifier::external_body]
fn new_fixups() -> (fixups: UstrMap<usize>)
    ensures
        fixup_entries(fixups).is_empty(),
{
    UstrMap::default()
}

/// Calls `UstrMap::insert`. Claims that the name has the new entry then, and
/// that the others stay.
#[verifier::external_body]
fn fixup_insert(fixups: &mut UstrMap<usize>, name: Ustr, index: usize)
    ensures
        fixup_entries(*final(fixups)) == fixup_entries(*old(fixups)).insert(name_text(name), index),
{
    fixups.insert(name, index);
}

/// Calls `UstrMap::get` with the handle that `Ustr::from_existing` finds for
/// the name. Claims that the result is the entry under the name. There is none
/// where the name has no handle yet, since a key of the table is a handle.
#[verifier::external_body]
fn fixup_get(fixups: &UstrMap<usize>, name: &str) -> (index: Option<usize>)
    ensures
        index == fixup_entries(*fixups).get(name@),
{
    fixups.get(&Ustr::from_existing(name)?).copied()
}

/// Calls `UstrMap::clone`. Claims that the copy holds the same: a value is
/// copied as it is.
#[verifier::external_body]
fn copy_fixups(fixups: &UstrMap<usize>) -> (copy: UstrMap<usize>)
    ensures
        fixup_entries(copy) == fixup_entries(*fixups),
{
    fixups.clone()
}

/// The float formats of a list by their sizes in bits, cut to 32 bits. The last
/// of a size stays.
pub open spec fn floats_by_size(formats: Seq<(usize, FloatKind)>) -> Map<u32, FloatKind>
    decreases formats.len(),
{
    if formats.len() == 0 {
        Map::empty()
    } else {
        floats_by_size(formats.drop_last()).insert(formats.last().0 as u32, formats.last().1)
    }
}

/// The names of functions with a call fixup, and the place of the last that is
/// for them.
pub open spec fn fixups_by_name(fixups: Seq<CallFixup>) -> Map<Seq<char>, usize>
    decreases fixups.len(),
{
    if fixups.len() == 0 {
        Map::empty()
    } else {
        with_targets(
            fixups_by_name(fixups.drop_last()),
            fixups.last().targets@,
            (fixups.len() - 1) as usize,
        )
    }
}

/// A table after each of some names got an entry.
pub open spec fn with_targets(
    table: Map<Seq<char>, usize>,
    targets: Seq<Ustr>,
    index: usize,
) -> Map<Seq<char>, usize>
    decreases targets.len(),
{
    if targets.len() == 0 {
        table
    } else {
        with_targets(table, targets.drop_last(), index).insert(name_text(targets.last()), index)
    }
}

/// A processor with a calling convention.
#[derive(Debug)]
pub struct Lifter {
    translator: Arc<Translator>,
    convention: Arc<Convention>,
    register_space: AddressSpaceId,
    register_map: Arc<VarView>,
    float_kinds: AHashMap<u32, FloatKind>,
    global_space: AddressSpaceId,
    temporary_space: AddressSpaceId,
    program_counter: Var,
    stack_pointer: Var,
    frame_pointer: Option<Var>,
    call_fixups: UstrMap<usize>,
}

/// What a [`Lifter`] holds.
#[verifier::ext_equal]
pub struct LifterModel {
    pub translator: Translator,
    pub convention: Convention,
    pub register_space: AddressSpaceId,
    pub register_map: VarView,
    pub float_kinds: Map<u32, FloatKind>,
    pub global_space: AddressSpaceId,
    pub temporary_space: AddressSpaceId,
    pub program_counter: Var,
    pub stack_pointer: Var,
    pub frame_pointer: Option<Var>,
    pub call_fixups: Map<Seq<char>, usize>,
}

impl LifterModel {
    /// Whether a lifter can be made: the spaces are known, and the sizes of the
    /// program counter and the stack pointer fit in bits.
    pub open spec fn buildable(translator: Translator, convention: Convention) -> bool {
        &&& translator.manager.wf()
        &&& bits_fit(translator.program_counter.size)
        &&& bits_fit(convention.stack_pointer.size)
    }

    /// The lifter of a translator and a convention.
    pub open spec fn built(
        translator: Translator,
        convention: Convention,
        frame_pointer: Option<Var>,
    ) -> LifterModel {
        let manager = translator.manager;
        let registers = manager.spaces@[manager.register_space as int].id;
        LifterModel {
            translator,
            convention,
            register_space: registers,
            register_map: VarView { space: registers },
            float_kinds: floats_by_size(translator.float_formats@),
            global_space: manager.spaces@[manager.default_space as int].id,
            temporary_space: manager.spaces@[manager.unique_space as int].id,
            program_counter: translator.program_counter.var_in(registers),
            stack_pointer: convention.stack_pointer.var_in(registers),
            frame_pointer,
            call_fixups: fixups_by_name(convention.call_fixups@),
        }
    }

    /// What turns the convention's places into variables.
    pub open spec fn resolver(self) -> PrototypeResolver {
        PrototypeResolver {
            address_bits: self.program_counter.bits,
            global_space: self.global_space,
            register_space: self.register_space,
            return_: self.convention.return_address,
        }
    }

    /// The call fixup for a function.
    pub open spec fn fixup_for(self, text: Seq<char>) -> Option<CallFixup> {
        match self.call_fixups.get(text) {
            Some(index) => if index < self.convention.call_fixups@.len() {
                Some(self.convention.call_fixups@[index as int])
            } else {
                None
            },
            None => None,
        }
    }

    /// The space that an identifier stands for.
    pub open spec fn space(self, id: AddressSpaceId) -> AddressSpace {
        self.translator.manager.space_of(id)
    }

    /// Whether an identifier stands for a space.
    pub open spec fn has_space(self, id: AddressSpaceId) -> bool {
        self.translator.manager.has_space(id)
    }

    /// The variable of a place of the convention. Places on the stack have the
    /// size of an address of the memory space.
    pub open spec fn var_of(self, operand: PrototypeOperand, stack_base: Address) -> Option<Var> {
        match operand {
            PrototypeOperand::StackRelative(offset) => Some(
                Var {
                    space: self.space(self.global_space).id,
                    offset: offset_after(stack_base.offset, offset as int),
                    bits: bits_of(self.space(self.global_space).address_size),
                    generation: 0,
                },
            ),
            _ => operand.register_in(self.space(self.register_space).id),
        }
    }

    /// Whether the variable of a place can be asked for.
    pub open spec fn var_fits(self, operand: PrototypeOperand) -> bool {
        match operand {
            PrototypeOperand::Register { .. } => operand.fits() && self.has_space(
                self.register_space,
            ),
            PrototypeOperand::StackRelative(_) => self.has_space(self.global_space) && bits_fit(
                self.space(self.global_space).address_size,
            ),
            _ => true,
        }
    }
}

impl View for Lifter {
    type V = LifterModel;

    closed spec fn view(&self) -> LifterModel {
        LifterModel {
            translator: *self.translator,
            convention: *self.convention,
            register_space: self.register_space,
            register_map: *self.register_map,
            float_kinds: float_entries(self.float_kinds),
            global_space: self.global_space,
            temporary_space: self.temporary_space,
            program_counter: self.program_counter,
            stack_pointer: self.stack_pointer,
            frame_pointer: self.frame_pointer,
            call_fixups: fixup_entries(self.call_fixups),
        }
    }
}

impl Clone for Lifter {
    fn clone(&self) -> (lifter: Self)
        ensures
            lifter@ == self@,
    {
        Lifter {
            translator: share(&self.translator),
            convention: share(&self.convention),
            register_space: self.register_space,
            register_map: share(&self.register_map),
            float_kinds: copy_floats(&self.float_kinds),
            global_space: self.global_space,
            temporary_space: self.temporary_space,
            program_counter: self.program_counter,
            stack_pointer: self.stack_pointer,
            frame_pointer: self.frame_pointer,
            call_fixups: copy_fixups(&self.call_fixups),
        }
    }
}

/// The float formats of a list by their sizes.
fn collect_floats(formats: &Vec<(usize, FloatKind)>) -> (kinds: AHashMap<u32, FloatKind>)
    ensures
        float_entries(kinds) == floats_by_size(formats@),
{
    let mut kinds = new_floats();
    let mut i: usize = 0;
    assert(float_entries(kinds) =~= floats_by_size(formats@.take(0)));
    while i < formats.len()
        invariant
            i <= formats@.len(),
            float_entries(kinds) == floats_by_size(formats@.take(i as int)),
        decreases formats@.len() - i,
    {
        assert(formats@.take(i + 1).drop_last() =~= formats@.take(i as int));
        float_insert(&mut kinds, formats[i].0 as u32, formats[i].1);
        i = i + 1;
    }
    assert(formats@.take(i as int) =~= formats@);
    kinds
}

/// The places of the call fixups of a list by the names they are for.
fn collect_fixups(fixups: &Vec<CallFixup>) -> (table: UstrMap<usize>)
    ensures
        fixup_entries(table) == fixups_by_name(fixups@),
{
    let mut table = new_fixups();
    let mut i: usize = 0;
    assert(fixup_entries(table) =~= fixups_by_name(fixups@.take(0)));
    while i < fixups.len()
        invariant
            i <= fixups@.len(),
            fixup_entries(table) == fixups_by_name(fixups@.take(i as int)),
        decreases fixups@.len() - i,
    {
        let targets = &fixups[i].targets;
        let ghost before = fixup_entries(table);
        assert(fixups@.take(i + 1).drop_last() =~= fixups@.take(i as int));
        let mut j: usize = 0;
        while j < targets.len()
            invariant
                j <= targets@.len(),
                fixup_entries(table) == with_targets(before, targets@.take(j as int), i),
            decreases targets@.len() - j,
        {
            assert(targets@.take(j + 1).drop_last() =~= targets@.take(j as int));
            fixup_insert(&mut table, targets[j], i);
            j = j + 1;
        }
        assert(targets@.take(j as int) =~= targets@);
        i = i + 1;
    }
    assert(fixups@.take(i as int) =~= fixups@);
    table
}

impl Lifter {
    /// Whether a lifter can be made: the spaces are known, and the sizes of the
    /// program counter and the stack pointer fit in bits.
    pub fn can_build(translator: &Translator, convention: &Convention) -> (can: bool)
        ensures
            can == LifterModel::buildable(*translator, *convention),
    {
        let manager = &translator.manager;
        manager.default_space < manager.spaces.len() && manager.register_space
            < manager.spaces.len() && manager.unique_space < manager.spaces.len() && has_bits(
            translator.program_counter.size,
        ) && has_bits(convention.stack_pointer.size)
    }

    /// A lifter for a processor without a frame pointer.
    pub fn new(translator: Arc<Translator>, convention: Arc<Convention>) -> (lifter: Self)
        requires
            LifterModel::buildable(*translator, *convention),
        ensures
            lifter@ == LifterModel::built(*translator, *convention, None),
    {
        Lifter::new_with(translator, convention, None)
    }

    /// A lifter for a processor whose frame pointer is given.
    pub fn new_with(
        translator: Arc<Translator>,
        convention: Arc<Convention>,
        frame_pointer: Option<Var>,
    ) -> (lifter: Self)
        requires
            LifterModel::buildable(*translator, *convention),
        ensures
            lifter@ == LifterModel::built(*translator, *convention, frame_pointer),
    {
        let register_map = VarView::registers(&translator.manager);
        let register_space = register_map.space();
        let global_space = translator.manager.default_space().id;
        let temporary_space = translator.manager.unique_space().id;
        let program_counter = translator.program_counter.in_space(register_space);
        let stack_pointer = convention.stack_pointer.in_space(register_space);
        let float_kinds = collect_floats(&translator.float_formats);
        let call_fixups = collect_fixups(&convention.call_fixups);
        Lifter {
            translator,
            convention,
            register_space,
            register_map: Arc::new(register_map),
            float_kinds,
            global_space,
            temporary_space,
            program_counter,
            stack_pointer,
            frame_pointer,
            call_fixups,
        }
    }

    pub fn endian(&self) -> (endian: Endian)
        ensures
            endian == if self@.translator.big_endian {
                Endian::Big
            } else {
                Endian::Little
            },
    {
        if self.translator.big_endian {
            Endian::Big
        } else {
            Endian::Little
        }
    }

    pub fn program_counter(&self) -> (var: Var)
        ensures
            var == self@.program_counter,
    {
        self.program_counter
    }

    pub fn stack_pointer(&self) -> (var: Var)
        ensures
            var == self@.stack_pointer,
    {
        self.stack_pointer
    }

    pub fn frame_pointer(&self) -> (var: Option<Var>)
        ensures
            var == self@.frame_pointer,
    {
        self.frame_pointer
    }

    pub fn address_bits(&self) -> (bits: u32)
        ensures
            bits == self@.program_counter.bits,
    {
        self.program_counter.nbits()
    }

    pub fn address_bytes(&self) -> (bytes: usize)
        ensures
            bytes == self@.program_counter.bits as int / 8,
    {
        self.program_counter.nbits() as usize / 8
    }

    /// The address in the memory space.
    pub fn address_value(&self, address: Address) -> (value: AddressValue)
        requires
            self@.translator.manager.wf(),
            self@.translator.manager.spaces@[self@.translator.manager.default_space as int].holds(
                address.offset,
            ),
        ensures
            value
                == self@.translator.manager.spaces@[self@.translator.manager.default_space as int].value_at(
            address.offset),
    {
        self.translator.manager.default_space().address(address.offset)
    }

    pub fn float_kind(&self, bits: u32) -> (kind: Option<&FloatKind>)
        ensures
            match kind {
                Some(k) => self@.float_kinds.get(bits) == Some(*k),
                None => self@.float_kinds.get(bits) is None,
            },
    {
        float_get(&self.float_kinds, bits)
    }

    pub fn float_kinds(&self) -> (kinds: &AHashMap<u32, FloatKind>)
        ensures
            float_entries(*kinds) == self@.float_kinds,
    {
        &self.float_kinds
    }

    /// What takes the place of calls of a function.
    pub fn call_fixup_for(&self, nm: &str) -> (fixup: Option<&CallFixup>)
        ensures
            match fixup {
                Some(f) => self@.fixup_for(nm@) == Some(*f),
                None => self@.fixup_for(nm@) is None,
            },
    {
        match fixup_get(&self.call_fixups, nm) {
            Some(index) => if index < self.convention.call_fixups.len() {
                Some(&self.convention.call_fixups[index])
            } else {
                None
            },
            None => None,
        }
    }

    pub fn convention(&self) -> (convention: &Convention)
        ensures
            *convention == self@.convention,
    {
        &self.convention
    }

    /// The convention's default prototype.
    pub fn default_prototype(&self) -> (prototype: DefaultPrototype)
        ensures
            prototype.inputs@ == self@.convention.default_prototype.inputs@,
            prototype.outputs@ == self@.convention.default_prototype.outputs@,
            prototype.unaffected@ == self@.convention.default_prototype.unaffected@,
            prototype.killed_by_call@ == self@.convention.default_prototype.killed_by_call@,
            prototype.likely_trashed@ == self@.convention.default_prototype.likely_trashed@,
            prototype.extra_pop == self@.convention.default_prototype.extra_pop,
            prototype.resolver == self@.resolver(),
    {
        let prototype = &self.convention.default_prototype;
        DefaultPrototype {
            inputs: share(&prototype.inputs),
            outputs: share(&prototype.outputs),
            unaffected: share(&prototype.unaffected),
            killed_by_call: share(&prototype.killed_by_call),
            likely_trashed: share(&prototype.likely_trashed),
            extra_pop: prototype.extra_pop,
            resolver: self.prototype_resolver(),
        }
    }

    pub fn prototype_resolver(&self) -> (resolver: PrototypeResolver)
        ensures
            resolver == self@.resolver(),
    {
        PrototypeResolver {
            address_bits: self.address_bits(),
            global_space: self.global_space_id(),
            register_space: self.register_space_id(),
            return_: self.convention.return_address,
        }
    }

    /// The variable of a place of the convention that is a register.
    pub fn prototype_register_var(&self, operand: &PrototypeOperand) -> (var: Option<Var>)
        requires
            *operand is Register ==> self@.var_fits(*operand),
        ensures
            var == operand.register_in(self@.space(self@.register_space).id),
    {
        if let PrototypeOperand::Register { varnode, .. } = operand {
            Some(varnode.in_space(self.register_space().id))
        } else {
            None
        }
    }

    /// The variable of a place of the convention.
    pub fn prototype_var(&self, operand: &PrototypeOperand, stack_base: Address) -> (var: Option<
        Var,
    >)
        requires
            self@.var_fits(*operand),
        ensures
            var == self@.var_of(*operand, stack_base),
    {
        match operand {
            PrototypeOperand::Register { varnode, .. } => Some(
                varnode.in_space(self.register_space().id),
            ),
            PrototypeOperand::StackRelative(offset) => {
                let addr = stack_base.after(*offset);
                let space = self.global_space();
                Some(Var::new(space.id, addr.offset, space.address_size as u32 * 8, 0))
            },
            _ => None,
        }
    }

    pub fn global_space(&self) -> (space: &AddressSpace)
        requires
            self@.has_space(self@.global_space),
        ensures
            *space == self@.space(self@.global_space),
    {
        self.translator.manager.space_by_id(self.global_space)
    }

    pub fn global_space_id(&self) -> (id: AddressSpaceId)
        ensures
            id == self@.global_space,
    {
        self.global_space
    }

    pub fn register_map(&self) -> (map: &Arc<VarView>)
        ensures
            **map == self@.register_map,
    {
        &self.register_map
    }

    pub fn register_space(&self) -> (space: &AddressSpace)
        requires
            self@.has_space(self@.register_space),
        ensures
            *space == self@.space(self@.register_space),
    {
        self.translator.manager.space_by_id(self.register_space)
    }

    pub fn register_space_id(&self) -> (id: AddressSpaceId)
        ensures
            id == self@.register_space,
    {
        self.register_space
    }

    /// The variable of the register of a name.
    pub fn register_var(&self, name: &str) -> (var: Option<Var>)
        requires
            self@.translator.named_var_fits(name@),
        ensures
            var == self@.translator.named_var(name@),
    {
        self.translator.register_var(name)
    }

    pub fn temporary_space(&self) -> (space: &AddressSpace)
        requires
            self@.has_space(self@.temporary_space),
        ensures
            *space == self@.space(self@.temporary_space),
    {
        self.translator.manager.space_by_id(self.temporary_space)
    }

    pub fn temporary_space_id(&self) -> (id: AddressSpaceId)
        ensures
            id == self@.temporary_space,
    {
        self.temporary_space
    }

    pub fn translator(&self) -> (translator: &Translator)
        ensures
            *translator == self@.translator,
    {
        &self.translator
    }

    pub fn translator_ref(&self) -> (translator: Arc<Translator>)
        ensures
            *translator == self@.translator,
    {
        share(&self.translator)
    }

    /// The translator, to be changed: a copy of its own where it is shared.
    /// What was read of it before stays.
    pub fn translator_mut(&mut self) -> (translator: &mut Translator)
        ensures
            translator.same_as(old(self)@.translator),
            final(self)@ == (LifterModel { translator: *final(translator), ..old(self)@ }),
    {
        make_mut(&mut self.translator)
    }
}

} // verus!
