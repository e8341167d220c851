//! What holds of the variables, places and names that a lifter hands out.

use crate::cio::info::bits_fit;
use crate::ir::address::Address;
use crate::ir::laws::law_address_after;
use crate::ir::space::AddressSpaceId;
use crate::ir::var::Var;
use crate::lifter::builder::{
    cached_places, hyphenated, is_cached, with_replaced, BuildEvent, BuildFacts, BuildStep,
    CacheEntry, LifterBuilderError, TranslatorSource,
};
use crate::lifter::convention::{
    optional_text, Convention, PrototypeEntry, PrototypeOperand, ReturnAddress, VarnodeData,
};
use crate::lifter::laws::{law_built_fixups, law_float_is_last};
use crate::lifter::lift::LifterModel;
use crate::lifter::prototype::{
    entries_with, operands_fit, operands_of, place_fits, registers_of, DefaultPrototype, Operand,
    PrototypeResolver,
};
use crate::lifter::translator::{convention_named, register_named, Translator, TranslatorExt};
use crate::names::name_text;
use crate::search::{first_where, lemma_first_where};
use std::sync::Arc;
use vstd::prelude::*;

verus! {

/// Whether a variable is the one of some bytes in a space: at their offset,
/// with eight bits for each of them, and of the first generation.
pub open spec fn is_var_of(var: Var, varnode: VarnodeData, space: AddressSpaceId) -> bool {
    &&& var.space == space
    &&& var.offset == varnode.offset
    &&& (varnode.size as u32) < 0x2000_0000 ==> var.bits == 8 * (varnode.size as u32)
    &&& var.generation == 0
}

/// The variable of some bytes in a space has their offset, eight bits for each
/// of them, and no generation. So bytes at different offsets have different
/// variables.
pub proof fn law_varnode_var(varnode: VarnodeData, other: VarnodeData, space: AddressSpaceId)
    ensures
        is_var_of(varnode.var_in(space), varnode, space),
        bits_fit(varnode.size) <==> (varnode.size as u32) < 0x2000_0000,
        varnode.offset != other.offset ==> varnode.var_in(space) != other.var_in(space),
{
}

/// A register operand has the variable of its bytes, and no other operand has
/// one. Its size fits exactly if it is a number of 32 bits in bits.
pub proof fn law_register_operand(operand: PrototypeOperand, space: AddressSpaceId)
    ensures
        match operand {
            PrototypeOperand::Register { varnode, .. } => operand.register_in(space) matches Some(
                var,
            ) && is_var_of(var, varnode, space) && (operand.fits() <==> (varnode.size as u32)
                < 0x2000_0000),
            _ => operand.register_in(space) is None && operand.fits(),
        },
        place_fits(Some(operand)) == operand.fits(),
        place_fits(None),
{
}

/// The variable of a register has the space and the offset of the first
/// register of its name, eight bits for each of its bytes, and no generation.
/// There is one exactly if there is a register of the name.
pub proof fn law_named_register(translator: Translator, text: Seq<char>)
    ensures
        translator.var_named(text) == translator.named_var(text),
        match translator.named_var(text) {
            Some(var) => exists|at: int|
                0 <= at < translator.registers@.len() && name_text(
                    (#[trigger] translator.registers@[at]).0,
                ) == text && translator.register(text) == Some(translator.registers@[at].1)
                    && is_var_of(
                    var,
                    translator.registers@[at].1,
                    translator.registers@[at].1.space,
                ) && (forall|i: int|
                    0 <= i < at ==> name_text((#[trigger] translator.registers@[i]).0) != text),
            None => translator.register(text) is None && forall|i: int|
                0 <= i < translator.registers@.len() ==> name_text(
                    (#[trigger] translator.registers@[i]).0,
                ) != text,
        },
        translator.var_fits(text) <==> match translator.register(text) {
            Some(register) => (register.size as u32) < 0x2000_0000,
            None => true,
        },
        translator.named_var_fits(text) == translator.var_fits(text),
{
    let registers = translator.registers@;
    let named = register_named(text);
    lemma_first_where(registers, named);
    let at = first_where(registers, named);
    assert forall|i: int| 0 <= i < at implies name_text((#[trigger] registers[i]).0) != text by {
        assert(!named(registers[i]));
    }
    if at < registers.len() {
        assert(name_text(registers[at].0) == text);
    }
}

/// The convention of a name is the first of that name. There is one exactly if
/// one has the name.
pub proof fn law_named_convention(translator: Translator, text: Seq<char>)
    ensures
        match translator.convention(text) {
            Some(convention) => exists|at: int|
                0 <= at < translator.compiler_conventions@.len() && (
                #[trigger] translator.compiler_conventions@[at]).0@ == text
                    && translator.compiler_conventions@[at].1 == convention && (forall|i: int|
                    0 <= i < at ==> (#[trigger] translator.compiler_conventions@[i]).0@ != text),
            None => forall|i: int|
                0 <= i < translator.compiler_conventions@.len() ==> (
                #[trigger] translator.compiler_conventions@[i]).0@ != text,
        },
{
    let conventions = translator.compiler_conventions@;
    let named = convention_named(text);
    lemma_first_where(conventions, named);
    let at = first_where(conventions, named);
    assert forall|i: int| 0 <= i < at implies (#[trigger] conventions[i]).0@ != text by {
        assert(!named(conventions[i]));
    }
    if at < conventions.len() {
        assert(conventions[at].0@ == text);
    }
}

/// A copy of a translator has each part of it.
pub proof fn law_translator_copied(translator: Translator, copy: Translator, at: int)
    requires
        copy.same_as(translator),
    ensures
        copy.big_endian == translator.big_endian,
        copy.program_counter == translator.program_counter,
        copy.manager.spaces@ == translator.manager.spaces@,
        copy.manager.default_space == translator.manager.default_space,
        copy.manager.register_space == translator.manager.register_space,
        copy.manager.unique_space == translator.manager.unique_space,
        copy.registers@ == translator.registers@,
        copy.float_formats@ == translator.float_formats@,
        copy.compiler_conventions@.len() == translator.compiler_conventions@.len(),
        0 <= at < copy.compiler_conventions@.len() ==> copy.compiler_conventions@[at].0@
            == translator.compiler_conventions@[at].0@ && copy.compiler_conventions@[at].1
            == translator.compiler_conventions@[at].1,
{
}

/// Whether a variable is that of an address in memory, some bytes after
/// another, round the last address if it has to.
pub open spec fn is_memory_var(
    var: Var,
    space: AddressSpaceId,
    base: Address,
    bytes: u64,
    bits: u32,
) -> bool {
    &&& var.space == space
    &&& base.offset + bytes <= u64::MAX ==> var.offset == base.offset + bytes
    &&& base.offset + bytes > u64::MAX ==> var.offset == base.offset + bytes - u64::MAX - 1
    &&& var.bits == bits
    &&& var.generation == 0
}

/// A resolver turns a register into the variable of its bytes in the register
/// space, and a place on the stack into one of an address's width in memory. A
/// value in two registers has no variable.
pub proof fn law_place_resolved(
    resolver: PrototypeResolver,
    operand: PrototypeOperand,
    base: Address,
)
    ensures
        match operand {
            PrototypeOperand::Register { varnode, .. } => resolver.resolved(operand, base) matches
                Some(var) && is_var_of(var, varnode, resolver.register_space),
            PrototypeOperand::StackRelative(offset) => resolver.resolved(operand, base) matches
                Some(var) && is_memory_var(
                var,
                resolver.global_space,
                base,
                offset,
                resolver.address_bits,
            ),
            PrototypeOperand::RegisterJoin { .. } => resolver.resolved(operand, base) is None,
        },
{
    if let PrototypeOperand::StackRelative(offset) = operand {
        law_address_after(base.offset, offset);
    }
}

/// The return address is in its register, or in memory.
pub proof fn law_return_resolved(resolver: PrototypeResolver, base: Address)
    ensures
        match resolver.return_ {
            ReturnAddress::Register { varnode, .. } => is_var_of(
                resolver.resolved_return(base),
                varnode,
                resolver.register_space,
            ) && (resolver.return_.fits() <==> (varnode.size as u32) < 0x2000_0000),
            ReturnAddress::StackRelative { offset, .. } => is_memory_var(
                resolver.resolved_return(base),
                resolver.global_space,
                base,
                offset,
                resolver.address_bits,
            ) && resolver.return_.fits(),
        },
{
    if let ReturnAddress::StackRelative { offset, .. } = resolver.return_ {
        law_address_after(base.offset, offset);
    }
}

/// A register is an operand with its variable, and a place on the stack one with
/// its offset, as a signed number, and the bytes of an address. A value in two
/// registers is none.
pub proof fn law_place_operand(resolver: PrototypeResolver, operand: PrototypeOperand)
    ensures
        match operand {
            PrototypeOperand::Register { varnode, .. } => resolver.operand_of(operand) matches Some(
                Operand::Register(var),
            ) && is_var_of(var, varnode, resolver.register_space),
            PrototypeOperand::StackRelative(offset) => resolver.operand_of(operand) matches Some(
                Operand::Stack(place, bytes),
            ) && place == offset as i64 && 8 * bytes <= resolver.address_bits < 8 * bytes + 8,
            PrototypeOperand::RegisterJoin { .. } => resolver.operand_of(operand) is None,
        },
{
}

/// The entries of a kind.
pub open spec fn of_kind(meta: Option<Seq<char>>) -> spec_fn(PrototypeEntry) -> bool {
    |entry: PrototypeEntry|
        match entry.meta_type {
            Some(text) => meta == Some(text@),
            None => meta is None,
        }
}

proof fn lemma_entries_of_kind(entries: Seq<PrototypeEntry>, meta: Option<Seq<char>>)
    ensures
        entries_with(entries, meta).len() == entries.filter(of_kind(meta)).len(),
        forall|i: int|
            0 <= i < entries_with(entries, meta).len() ==> #[trigger] entries_with(entries, meta)[i]
                == entries.filter(of_kind(meta))[i].operand,
    decreases entries.len(),
{
    reveal(Seq::filter);
    if entries.len() > 0 {
        lemma_entries_of_kind(entries.drop_last(), meta);
        assert(of_kind(meta)(entries.last()) <==> optional_text(entries.last().meta_type) == meta);
    }
}

/// Whether `place` is that of the entry of a kind with so many of its kind
/// before it, or that there are not so many.
pub open spec fn is_nth_place(
    entries: Seq<PrototypeEntry>,
    meta: Option<Seq<char>>,
    index: usize,
    place: Option<PrototypeOperand>,
) -> bool {
    let kept = entries.filter(of_kind(meta));
    match place {
        Some(operand) => index < kept.len() && kept[index as int].operand == operand,
        None => index >= kept.len(),
    }
}

/// Arguments and results are counted among those of their kind, in the order of
/// the convention.
pub proof fn law_places_by_kind(
    prototype: DefaultPrototype,
    index: usize,
    meta: Option<Seq<char>>,
)
    ensures
        is_nth_place(prototype.inputs@, meta, index, prototype.input_at(index, meta)),
        is_nth_place(prototype.outputs@, meta, index, prototype.output_at(index, meta)),
{
    lemma_entries_of_kind(prototype.inputs@, meta);
    lemma_entries_of_kind(prototype.outputs@, meta);
}

/// What is at a place is what its resolver makes of it, and nothing is at none.
pub proof fn law_at_place(prototype: DefaultPrototype, operand: PrototypeOperand, base: Address)
    ensures
        prototype.operand_at(Some(operand)) == prototype.resolver.operand_of(operand),
        prototype.operand_at(None) is None,
        prototype.var_at(Some(operand), base) == prototype.resolver.resolved(operand, base),
        prototype.var_at(None, base) is None,
{
}

/// The operands that are registers.
pub open spec fn is_register() -> spec_fn(PrototypeOperand) -> bool {
    |operand: PrototypeOperand| operand is Register
}

/// The registers among some places are those of the register operands, in their
/// order, and no others.
pub proof fn law_registers_in_order(operands: Seq<PrototypeOperand>, space: AddressSpaceId)
    ensures
        registers_of(operands, space).len() == operands.filter(is_register()).len(),
        forall|i: int|
            0 <= i < registers_of(operands, space).len() ==> operands.filter(is_register())[i]
                is Register && is_var_of(
                #[trigger] registers_of(operands, space)[i],
                operands.filter(is_register())[i]->Register_varnode,
                space,
            ),
    decreases operands.len(),
{
    reveal(Seq::filter);
    if operands.len() > 0 {
        law_registers_in_order(operands.drop_last(), space);
    }
}

/// The places of some entries are theirs, one by one.
pub proof fn law_operands_of_entries(entries: Seq<PrototypeEntry>, at: int)
    ensures
        operands_of(entries).len() == entries.len(),
        0 <= at < entries.len() ==> operands_of(entries)[at] == entries[at].operand,
        operands_fit(operands_of(entries)) <==> forall|i: int|
            0 <= i < entries.len() ==> (#[trigger] entries[i]).operand.fits(),
{
    if operands_fit(operands_of(entries)) {
        assert forall|i: int| 0 <= i < entries.len() implies (
        #[trigger] entries[i]).operand.fits() by {
            assert(operands_of(entries)[i].fits());
        }
    }
}

/// A lifter has what its translator and its convention say: the program
/// counter and the stack pointer as variables of the register space, the spaces
/// of registers, memory and temporaries, and the frame pointer it was given.
pub proof fn law_lifter_is_built(
    translator: Translator,
    convention: Convention,
    frame_pointer: Option<Var>,
)
    ensures
        LifterModel::buildable(translator, convention) <==> translator.manager.wf() && (
        translator.program_counter.size as u32) < 0x2000_0000 && (
        convention.stack_pointer.size as u32) < 0x2000_0000,
        ({
            let lifter = LifterModel::built(translator, convention, frame_pointer);
            let spaces = translator.manager.spaces@;
            let registers = spaces[translator.manager.register_space as int].id;
            &&& lifter.translator == translator
            &&& lifter.convention == convention
            &&& lifter.register_space == registers
            &&& lifter.register_map.space == registers
            &&& lifter.global_space == spaces[translator.manager.default_space as int].id
            &&& lifter.temporary_space == spaces[translator.manager.unique_space as int].id
            &&& is_var_of(lifter.program_counter, translator.program_counter, registers)
            &&& is_var_of(lifter.stack_pointer, convention.stack_pointer, registers)
            &&& lifter.frame_pointer == frame_pointer
        }),
{
}

/// A lifter has the last float format of each size.
pub proof fn law_lifter_floats(
    translator: Translator,
    convention: Convention,
    frame_pointer: Option<Var>,
    bits: u32,
)
    ensures
        ({
            let formats = translator.float_formats@;
            match LifterModel::built(translator, convention, frame_pointer).float_kinds.get(bits) {
                Some(kind) => exists|at: int|
                    0 <= at < formats.len() && (#[trigger] formats[at]).0 as u32 == bits
                        && formats[at].1 == kind && (forall|i: int|
                        at < i < formats.len() ==> (#[trigger] formats[i]).0 as u32 != bits),
                None => forall|i: int|
                    0 <= i < formats.len() ==> (#[trigger] formats[i]).0 as u32 != bits,
            }
        }),
{
    law_float_is_last(translator.float_formats@, bits);
}

/// A lifter has for a function the last call fixup that names it.
pub proof fn law_lifter_fixups(
    translator: Translator,
    convention: Convention,
    frame_pointer: Option<Var>,
    text: Seq<char>,
    at: int,
    target: int,
)
    requires
        0 <= at < convention.call_fixups@.len(),
        0 <= target < convention.call_fixups@[at].targets@.len(),
        name_text(convention.call_fixups@[at].targets@[target]) == text,
        forall|i: int, j: int|
            at < i < convention.call_fixups@.len() && 0 <= j
                < convention.call_fixups@[i].targets@.len() ==> name_text(
                #[trigger] convention.call_fixups@[i].targets@[j],
            ) != text,
    ensures
        LifterModel::built(translator, convention, frame_pointer).fixup_for(text) == Some(
            convention.call_fixups@[at],
        ),
{
    law_built_fixups(translator, convention, frame_pointer, text);
    let fixups = convention.call_fixups@;
    assert(fixups[at].targets_name(text)) by {
        assert(name_text(fixups[at].targets@[target]) == text);
    }
    assert forall|i: int| at < i < fixups.len() implies !(#[trigger] fixups[i]).targets_name(
        text,
    ) by {
        if fixups[i].targets_name(text) {
            let j = choose|j: int|
                0 <= j < fixups[i].targets@.len() && name_text(#[trigger] fixups[i].targets@[j])
                    == text;
            assert(name_text(fixups[i].targets@[j]) != text);
        }
    }
    let found = LifterModel::built(translator, convention, frame_pointer).fixup_for(text);
    if let Some(fixup) = found {
        let last = choose|last: int|
            0 <= last < fixups.len() && #[trigger] fixups[last] == fixup && fixup.targets_name(text)
                && (forall|i: int|
                last < i < fixups.len() ==> !(#[trigger] fixups[i]).targets_name(text));
        assert(last == at);
    }
}

/// A lifter has no call fixup for a function that none of them names.
pub proof fn law_lifter_without_fixup(
    translator: Translator,
    convention: Convention,
    frame_pointer: Option<Var>,
    text: Seq<char>,
)
    requires
        forall|i: int, j: int|
            0 <= i < convention.call_fixups@.len() && 0 <= j
                < convention.call_fixups@[i].targets@.len() ==> name_text(
                #[trigger] convention.call_fixups@[i].targets@[j],
            ) != text,
    ensures
        LifterModel::built(translator, convention, frame_pointer).fixup_for(text) is None,
{
    law_built_fixups(translator, convention, frame_pointer, text);
    let fixups = convention.call_fixups@;
    assert forall|i: int| 0 <= i < fixups.len() implies !(#[trigger] fixups[i]).targets_name(
        text,
    ) by {
        if fixups[i].targets_name(text) {
            let j = choose|j: int|
                0 <= j < fixups[i].targets@.len() && name_text(#[trigger] fixups[i].targets@[j])
                    == text;
            assert(name_text(fixups[i].targets@[j]) != text);
        }
    }
}

/// A lifter's resolver has the width of its program counter, its spaces, and
/// the convention's return address.
pub proof fn law_lifter_resolver(lifter: LifterModel)
    ensures
        lifter.resolver().address_bits == lifter.program_counter.bits,
        lifter.resolver().global_space == lifter.global_space,
        lifter.resolver().register_space == lifter.register_space,
        lifter.resolver().return_ == lifter.convention.return_address,
{
}

/// A lifter turns a register into the variable of its bytes in the register
/// space, and a place on the stack into one of the width of the memory space's
/// addresses. A value in two registers has no variable. The spaces are those
/// that the low halves of their identifiers give.
pub proof fn law_lifter_var(lifter: LifterModel, operand: PrototypeOperand, base: Address)
    ensures
        ({
            let spaces = lifter.translator.manager.spaces@;
            let memory = *spaces[lifter.global_space.bits as int % 0x1_0000];
            let registers = *spaces[lifter.register_space.bits as int % 0x1_0000];
            match operand {
                PrototypeOperand::Register { varnode, .. } => lifter.var_of(operand, base) matches
                    Some(var) && is_var_of(var, varnode, registers.id) && (lifter.var_fits(operand)
                    <==> (varnode.size as u32) < 0x2000_0000 && lifter.register_space.bits as int
                    % 0x1_0000 < spaces.len()),
                PrototypeOperand::StackRelative(offset) => lifter.var_of(operand, base) matches Some(
                    var,
                ) && ((memory.address_size as u32) < 0x2000_0000 ==> is_memory_var(
                    var,
                    memory.id,
                    base,
                    offset,
                    (8 * (memory.address_size as u32)) as u32,
                )) && (lifter.var_fits(operand) <==> (memory.address_size as u32) < 0x2000_0000
                    && lifter.global_space.bits as int % 0x1_0000 < spaces.len()),
                PrototypeOperand::RegisterJoin { .. } => lifter.var_of(operand, base) is None
                    && lifter.var_fits(operand),
            }
        }),
{
    if let PrototypeOperand::StackRelative(offset) = operand {
        law_address_after(base.offset, offset);
    }
}

/// A lifter knows the space of an identifier by the place in its low half.
pub proof fn law_lifter_space(lifter: LifterModel, id: AddressSpaceId)
    ensures
        lifter.has_space(id) <==> id.bits as int % 0x1_0000
            < lifter.translator.manager.spaces@.len(),
        lifter.space(id) == *lifter.translator.manager.spaces@[id.bits as int % 0x1_0000],
{
}

/// A name of a cache file has a hyphen for each colon of the language's
/// identifier, and each other character as it is.
pub proof fn law_cache_name_characters(id: Seq<char>, from: char, to: char, at: int)
    requires
        0 <= at < id.len(),
    ensures
        id[at] == ':' ==> hyphenated(id)[at] == '-',
        id[at] != ':' ==> hyphenated(id)[at] == id[at],
        id[at] == from ==> with_replaced(id, from, to)[at] == to,
        id[at] != from ==> with_replaced(id, from, to)[at] == id[at],
        with_replaced(id, from, to).len() == id.len(),
        hyphenated(id).len() == id.len(),
{
}

/// A language's place is among those to be cached exactly if it has a compiler
/// specification and none before it with one has its path.
pub proof fn law_cached_exactly(entries: Seq<CacheEntry>, at: int)
    requires
        0 <= at < entries.len() <= usize::MAX,
    ensures
        cached_places(entries, entries.len() as int).contains(at as usize) <==> (
        entries[at].compiler_specs > 0 && forall|before: int|
            0 <= before < at && (#[trigger] entries[before]).compiler_specs > 0
                ==> entries[before].path@ != entries[at].path@),
{
    lemma_cached_exactly(entries, entries.len() as int, at);
}

/// The places to be cached come in the order of the languages, each of them
/// once.
pub proof fn law_cached_in_order(entries: Seq<CacheEntry>, count: int, i: int, j: int)
    requires
        0 <= count <= entries.len() <= usize::MAX,
        0 <= i < j < cached_places(entries, count).len(),
    ensures
        cached_places(entries, count)[i] < cached_places(entries, count)[j],
{
    lemma_cached_in_order(entries, count);
}

proof fn lemma_cached_in_order(entries: Seq<CacheEntry>, count: int)
    requires
        0 <= count <= entries.len() <= usize::MAX,
    ensures
        ({
            let places = cached_places(entries, count);
            &&& forall|i: int| 0 <= i < places.len() ==> #[trigger] places[i] < count
            &&& forall|i: int, j: int|
                0 <= i < j < places.len() ==> #[trigger] places[i] < #[trigger] places[j]
        }),
    decreases count,
{
    if count > 0 {
        lemma_cached_in_order(entries, count - 1);
        let before = cached_places(entries, count - 1);
        let places = cached_places(entries, count);
        assert forall|i: int| 0 <= i < places.len() implies #[trigger] places[i] < count by {
            assert(i < before.len() ==> places[i] == before[i]);
        }
        assert forall|i: int, j: int| 0 <= i < j < places.len() implies #[trigger] places[i]
            < #[trigger] places[j] by {
            assert(places[i] == before[i]);
            assert(j < before.len() ==> places[j] == before[j]);
        }
    }
}

proof fn lemma_cached_exactly(entries: Seq<CacheEntry>, count: int, at: int)
    requires
        0 <= at < entries.len() <= usize::MAX,
        0 <= count <= entries.len(),
    ensures
        cached_places(entries, count).contains(at as usize) <==> (at < count && is_cached(
            entries,
            at,
        )),
    decreases count,
{
    let all = cached_places(entries, count);
    if count > 0 {
        let rest = cached_places(entries, count - 1);
        lemma_cached_exactly(entries, count - 1, at);
        if is_cached(entries, count - 1) {
            assert(all =~= rest.push((count - 1) as usize));
            assert(all[all.len() - 1] == count - 1);
            if rest.contains(at as usize) {
                let i = choose|i: int| 0 <= i < rest.len() && rest[i] == at as usize;
                assert(all[i] == at as usize);
            }
            if all.contains(at as usize) && at != count - 1 {
                let i = choose|i: int| 0 <= i < all.len() && all[i] == at as usize;
                assert(rest[i] == at as usize);
            }
        }
    }
}

/// What getting a translator comes to, of steps from the first to the last, with
/// what came of each: `loaded` is the translator that was loaded before, `cache`
/// what reading the cache file gives if it can be opened, with the number of
/// calling conventions, `applied` what setting the context makes of that, and
/// `built` what building gives.
///
/// A translator that was loaded before is taken. Else that of the cache file is,
/// with its context set, if it has a calling convention, and an error of the
/// cache file is the result. Without such a file the translator is built. What
/// was read or built is kept before it is given.
pub proof fn law_build_result<T>(
    steps: Seq<BuildStep<T>>,
    events: Seq<BuildEvent<T>>,
    loaded: Option<Arc<T>>,
    cache: Option<Result<(usize, Arc<T>), LifterBuilderError>>,
    applied: Arc<T>,
    built: Result<Arc<T>, LifterBuilderError>,
    result: Result<(TranslatorSource, Arc<T>), LifterBuilderError>,
)
    requires
        steps.len() == events.len() + 1,
        steps[0] is FindLoaded,
        forall|i: int|
            0 <= i < events.len() ==> steps[i + 1] == (#[trigger] steps[i]).followed_by(events[i]),
        forall|i: int|
            0 <= i < events.len() ==> match #[trigger] steps[i] {
                BuildStep::FindLoaded => events[i] == BuildEvent::Loaded(loaded),
                BuildStep::OpenCache => events[i] == BuildEvent::<T>::Opened(cache is Some),
                BuildStep::ReadCache => events[i] == BuildEvent::Read(cache->0),
                BuildStep::ApplyContext(read) => events[i] == BuildEvent::Applied(applied) && (
                cache matches Some(Ok((_, t))) && read == t),
                BuildStep::Build => events[i] == BuildEvent::Built(built),
                BuildStep::Store(_, _) => events[i] is Stored,
                BuildStep::Done(_) => false,
            },
        steps.last() == BuildStep::Done(result),
    ensures
        match loaded {
            Some(translator) => events.len() == 1 && (result matches Ok((source, given)) && source
                == TranslatorSource::Loaded && given == translator),
            None => match cache {
                Some(Err(error)) => result == Err::<(TranslatorSource, Arc<T>), LifterBuilderError>(
                    error,
                ),
                Some(Ok((conventions, _))) if conventions > 0 => {
                    &&& result matches Ok((source, given)) && source == TranslatorSource::Cached
                        && given == applied
                    &&& steps[steps.len() - 2] == BuildStep::Store(
                        TranslatorSource::Cached,
                        applied,
                    )
                },
                _ => match built {
                    Ok(translator) => {
                        &&& result matches Ok((source, given)) && source == TranslatorSource::Built
                            && given == translator
                        &&& steps[steps.len() - 2] == BuildStep::Store(
                            TranslatorSource::Built,
                            translator,
                        )
                    },
                    Err(error) => result == Err::<
                        (TranslatorSource, Arc<T>),
                        LifterBuilderError,
                    >(error),
                },
            },
        },
        events.len() <= 5,
{
    assert(events.len() >= 1 ==> steps[1] == steps[0].followed_by(events[0]));
    assert(events.len() >= 2 ==> steps[2] == steps[1].followed_by(events[1]));
    assert(events.len() >= 3 ==> steps[3] == steps[2].followed_by(events[2]));
    assert(events.len() >= 4 ==> steps[4] == steps[3].followed_by(events[3]));
    assert(events.len() >= 5 ==> steps[5] == steps[4].followed_by(events[4]));
    assert(events.len() >= 6 ==> steps[5] is Done);
}

/// Of each step comes the event that answers it, and of the last one none. The
/// context is set in the translator that was read from the cache file.
pub proof fn law_build_hands_on<T>(step: BuildStep<T>, event: BuildEvent<T>)
    ensures
        step.yields(event) <==> match step {
            BuildStep::FindLoaded => event is Loaded,
            BuildStep::OpenCache => event is Opened,
            BuildStep::ReadCache => event is Read,
            BuildStep::ApplyContext(_) => event is Applied,
            BuildStep::Build => event is Built,
            BuildStep::Store(_, _) => event is Stored,
            BuildStep::Done(_) => false,
        },
        step is ReadCache && event is Read ==> match step.followed_by(event) {
            BuildStep::ApplyContext(translator) => event matches BuildEvent::Read(
                Ok((conventions, read)),
            ) && conventions > 0 && translator == read,
            _ => true,
        },
{
}

/// What getting a translator comes to, by what is known of it before the first
/// step, and what was loaded then: what was loaded before, and the translator
/// under the language's identifier if it was read or built.
pub proof fn law_loaded_after<T>(
    facts: BuildFacts<T>,
    loaded: Map<Seq<char>, Arc<T>>,
    id: Seq<char>,
)
    ensures
        match (facts.loaded, facts.cache, facts.built) {
            (Some(translator), _, _) => {
                &&& facts.outcome() matches Ok((source, given)) && source
                    == TranslatorSource::Loaded && given == translator
                &&& facts.loaded_after(loaded, id) == loaded
            },
            (None, Some(Err(error)), _) => {
                &&& facts.outcome() == Err::<(TranslatorSource, Arc<T>), LifterBuilderError>(error)
                &&& facts.loaded_after(loaded, id) == loaded
            },
            (None, Some(Ok((conventions, _))), _) if conventions > 0 => {
                &&& facts.outcome() matches Ok((source, given)) && source
                    == TranslatorSource::Cached && given == facts.applied
                &&& facts.loaded_after(loaded, id) == loaded.insert(id, facts.applied)
            },
            (None, _, Ok(translator)) => {
                &&& facts.outcome() matches Ok((source, given)) && source
                    == TranslatorSource::Built && given == translator
                &&& facts.loaded_after(loaded, id) == loaded.insert(id, translator)
            },
            (None, _, Err(error)) => {
                &&& facts.outcome() == Err::<(TranslatorSource, Arc<T>), LifterBuilderError>(error)
                &&& facts.loaded_after(loaded, id) == loaded
            },
        },
{
}

} // verus!
