//! What holds of lifters and prototypes as a whole.

use crate::cio::info::bits_of;
use crate::ir::address::Address;
use crate::ir::space::{space_index, value_count, AddressSpace, AddressSpaceId, SpaceManager};
use crate::ir::var::Var;
use crate::lifter::builder::{cached_places, hyphenated, is_cached, CacheEntry};
use crate::lifter::convention::{
    optional_text, CallFixup, Convention, PrototypeEntry, PrototypeOperand,
};
use crate::lifter::lift::{
    fixups_by_name, floats_by_size, with_targets, LifterModel,
};
use crate::lifter::prototype::{
    entries_with, item_at, operands_of, registers_of, DefaultPrototype, Operand, PrototypeResolver,
};
use crate::lifter::translator::{convention_named, register_named, FloatKind, Translator};
use crate::names::name_text;
use crate::search::{first_where, lemma_first_where, lemma_first_where_is};
use ustr::Ustr;
use vstd::prelude::*;

verus! {

/// Whether the identifier of a space gives its own place.
pub open spec fn knows_itself(manager: SpaceManager, id: AddressSpaceId) -> bool {
    manager.has_space(id) && manager.space_of(id).id == id
}

/// A lifter and its resolver turn a place of the convention into the same
/// variable, if the program counter is as wide as an address of the memory
/// space.
pub proof fn law_resolver_agrees(
    lifter: LifterModel,
    operand: PrototypeOperand,
    stack_base: Address,
)
    requires
        knows_itself(lifter.translator.manager, lifter.global_space),
        knows_itself(lifter.translator.manager, lifter.register_space),
        lifter.program_counter.bits == bits_of(lifter.space(lifter.global_space).address_size),
    ensures
        lifter.resolver().resolved(operand, stack_base) == lifter.var_of(operand, stack_base),
{
}

/// The lifter of a translator knows its spaces: each of the three that it
/// names is the one of its place, if that one's identifier gives its place.
pub proof fn law_built_spaces(
    translator: Translator,
    convention: Convention,
    frame_pointer: Option<Var>,
)
    requires
        LifterModel::buildable(translator, convention),
        forall|i: int|
            0 <= i < translator.manager.spaces@.len() ==> space_index(
                (#[trigger] translator.manager.spaces@[i]).id.bits,
            ) == i,
    ensures
        knows_itself(
            translator.manager,
            LifterModel::built(translator, convention, frame_pointer).global_space,
        ),
        knows_itself(
            translator.manager,
            LifterModel::built(translator, convention, frame_pointer).register_space,
        ),
        knows_itself(
            translator.manager,
            LifterModel::built(translator, convention, frame_pointer).temporary_space,
        ),
        LifterModel::built(translator, convention, frame_pointer).register_map.space
            == LifterModel::built(translator, convention, frame_pointer).register_space,
{
    let manager = translator.manager;
    assert(space_index(
        manager.spaces@[manager.default_space as int].id.bits,
    ) == manager.default_space);
    assert(space_index(
        manager.spaces@[manager.register_space as int].id.bits,
    ) == manager.register_space);
    assert(space_index(
        manager.spaces@[manager.unique_space as int].id.bits,
    ) == manager.unique_space);
}

/// A place that is a register has the same variable as an operand and as a
/// variable. A place on the stack has an operand of an address's size, and one
/// in two registers has neither.
pub proof fn law_operand_and_var(
    resolver: PrototypeResolver,
    operand: PrototypeOperand,
    stack_base: Address,
)
    ensures
        match resolver.operand_of(operand) {
            Some(Operand::Register(var)) => resolver.resolved(operand, stack_base) == Some(var)
                && operand.register_in(resolver.register_space) == Some(var),
            Some(Operand::Stack(_, bytes)) => resolver.resolved(operand, stack_base) matches Some(
                var,
            ) && var.space == resolver.global_space && bytes == var.bits as int / 8,
            None => operand is RegisterJoin && resolver.resolved(operand, stack_base) is None,
        },
{
}

/// Each entry is found, counted among those of its kind: it is the one after
/// as many as come before it.
pub proof fn law_entry_is_found(entries: Seq<PrototypeEntry>, at: int)
    requires
        0 <= at < entries.len(),
    ensures
        item_at(
            entries_with(entries, optional_text(entries[at].meta_type)),
            entries_with(entries.take(at), optional_text(entries[at].meta_type)).len() as int,
        ) == Some(entries[at].operand),
    decreases entries.len(),
{
    let meta = optional_text(entries[at].meta_type);
    let rest = entries.drop_last();
    if at == entries.len() - 1 {
        assert(entries.take(at) =~= rest);
    } else {
        law_entry_is_found(rest, at);
        assert(rest.take(at) =~= entries.take(at));
        assert(rest[at] == entries[at]);
    }
}

/// Whatever is found among the entries of a kind is an entry of that kind.
pub proof fn law_found_is_entry(entries: Seq<PrototypeEntry>, meta: Option<Seq<char>>, index: int)
    requires
        0 <= index < entries_with(entries, meta).len(),
    ensures
        exists|at: int|
            0 <= at < entries.len() && optional_text((#[trigger] entries[at]).meta_type) == meta
                && entries[at].operand == entries_with(entries, meta)[index],
    decreases entries.len(),
{
    if entries.len() > 0 {
        let rest = entries.drop_last();
        if index < entries_with(rest, meta).len() {
            law_found_is_entry(rest, meta, index);
            let at = choose|at: int|
                0 <= at < rest.len() && optional_text((#[trigger] rest[at]).meta_type) == meta
                    && rest[at].operand == entries_with(rest, meta)[index];
            assert(entries[at] == rest[at]);
        } else {
            assert(entries[entries.len() - 1] == entries.last());
        }
    }
}

/// The registers among some places are variables of the register space, of
/// the first generation, and each of them is one of those places.
pub proof fn law_registers_are_places(
    operands: Seq<PrototypeOperand>,
    space: AddressSpaceId,
    index: int,
)
    requires
        0 <= index < registers_of(operands, space).len(),
    ensures
        registers_of(operands, space)[index].space == space,
        registers_of(operands, space)[index].generation == 0,
        exists|at: int|
            0 <= at < operands.len() && (#[trigger] operands[at]).register_in(space) == Some(
                registers_of(operands, space)[index],
            ),
    decreases operands.len(),
{
    if operands.len() > 0 {
        let rest = operands.drop_last();
        if index < registers_of(rest, space).len() {
            law_registers_are_places(rest, space, index);
            let at = choose|at: int|
                0 <= at < rest.len() && (#[trigger] rest[at]).register_in(space) == Some(
                    registers_of(rest, space)[index],
                );
            assert(operands[at] == rest[at]);
        } else {
            assert(operands[operands.len() - 1] == operands.last());
        }
    }
}

/// Each place that is a register is among the registers.
pub proof fn law_register_place_is_listed(
    operands: Seq<PrototypeOperand>,
    space: AddressSpaceId,
    at: int,
)
    requires
        0 <= at < operands.len(),
        operands[at] is Register,
    ensures
        registers_of(operands, space).contains(operands[at].register_in(space)->0),
    decreases operands.len(),
{
    let rest = operands.drop_last();
    let all = registers_of(operands, space);
    if at == operands.len() - 1 {
        assert(all.last() == operands[at].register_in(space)->0);
        assert(all[all.len() - 1] == operands[at].register_in(space)->0);
    } else {
        law_register_place_is_listed(rest, space, at);
        let i = choose|i: int|
            0 <= i < registers_of(rest, space).len() && registers_of(rest, space)[i]
                == rest[at].register_in(space)->0;
        assert(all[i] == operands[at].register_in(space)->0);
    }
}

/// An output that is a register is among the output registers.
pub proof fn law_output_is_listed(
    prototype: DefaultPrototype,
    index: usize,
    meta: Option<Seq<char>>,
)
    requires
        prototype.output_at(index, meta) is Some,
        prototype.output_at(index, meta)->0 is Register,
    ensures
        registers_of(
            operands_of(prototype.outputs@),
            prototype.resolver.register_space,
        ).contains(
            prototype.output_at(index, meta)->0.register_in(prototype.resolver.register_space)->0,
        ),
{
    let entries = prototype.outputs@;
    law_found_is_entry(entries, meta, index as int);
    let at = choose|at: int|
        0 <= at < entries.len() && optional_text((#[trigger] entries[at]).meta_type) == meta
            && entries[at].operand == entries_with(entries, meta)[index as int];
    law_register_place_is_listed(
        operands_of(entries),
        prototype.resolver.register_space,
        at,
    );
}

proof fn lemma_with_targets(
    table: Map<Seq<char>, usize>,
    targets: Seq<Ustr>,
    index: usize,
    text: Seq<char>,
)
    ensures
        with_targets(table, targets, index).get(text) == if (exists|i: int|
            0 <= i < targets.len() && name_text(#[trigger] targets[i]) == text) {
            Some(index)
        } else {
            table.get(text)
        },
    decreases targets.len(),
{
    if targets.len() > 0 {
        let rest = targets.drop_last();
        lemma_with_targets(table, rest, index, text);
        if exists|i: int| 0 <= i < rest.len() && name_text(#[trigger] rest[i]) == text {
            let i = choose|i: int| 0 <= i < rest.len() && name_text(#[trigger] rest[i]) == text;
            assert(targets[i] == rest[i]);
        }
        assert(targets.last() == targets[targets.len() - 1]);
        if name_text(targets.last()) != text {
            assert forall|i: int|
                0 <= i < targets.len() && name_text(#[trigger] targets[i]) == text implies rest[i]
                == targets[i] && i < rest.len() by {
            }
        }
    }
}

/// The call fixup for a function is the last one that targets it. There is one
/// exactly if one targets it.
pub proof fn law_fixup_is_last(fixups: Seq<CallFixup>, text: Seq<char>)
    requires
        fixups.len() <= usize::MAX,
    ensures
        match fixups_by_name(fixups).get(text) {
            Some(at) => at < fixups.len() && fixups[at as int].targets_name(text) && (forall|i: int|
                at < i < fixups.len() ==> !(#[trigger] fixups[i]).targets_name(text)),
            None => forall|i: int|
                0 <= i < fixups.len() ==> !(#[trigger] fixups[i]).targets_name(text),
        },
    decreases fixups.len(),
{
    if fixups.len() > 0 {
        let rest = fixups.drop_last();
        let last = fixups.last();
        law_fixup_is_last(rest, text);
        lemma_with_targets(
            fixups_by_name(rest),
            last.targets@,
            (fixups.len() - 1) as usize,
            text,
        );
        assert(last.targets_name(text) == (exists|i: int|
            0 <= i < last.targets@.len() && name_text(#[trigger] last.targets@[i]) == text));
        assert forall|i: int| 0 <= i < rest.len() implies #[trigger] fixups[i] == rest[i] by {
        }
    }
}

/// A lifter has a call fixup for a function exactly if one of its convention
/// targets it, and it is the last of those.
pub proof fn law_built_fixups(
    translator: Translator,
    convention: Convention,
    frame_pointer: Option<Var>,
    text: Seq<char>,
)
    ensures
        match LifterModel::built(translator, convention, frame_pointer).fixup_for(text) {
            Some(fixup) => exists|at: int|
                0 <= at < convention.call_fixups@.len() && #[trigger] convention.call_fixups@[at]
                    == fixup && fixup.targets_name(text) && (forall|i: int|
                    at < i < convention.call_fixups@.len()
                        ==> !(#[trigger] convention.call_fixups@[i]).targets_name(text)),
            None => forall|i: int|
                0 <= i < convention.call_fixups@.len()
                    ==> !(#[trigger] convention.call_fixups@[i]).targets_name(text),
        },
{
    assert(convention.call_fixups.len() == convention.call_fixups@.len());
    law_fixup_is_last(convention.call_fixups@, text);
    if let Some(at) = fixups_by_name(convention.call_fixups@).get(text) {
        assert(convention.call_fixups@[at as int].targets_name(text));
    }
}

/// The float format of a size is the last one of that size. There is one
/// exactly if the list has one of that size.
pub proof fn law_float_is_last(formats: Seq<(usize, FloatKind)>, bits: u32)
    ensures
        match floats_by_size(formats).get(bits) {
            Some(kind) => exists|at: int|
                0 <= at < formats.len() && (#[trigger] formats[at]).0 as u32 == bits
                    && formats[at].1 == kind && (forall|i: int|
                    at < i < formats.len() ==> (#[trigger] formats[i]).0 as u32 != bits),
            None => forall|i: int| 0 <= i < formats.len() ==> (#[trigger] formats[i]).0 as u32 != bits,
        },
    decreases formats.len(),
{
    if formats.len() > 0 {
        let rest = formats.drop_last();
        law_float_is_last(rest, bits);
        assert(formats.last() == formats[formats.len() - 1]);
        assert forall|i: int| 0 <= i < rest.len() implies #[trigger] formats[i] == rest[i] by {
        }
        if formats.last().0 as u32 != bits {
            if let Some(kind) = floats_by_size(rest).get(bits) {
                let at = choose|at: int|
                    0 <= at < rest.len() && (#[trigger] rest[at]).0 as u32 == bits && rest[at].1
                        == kind && (forall|i: int|
                        at < i < rest.len() ==> (#[trigger] rest[i]).0 as u32 != bits);
                assert(formats[at].0 as u32 == bits);
            }
        }
    }
}

/// Where names are distinct, each register, each calling convention and each
/// float format is the one that is found under its name or size.
pub proof fn law_distinct_are_found(translator: Translator, at: int)
    requires
        translator.has_distinct_names(),
    ensures
        0 <= at < translator.registers@.len() ==> translator.register(
            name_text(translator.registers@[at].0),
        ) == Some(translator.registers@[at].1),
        0 <= at < translator.compiler_conventions@.len() ==> translator.convention(
            translator.compiler_conventions@[at].0@,
        ) == Some(translator.compiler_conventions@[at].1),
        0 <= at < translator.float_formats@.len() ==> floats_by_size(
            translator.float_formats@,
        ).get(translator.float_formats@[at].0 as u32) == Some(translator.float_formats@[at].1),
{
    let registers = translator.registers@;
    if 0 <= at < registers.len() {
        let named = register_named(name_text(registers[at].0));
        assert forall|j: int| 0 <= j < at implies !named(#[trigger] registers[j]) by {
        }
        lemma_first_where_is(registers, named, at);
    }
    let conventions = translator.compiler_conventions@;
    if 0 <= at < conventions.len() {
        let named = convention_named(conventions[at].0@);
        assert forall|j: int| 0 <= j < at implies !named(#[trigger] conventions[j]) by {
        }
        lemma_first_where_is(conventions, named, at);
    }
    let formats = translator.float_formats@;
    if 0 <= at < formats.len() {
        let bits = formats[at].0 as u32;
        law_float_is_last(formats, bits);
        if let Some(kind) = floats_by_size(formats).get(bits) {
            let last = choose|last: int|
                0 <= last < formats.len() && (#[trigger] formats[last]).0 as u32 == bits
                    && formats[last].1 == kind && (forall|i: int|
                    last < i < formats.len() ==> (#[trigger] formats[i]).0 as u32 != bits);
            assert(last == at);
        }
    }
}

/// A copy of a translator is read the same: it has the same registers and
/// conventions under the same names.
pub proof fn law_copy_reads_the_same(translator: Translator, copy: Translator, name: Seq<char>)
    requires
        copy.same_as(translator),
    ensures
        copy.register(name) == translator.register(name),
        copy.convention(name) == translator.convention(name),
        copy.named_var(name) == translator.named_var(name),
{
    let conventions = translator.compiler_conventions@;
    let copies = copy.compiler_conventions@;
    let named = convention_named(name);
    lemma_first_where(conventions, named);
    let at = first_where(conventions, named);
    assert forall|j: int| 0 <= j < copies.len() implies named(#[trigger] copies[j]) == named(
        conventions[j],
    ) by {
        assert(copies[j].0@ == conventions[j].0@);
    }
    assert forall|j: int| 0 <= j < at implies !named(#[trigger] copies[j]) by {
        assert(!named(conventions[j]));
    }
    lemma_first_where_is(copies, named, at);
}

/// An address of a space is in it, and is where it was if it already was. To
/// count it round again changes nothing.
pub proof fn law_address_in_space(space: AddressSpace, offset: u64)
    requires
        space.holds(offset),
    ensures
        space.value_at(offset).offset <= space.value_at(offset).highest,
        space.value_at(offset).highest == space.size() - 1,
        offset < space.size() ==> space.value_at(offset).offset == offset,
        space.value_at(space.value_at(offset).offset) == space.value_at(offset),
{
    let addresses = value_count(space.address_size as int);
    let word = space.word_size as int;
    assert(addresses * word > 0) by (nonlinear_arith)
        requires
            addresses > 0,
            word > 0,
    ;
}

/// The names of cache files have no colon, and have the length of the language's
/// identifier. One without colons keeps its own.
pub proof fn law_cache_name(id: Seq<char>)
    ensures
        hyphenated(id).len() == id.len(),
        !hyphenated(id).contains(':'),
        !id.contains(':') ==> hyphenated(id) == id,
{
    if !id.contains(':') {
        assert(hyphenated(id) =~= id);
    }
}

/// The places to be cached are in order, without repetition, and those of
/// languages that are to be cached.
pub proof fn law_cached_places(entries: Seq<CacheEntry>, count: int, index: int)
    requires
        0 <= count <= entries.len() <= usize::MAX,
        0 <= index < cached_places(entries, count).len(),
    ensures
        cached_places(entries, count)[index] < count,
        is_cached(entries, cached_places(entries, count)[index] as int),
        forall|before: int|
            0 <= before < index ==> #[trigger] cached_places(entries, count)[before]
                < cached_places(entries, count)[index],
    decreases count,
{
    if count > 0 {
        let rest = cached_places(entries, count - 1);
        if index < rest.len() {
            law_cached_places(entries, count - 1, index);
        } else {
            assert forall|before: int| 0 <= before < index implies #[trigger] cached_places(
                entries,
                count,
            )[before] < count - 1 by {
                law_cached_places(entries, count - 1, before);
            }
        }
    }
}

/// Each language with a compiler specification has its path cached, once.
pub proof fn law_each_path_is_cached(entries: Seq<CacheEntry>, count: int, at: int)
    requires
        0 <= at < count <= entries.len() <= usize::MAX,
        entries[at].compiler_specs > 0,
    ensures
        exists|index: int|
            0 <= index < cached_places(entries, count).len() && entries[#[trigger] cached_places(
                entries,
                count,
            )[index] as int].path@ == entries[at].path@,
    decreases count, at,
{
    if is_cached(entries, at) {
        lemma_place_is_listed(entries, count, at);
    } else {
        let before = choose|before: int|
            0 <= before < at && (#[trigger] entries[before]).compiler_specs > 0
                && entries[before].path@ == entries[at].path@;
        law_each_path_is_cached(entries, count, before);
    }
}

proof fn lemma_place_is_listed(entries: Seq<CacheEntry>, count: int, at: int)
    requires
        0 <= at < count <= entries.len() <= usize::MAX,
        is_cached(entries, at),
    ensures
        exists|index: int|
            0 <= index < cached_places(entries, count).len() && entries[#[trigger] cached_places(
                entries,
                count,
            )[index] as int].path@ == entries[at].path@,
    decreases count,
{
    let all = cached_places(entries, count);
    if at == count - 1 {
        assert(all[all.len() - 1] == at);
    } else {
        lemma_place_is_listed(entries, count - 1, at);
        let rest = cached_places(entries, count - 1);
        let index = choose|index: int|
            0 <= index < rest.len() && entries[#[trigger] rest[index] as int].path@
                == entries[at].path@;
        assert(all[index] == rest[index]);
    }
}

/// No two places to be cached have the same path.
pub proof fn law_cached_paths_differ(entries: Seq<CacheEntry>, count: int, first: int, second: int)
    requires
        0 <= count <= entries.len() <= usize::MAX,
        0 <= first < second < cached_places(entries, count).len(),
    ensures
        entries[cached_places(entries, count)[first] as int].path@ != entries[cached_places(
            entries,
            count,
        )[second] as int].path@,
{
    law_cached_places(entries, count, first);
    law_cached_places(entries, count, second);
    assert(entries[cached_places(entries, count)[first] as int].compiler_specs > 0);
}

} // verus!
