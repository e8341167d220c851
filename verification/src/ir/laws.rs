//! What holds of addresses, spaces and types.

use crate::ir::address::{distance, offset_after};
use crate::ir::space::{
    offset_within, space_index, value_count, AddressSpace, AddressSpaceId, SpaceManager,
};
use crate::ir::term::Term;
use crate::ir::types::{
    starts_at, EnumVariant, FunctionArg, StructField, Type, TypeModel, UnionVariant,
};
use crate::names::name_text;
use crate::search::{first_where, lemma_first_where, lemma_first_where_is};
use std::sync::Arc;
use ustr::Ustr;
use vstd::prelude::*;

verus! {

/// An address some bytes on is the sum, or what is left of it past the last
/// address.
pub proof fn law_address_after(base: u64, bytes: u64)
    ensures
        base + bytes <= u64::MAX ==> offset_after(base, bytes as int) == base + bytes,
        base + bytes > u64::MAX ==> offset_after(base, bytes as int) == base + bytes - u64::MAX - 1,
{
}

/// The way from one address to another goes up, round the last address if it
/// has to.
pub proof fn law_address_distance(base: u64, offset: u64)
    ensures
        offset >= base ==> distance(base, offset) == offset - base,
        offset < base ==> distance(base, offset) == offset - base + u64::MAX + 1,
        offset_after(base, distance(base, offset)) == offset,
{
}

/// The place of a space is in the low half of its identifier, whatever the
/// marks in the high half are.
pub proof fn law_space_index(marks: u32, index: u32)
    requires
        marks < 0x1_0000,
        index < 0x1_0000,
    ensures
        space_index((marks * 0x1_0000 + index) as u32) == index,
{
}

/// Each byte more of an address makes a space 256 times as large, up to eight.
pub proof fn law_value_count(bytes: int)
    ensures
        value_count(0) == 1,
        0 < bytes <= 8 ==> value_count(bytes) == 256 * value_count(bytes - 1),
        bytes > 8 ==> value_count(bytes) == value_count(8),
{
}

/// An offset into a space stays where it is if the space has it. Otherwise it
/// is moved into the space by whole sizes of it, from its value as a signed
/// number.
pub proof fn law_offset_within(size: int, offset: u64)
    requires
        0 < size <= 0x1_0000_0000_0000_0000,
    ensures
        offset_within(size, offset) < size,
        offset < size ==> offset_within(size, offset) == offset,
        offset >= size && offset <= i64::MAX ==> (offset - offset_within(size, offset)) % size == 0,
        offset >= size && offset > i64::MAX ==> (offset - u64::MAX - 1 - offset_within(
            size,
            offset,
        )) % size == 0,
{
    vstd::arithmetic::div_mod::lemma_fundamental_div_mod(offset as int, size);
    vstd::arithmetic::div_mod::lemma_fundamental_div_mod(offset - u64::MAX - 1, size);
    let a = offset as int;
    let b = offset - u64::MAX - 1;
    assert((a - a % size) % size == 0) by {
        assert(a - a % size == size * (a / size));
        vstd::arithmetic::div_mod::lemma_mod_multiples_basic(a / size, size);
        assert(size * (a / size) == (a / size) * size) by (nonlinear_arith);
    }
    assert((b - b % size) % size == 0) by {
        assert(b - b % size == size * (b / size));
        vstd::arithmetic::div_mod::lemma_mod_multiples_basic(b / size, size);
        assert(size * (b / size) == (b / size) * size) by (nonlinear_arith);
    }
}

/// An address in a space names the space, and has its word size, its highest
/// offset and the offset counted round it: the space has a word for each value
/// of an address.
pub proof fn law_space_value(space: AddressSpace, offset: u64)
    requires
        space.holds(offset),
    ensures
        space.value_at(offset).space == space.id,
        space.value_at(offset).word_size == space.word_size as u32,
        space.value_at(offset).highest + 1 == value_count(space.address_size as int)
            * space.word_size,
        space.value_at(offset).offset == offset_within(
            value_count(space.address_size as int) * space.word_size,
            offset,
        ),
{
    let addresses = value_count(space.address_size as int);
    let word = space.word_size as int;
    assert(addresses * word > 0) by (nonlinear_arith)
        requires
            addresses > 0,
            word > 0,
    ;
}

/// An offset can be counted round a space exactly if the space has words and
/// no more bytes than there are offsets, and if it has the offset or is small
/// enough to be a signed number.
pub proof fn law_space_holds(space: AddressSpace, offset: u64)
    ensures
        space.holds(offset) <==> {
            let size = value_count(space.address_size as int) * space.word_size;
            space.word_size > 0 && size <= u64::MAX + 1 && (offset < size || size <= i64::MAX)
        },
{
}

/// An identifier stands for the space whose place is in its low half.
pub proof fn law_space_by_place(manager: SpaceManager, id: AddressSpaceId)
    ensures
        manager.has_space(id) <==> id.bits as int % 0x1_0000 < manager.spaces@.len(),
        manager.space_of(id) == *manager.spaces@[id.bits as int % 0x1_0000],
        manager.wf() <==> manager.default_space < manager.spaces@.len() && manager.register_space
            < manager.spaces@.len() && manager.unique_space < manager.spaces@.len(),
{
}

/// A copy of the spaces is the same in each part.
pub proof fn law_spaces_copied(manager: SpaceManager, copy: SpaceManager)
    requires
        copy.same_as(manager),
    ensures
        copy.spaces@ == manager.spaces@,
        copy.default_space == manager.default_space,
        copy.register_space == manager.register_space,
        copy.unique_space == manager.unique_space,
{
}

/// The model of a type has each part of the type.
pub proof fn law_type_model(
    target: Term<Type>,
    name: Ustr,
    constants: Arc<Vec<EnumVariant>>,
    fields: Vec<StructField>,
    members: Vec<UnionVariant>,
    args: Vec<FunctionArg>,
    size: u32,
    bits: u32,
    shift: i64,
    variadic: bool,
)
    ensures
        Type::Void@ == TypeModel::Void,
        (Type::Scalar { bits })@ == (TypeModel::Scalar { bits }),
        (Type::Pointer { target, bits, shift })@ == (TypeModel::Pointer { target, bits, shift }),
        (Type::Named { name, size, address_bits: bits })@ == (TypeModel::Named {
            name: name_text(name),
            size,
            address_bits: bits,
        }),
        (Type::Enum { name, variants: constants, bits })@ == (TypeModel::Enum {
            name,
            variants: constants@,
            bits,
        }),
        (Type::Struct { name, fields, size })@ == (TypeModel::Struct {
            name,
            fields: fields@,
            size,
        }),
        (Type::Union { name, variants: members, bits })@ == (TypeModel::Union {
            name,
            variants: members@,
            bits,
        }),
        (Type::Function { rtype: target, args, variadic })@ == (TypeModel::Function {
            rtype: target,
            args: args@,
            variadic,
        }),
{
}

/// A type whose size is in bits takes up a byte for each eight of them, and one
/// whose size is in bytes as many as that.
pub proof fn law_type_bytes(typ: TypeModel)
    ensures
        match typ {
            TypeModel::Void | TypeModel::Function { .. } => typ.nbytes() == 0,
            TypeModel::Named { size, .. } | TypeModel::Struct { size, .. } => typ.nbytes() == size,
            TypeModel::Scalar { bits } | TypeModel::Pointer { bits, .. } | TypeModel::Enum {
                bits,
                ..
            } | TypeModel::Union { bits, .. } => 8 * typ.nbytes() <= bits < 8 * typ.nbytes() + 8,
        },
{
}

/// A pointer points to its target, and nothing else points.
pub proof fn law_pointee(typ: TypeModel)
    ensures
        match typ {
            TypeModel::Pointer { target, .. } => typ.pointee() == Some(target@),
            _ => typ.pointee() is None,
        },
{
}

/// At an offset into a structure stands the first of its fields that starts
/// there, with its type and its name, and nothing if none does. Any other value
/// stands at its own start alone.
pub proof fn law_member_at(typ: TypeModel, offset: usize)
    ensures
        match typ {
            TypeModel::Struct { fields, .. } => match typ.member_at(offset) {
                Some((member, name)) => typ.type_at(offset) == Some(member) && exists|at: int|
                    0 <= at < fields.len() && (#[trigger] fields[at]).offset == offset
                        && fields[at].typ@ == member && name == Some(fields[at].name) && (forall|
                        i: int,
                    |
                        0 <= i < at ==> (#[trigger] fields[i]).offset != offset),
                None => typ.type_at(offset) is None && forall|i: int|
                    0 <= i < fields.len() ==> (#[trigger] fields[i]).offset != offset,
            },
            _ => if offset == 0 {
                typ.member_at(0) == Some((typ, None::<Ustr>)) && typ.type_at(0) == Some(typ)
            } else {
                typ.member_at(offset) is None && typ.type_at(offset) is None
            },
        },
{
    if let TypeModel::Struct { fields, .. } = typ {
        let starts = starts_at(offset);
        lemma_first_where(fields, starts);
        let at = first_where(fields, starts);
        assert forall|i: int| 0 <= i < at implies (#[trigger] fields[i]).offset != offset by {
            assert(!starts(fields[i]));
        }
        if at < fields.len() {
            assert(starts(fields[at]));
            assert(fields[at].offset == offset);
        }
    }
}

/// The field that an offset leads to is the one that is known to be the first
/// there.
pub proof fn law_member_is_first(
    name: Ustr,
    fields: Seq<StructField>,
    size: u32,
    offset: usize,
    at: int,
)
    requires
        0 <= at < fields.len(),
        fields[at].offset == offset,
        forall|i: int| 0 <= i < at ==> (#[trigger] fields[i]).offset != offset,
    ensures
        (TypeModel::Struct { name, fields, size }).member_at(offset) == Some(
            (fields[at].typ@, Some(fields[at].name)),
        ),
{
    let starts = starts_at(offset);
    assert forall|i: int| 0 <= i < at implies !starts(#[trigger] fields[i]) by {
    }
    lemma_first_where_is(fields, starts, at);
}

/// A shift moves where a pointer points, and leaves its target and its width
/// alone. One that leaves the range of `i64`, or one of another type, changes
/// nothing.
pub proof fn law_type_shifted(typ: Type, by: int)
    ensures
        match typ {
            Type::Pointer { target, bits, shift } => if i64::MIN <= shift + by <= i64::MAX {
                typ.shifted(by) == (Type::Pointer { target, bits, shift: (shift + by) as i64 })
            } else {
                typ.shifted(by) == typ
            },
            _ => typ.shifted(by) == typ,
        },
{
}

} // verus!
