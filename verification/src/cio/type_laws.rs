//! What holds of the types that a database makes, and of what is found in them.

use crate::cio::info::{
    apply_all, bits_fit, bits_of, field_named, variant_named, Arg, Enum, Field, Prototype, Struct,
    TypeDef, TypeInfo, Union,
};
use crate::cio::laws::{
    law_chain_is_followed, law_pointer_type_single, law_pointer_type_step,
};
use crate::cio::property::Property;
use crate::cio::resolve::{
    alias, followable, member_through, pointer_type, resolvable, resolved, step_limit, unaliased,
};
use crate::cio::table::Entries;
use crate::ir::laws::{law_member_at, law_member_is_first};
use crate::ir::term::Term;
use crate::ir::types::{EnumVariant, StructField, Type, TypeModel};
use crate::names::name_text;
use crate::search::{first_where, lemma_first_where};
use fugue::bv::BitVec;
use ustr::Ustr;
use vstd::prelude::*;
use vstd::std_specs::convert::FromSpec;

verus! {

/// A size in bits is eight times the size in bytes, of which the low 32 bits
/// count. It fits exactly if it is a number of 32 bits.
pub proof fn law_bits(bytes: usize)
    ensures
        bits_fit(bytes) <==> (bytes as u32) < 0x2000_0000,
        bits_fit(bytes) ==> bits_of(bytes) == 8 * (bytes as u32),
        bytes < 0x2000_0000 ==> bits_fit(bytes) && bits_of(bytes) == 8 * bytes,
{
}

/// A shift by a number is by that number, whatever the target is, and one by a
/// pointer's size is by a byte for each eight bits of the target's pointers,
/// backwards where it is negative.
pub proof fn law_property_amount(number: i64, bits: u32)
    ensures
        Property::ShiftedPointer(number).shift(bits) == number,
        Property::ShiftedPointerUsize(false).shift(bits) == bits as int / 8,
        Property::ShiftedPointerUsize(true).shift(bits) == -(bits as int / 8),
{
}

/// Properties are applied one by one, the first one first. Without any, a type
/// stays as it is.
pub proof fn law_properties_in_order(
    typ: Type,
    first: Property,
    rest: Seq<Property>,
    bits: u32,
)
    ensures
        apply_all(typ, Seq::empty(), bits) == typ,
        apply_all(typ, seq![first] + rest, bits) == apply_all(
            typ.shifted(
                match first {
                    Property::ShiftedPointer(number) => number as int,
                    Property::ShiftedPointerUsize(false) => bits as int / 8,
                    Property::ShiftedPointerUsize(true) => -(bits as int / 8),
                },
            ),
            rest,
            bits,
        ),
    decreases rest.len(),
{
    let all = seq![first] + rest;
    if rest.len() == 0 {
        assert(all.drop_last() =~= Seq::<Property>::empty());
        assert(all.last() == first);
        assert(rest =~= Seq::<Property>::empty());
        reveal_with_fuel(apply_all, 2);
    } else {
        assert(all.drop_last() =~= seq![first] + rest.drop_last());
        assert(all.last() == rest.last());
        law_properties_in_order(typ, first, rest.drop_last(), bits);
    }
}

/// Whether a field of a structure type is that of a declared field: it has its
/// name, its offset, its bits and its type with the properties applied.
pub open spec fn is_field_for(field: StructField, declared: Field, bits: u32) -> bool {
    &&& field.name == declared.name
    &&& field.offset == declared.offset
    &&& field.bit_field == declared.bit_field
    &&& *field.typ == apply_all(*declared.typ, declared.properties@, bits)
}

/// The type of a structure has the structure's name and the size and the
/// fields that are declared for the target, each at its place in the list.
pub proof fn law_structure_type(s: Struct, at: int)
    ensures
        TypeInfo::Struct(s).lowered(32) matches TypeModel::Struct { name, fields, size } && name
            == s.name && size == s.size_32 as u32 && fields.len() == s.fields_32@.len() && (0 <= at
            < fields.len() ==> is_field_for(fields[at], s.fields_32@[at], 32)),
        TypeInfo::Struct(s).lowered(64) matches TypeModel::Struct { name, fields, size } && name
            == s.name && size == s.size_64 as u32 && fields.len() == s.fields_64@.len() && (0 <= at
            < fields.len() ==> is_field_for(fields[at], s.fields_64@[at], 64)),
        s.lowered(32) == TypeInfo::Struct(s).lowered(32),
        s.lowered(64) == TypeInfo::Struct(s).lowered(64),
{
}

/// The type of an enumeration has its name, the constants that are declared for
/// the target, and eight bits for each byte of its size there.
pub proof fn law_enumeration_type(e: Enum)
    ensures
        TypeInfo::Enum(e).fits(32) <==> (e.size_32 as u32) < 0x2000_0000,
        TypeInfo::Enum(e).fits(64) <==> (e.size_64 as u32) < 0x2000_0000,
        TypeInfo::Enum(e).lowered(32) matches TypeModel::Enum { name, variants, bits } && name
            == e.name && variants == e.variants_32@ && ((e.size_32 as u32) < 0x2000_0000 ==> bits
            == 8 * (e.size_32 as u32)),
        TypeInfo::Enum(e).lowered(64) matches TypeModel::Enum { name, variants, bits } && name
            == e.name && variants == e.variants_64@ && ((e.size_64 as u32) < 0x2000_0000 ==> bits
            == 8 * (e.size_64 as u32)),
        e.lowered(32) == TypeInfo::Enum(e).lowered(32),
        e.lowered(64) == TypeInfo::Enum(e).lowered(64),
{
}

/// The type of a union has its name, the members that are declared for the
/// target, and eight bits for each byte of its size there.
pub proof fn law_union_type(u: Union)
    ensures
        TypeInfo::Union(u).fits(32) <==> (u.size_32 as u32) < 0x2000_0000,
        TypeInfo::Union(u).fits(64) <==> (u.size_64 as u32) < 0x2000_0000,
        TypeInfo::Union(u).lowered(32) matches TypeModel::Union { name, variants, bits } && name
            == u.name && variants == u.variants_32@ && ((u.size_32 as u32) < 0x2000_0000 ==> bits
            == 8 * (u.size_32 as u32)),
        TypeInfo::Union(u).lowered(64) matches TypeModel::Union { name, variants, bits } && name
            == u.name && variants == u.variants_64@ && ((u.size_64 as u32) < 0x2000_0000 ==> bits
            == 8 * (u.size_64 as u32)),
        u.lowered(32) == TypeInfo::Union(u).lowered(32),
        u.lowered(64) == TypeInfo::Union(u).lowered(64),
{
}

/// Another name of a type makes the type that is declared for the target, and
/// makes it whatever its size is. So do structures and prototypes.
pub proof fn law_typedef_type(t: TypeDef, s: Struct, p: Prototype, bits: u32)
    ensures
        t.target(32) == t.type_32,
        t.target(64) == t.type_64,
        TypeInfo::TypeDef(t).lowered(32) == t.type_32@,
        TypeInfo::TypeDef(t).lowered(64) == t.type_64@,
        TypeInfo::TypeDef(t).fits(bits),
        TypeInfo::Struct(s).fits(bits),
        TypeInfo::Prototype(p).fits(bits),
{
}

/// Whether a function type is made of a result, of arguments in the order they
/// are declared in, and of what says that more may follow.
pub open spec fn is_function_of(
    typ: TypeModel,
    result: Term<Type>,
    declared: Seq<Arg>,
    more: bool,
) -> bool {
    typ matches TypeModel::Function { rtype, args, variadic } && rtype == result && variadic == more
        && args.len() == declared.len() && forall|i: int|
        0 <= i < declared.len() ==> (#[trigger] args[i]).name == declared[i].name
            && args[i].properties == declared[i].properties && args[i].typ == declared[i].typ
}

/// The type of a prototype has the result that is declared for the target, and
/// for each argument one at the same place, with its name, its properties and
/// its type. With a database, a single argument that stands for `void` is none.
pub proof fn law_function_type(p: Prototype, types: Entries)
    ensures
        is_function_of(TypeInfo::Prototype(p).lowered(32), p.rtype_32, p.atypes_32@, p.variadic),
        is_function_of(TypeInfo::Prototype(p).lowered(64), p.rtype_64, p.atypes_64@, p.variadic),
        p.lowered(32) == TypeInfo::Prototype(p).lowered(32),
        p.lowered(64) == TypeInfo::Prototype(p).lowered(64),
        is_function_of(
            TypeInfo::Prototype(p).lowered_with(types, 32),
            p.rtype_32,
            if p.atypes_32@.len() == 1 && resolved(types, p.atypes_32@[0].typ@) is Void {
                Seq::empty()
            } else {
                p.atypes_32@
            },
            p.variadic,
        ),
        is_function_of(
            TypeInfo::Prototype(p).lowered_with(types, 64),
            p.rtype_64,
            if p.atypes_64@.len() == 1 && resolved(types, p.atypes_64@[0].typ@) is Void {
                Seq::empty()
            } else {
                p.atypes_64@
            },
            p.variadic,
        ),
        p.lowered_with(types, 32) == TypeInfo::Prototype(p).lowered_with(types, 32),
        p.lowered_with(types, 64) == TypeInfo::Prototype(p).lowered_with(types, 64),
{
}

/// A database changes nothing about a type that is no prototype, and asks no
/// more of it.
pub proof fn law_database_leaves_types(info: TypeInfo, types: Entries, bits: u32)
    requires
        !(info is Prototype),
    ensures
        info.lowered_with(types, bits) == info.lowered(bits),
        info.fits_with(types, bits) == info.fits(bits),
{
}

/// What is known of a name says what it was made from.
pub proof fn law_info_from(e: Enum, s: Struct, p: Prototype, t: TypeDef, u: Union)
    ensures
        <TypeInfo as FromSpec<Enum>>::from_spec(e) == TypeInfo::Enum(e),
        <TypeInfo as FromSpec<Struct>>::from_spec(s) == TypeInfo::Struct(s),
        <TypeInfo as FromSpec<Prototype>>::from_spec(p) == TypeInfo::Prototype(p),
        <TypeInfo as FromSpec<TypeDef>>::from_spec(t) == TypeInfo::TypeDef(t),
        <TypeInfo as FromSpec<Union>>::from_spec(u) == TypeInfo::Union(u),
{
}

/// Whether `found` is the first constant of a name in a list, with its own two
/// values, or that there is none.
pub open spec fn is_first_constant(
    variants: Seq<EnumVariant>,
    name: Seq<char>,
    found: Option<(BitVec, BitVec, TypeModel)>,
) -> bool {
    match found {
        Some((signed, unsigned, _)) => exists|at: int|
            0 <= at < variants.len() && name_text((#[trigger] variants[at]).name) == name
                && variants[at].signed == signed && variants[at].unsigned == unsigned && (forall|
                i: int,
            |
                0 <= i < at ==> name_text((#[trigger] variants[i]).name) != name),
        None => forall|i: int|
            0 <= i < variants.len() ==> name_text((#[trigger] variants[i]).name) != name,
    }
}

proof fn lemma_constant(info: TypeInfo, e: Enum, name: Seq<char>, bits: u32)
    requires
        info == TypeInfo::Enum(e),
    ensures
        is_first_constant(e.variants(bits), name, info.variant_of(name, bits)),
{
    let variants = e.variants(bits);
    lemma_first_where(variants, variant_named(name));
    let at = first_where(variants, variant_named(name));
    assert forall|i: int| 0 <= i < at implies name_text((#[trigger] variants[i]).name) != name by {
        assert(!variant_named(name)(variants[i]));
    }
    if at < variants.len() {
        assert(name_text(variants[at].name) == name);
    }
}

/// A constant is handed out with its own values: those of the first constant of
/// the name among the ones that are declared for the target. Its type is named
/// by the enumeration and the constant, and has the enumeration's size in bits.
/// Nothing but an enumeration has constants.
pub proof fn law_constant_values(info: TypeInfo, name: Seq<char>)
    ensures
        match info {
            TypeInfo::Enum(e) => {
                &&& is_first_constant(e.variants_32@, name, info.variant_of(name, 32))
                &&& is_first_constant(e.variants_64@, name, info.variant_of(name, 64))
                &&& info.variant_of(name, 32) matches Some((_, _, typ)) ==> typ matches
                    TypeModel::Named { name: path, size, address_bits } && path == name_text(e.name)
                    + "::"@ + name && address_bits == 32 && ((e.size_32 as u32) < 0x2000_0000
                    ==> size == 8 * (e.size_32 as u32))
                &&& info.variant_of(name, 64) matches Some((_, _, typ)) ==> typ matches
                    TypeModel::Named { name: path, size, address_bits } && path == name_text(e.name)
                    + "::"@ + name && address_bits == 64 && ((e.size_64 as u32) < 0x2000_0000
                    ==> size == 8 * (e.size_64 as u32))
            },
            _ => info.variant_of(name, 32) is None && info.variant_of(name, 64) is None,
        },
        info.variant_at(name, 32) is Some <==> info.variant_of(name, 32) is Some,
        info.variant_at(name, 64) is Some <==> info.variant_of(name, 64) is Some,
{
    if let TypeInfo::Enum(e) = info {
        lemma_constant(info, e, name, 32);
        lemma_constant(info, e, name, 64);
    }
}

/// Whether `found` is the offset and the declared type of the first field of a
/// name in a list, or that there is none.
pub open spec fn is_first_field(
    fields: Seq<Field>,
    name: Seq<char>,
    found: Option<(usize, Term<Type>)>,
) -> bool {
    match found {
        Some((offset, typ)) => exists|at: int|
            0 <= at < fields.len() && name_text((#[trigger] fields[at]).name) == name
                && fields[at].offset == offset && fields[at].typ == typ && (forall|i: int|
                0 <= i < at ==> name_text((#[trigger] fields[i]).name) != name),
        None => forall|i: int|
            0 <= i < fields.len() ==> name_text((#[trigger] fields[i]).name) != name,
    }
}

proof fn lemma_field(info: TypeInfo, s: Struct, name: Seq<char>, bits: u32)
    requires
        info == TypeInfo::Struct(s),
    ensures
        is_first_field(s.fields(bits), name, info.field_of(name, bits)),
{
    let fields = s.fields(bits);
    lemma_first_where(fields, field_named(name));
    let at = first_where(fields, field_named(name));
    assert forall|i: int| 0 <= i < at implies name_text((#[trigger] fields[i]).name) != name by {
        assert(!field_named(name)(fields[i]));
    }
    if at < fields.len() {
        assert(name_text(fields[at].name) == name);
    }
}

/// A field is the first of its name among those that are declared for the
/// target. Nothing but a structure has fields.
pub proof fn law_field_values(info: TypeInfo, name: Seq<char>)
    ensures
        match info {
            TypeInfo::Struct(s) => is_first_field(s.fields_32@, name, info.field_of(name, 32))
                && is_first_field(s.fields_64@, name, info.field_of(name, 64)),
            _ => info.field_of(name, 32) is None && info.field_of(name, 64) is None,
        },
{
    if let TypeInfo::Struct(s) = info {
        lemma_field(info, s, name, 32);
        lemma_field(info, s, name, 64);
    }
}

/// A copy of what is known of a name has each part of it.
pub proof fn law_info_copied(info: TypeInfo, copy: TypeInfo, at: int)
    requires
        copy.same_as(info),
    ensures
        match (info, copy) {
            (TypeInfo::Enum(a), TypeInfo::Enum(b)) => a == b,
            (TypeInfo::TypeDef(a), TypeInfo::TypeDef(b)) => a == b,
            (TypeInfo::Union(a), TypeInfo::Union(b)) => a.name == b.name && a.size_32 == b.size_32
                && a.size_64 == b.size_64 && a.variants_32@ == b.variants_32@ && a.variants_64@
                == b.variants_64@,
            (TypeInfo::Prototype(a), TypeInfo::Prototype(b)) => a.name == b.name && a.rtype_32
                == b.rtype_32 && a.rtype_64 == b.rtype_64 && a.atypes_32@ == b.atypes_32@
                && a.atypes_64@ == b.atypes_64@ && a.variadic == b.variadic,
            (TypeInfo::Struct(a), TypeInfo::Struct(b)) => {
                &&& a.name == b.name && a.size_32 == b.size_32 && a.size_64 == b.size_64
                &&& a.fields_32@.len() == b.fields_32@.len() && a.fields_64@.len()
                    == b.fields_64@.len()
                &&& 0 <= at < a.fields_32@.len() ==> {
                    let (x, y) = (a.fields_32@[at], b.fields_32@[at]);
                    x.name == y.name && x.properties@ == y.properties@ && x.offset == y.offset
                        && x.size == y.size && x.typ == y.typ && x.bit_field == y.bit_field
                }
                &&& 0 <= at < a.fields_64@.len() ==> {
                    let (x, y) = (a.fields_64@[at], b.fields_64@[at]);
                    x.name == y.name && x.properties@ == y.properties@ && x.offset == y.offset
                        && x.size == y.size && x.typ == y.typ && x.bit_field == y.bit_field
                }
            },
            _ => false,
        },
{
    if let (TypeInfo::Struct(a), TypeInfo::Struct(b)) = (info, copy) {
        if 0 <= at < a.fields_32@.len() {
            assert(b.fields_32@[at].same_as(a.fields_32@[at]));
        }
        if 0 <= at < a.fields_64@.len() {
            assert(b.fields_64@[at].same_as(a.fields_64@[at]));
        }
    }
}

/// The type that a name in a database is another name of: the one that is
/// declared for the width the reference was made for.
pub open spec fn declared_alias(types: Entries, name: Seq<char>, wide: bool) -> Option<TypeModel> {
    match types.get(name) {
        Some(info) => match *info {
            TypeInfo::TypeDef(t) => Some(
                if wide {
                    t.type_64@
                } else {
                    t.type_32@
                },
            ),
            _ => None,
        },
        None => None,
    }
}

/// What is no reference by name stands for itself, and so does a reference to a
/// name that the database does not know.
pub proof fn law_stands_for_itself(types: Entries, typ: TypeModel)
    requires
        typ matches TypeModel::Named { name, .. } ==> !types.contains_key(name),
    ensures
        resolved(types, typ) == typ,
        resolvable(types, typ),
{
}

/// A reference to a name that is no other name of a type stands for what is
/// known of it, for the width that the reference was made for.
pub proof fn law_reference_stands_for(
    types: Entries,
    name: Seq<char>,
    info: TypeInfo,
    size: u32,
    address_bits: u32,
)
    requires
        types.contains_key(name),
        *types[name] == info,
        !(info is TypeDef),
    ensures
        address_bits == 64 ==> resolved(types, TypeModel::Named { name, size, address_bits })
            == info.lowered(64),
        address_bits != 64 ==> resolved(types, TypeModel::Named { name, size, address_bits })
            == info.lowered(32),
        resolvable(types, TypeModel::Named { name, size, address_bits }) <==> if address_bits
            == 64 {
            info.fits(64)
        } else {
            info.fits(32)
        },
{
}

/// A reference to another name of a type stands for what that type stands for,
/// on the width that the reference was made for, if the chain of names has an
/// end.
pub proof fn law_typedef_stands_for(
    types: Entries,
    name: Seq<char>,
    t: TypeDef,
    size: u32,
    address_bits: u32,
    steps: nat,
)
    requires
        types.dom().finite(),
        types.contains_key(name),
        *types[name] == TypeInfo::TypeDef(t),
        alias(
            types,
            unaliased(
                types,
                if address_bits == 64 {
                    t.type_64@
                } else {
                    t.type_32@
                },
                steps,
            ),
        ) is None,
    ensures
        address_bits == 64 ==> resolved(types, TypeModel::Named { name, size, address_bits })
            == resolved(types, t.type_64@),
        address_bits != 64 ==> resolved(types, TypeModel::Named { name, size, address_bits })
            == resolved(types, t.type_32@),
        address_bits == 64 ==> resolvable(types, TypeModel::Named { name, size, address_bits })
            == resolvable(types, t.type_64@),
        address_bits != 64 ==> resolvable(types, TypeModel::Named { name, size, address_bits })
            == resolvable(types, t.type_32@),
{
    let typ = TypeModel::Named { name, size, address_bits };
    let next = if address_bits == 64 {
        t.type_64@
    } else {
        t.type_32@
    };
    assert(alias(types, typ) == Some(next));
    law_chain_is_followed(types, next, steps);
    law_chain_is_followed(types, typ, steps + 1);
}

/// A reference to another name of a type that is itself no reference stands for
/// that type.
pub proof fn law_typedef_of_type(
    types: Entries,
    name: Seq<char>,
    t: TypeDef,
    size: u32,
    address_bits: u32,
)
    requires
        types.dom().finite(),
        types.contains_key(name),
        *types[name] == TypeInfo::TypeDef(t),
    ensures
        address_bits == 64 && !(t.type_64@ is Named) ==> resolved(
            types,
            TypeModel::Named { name, size, address_bits },
        ) == t.type_64@,
        address_bits != 64 && !(t.type_32@ is Named) ==> resolved(
            types,
            TypeModel::Named { name, size, address_bits },
        ) == t.type_32@,
{
    if address_bits == 64 && !(t.type_64@ is Named) {
        law_typedef_stands_for(types, name, t, size, address_bits, 0);
    }
    if address_bits != 64 && !(t.type_32@ is Named) {
        law_typedef_stands_for(types, name, t, size, address_bits, 0);
    }
}

/// A name is followed exactly where the database declares it to be another name
/// of a type, and to the type that is declared for the width.
pub proof fn law_alias_is_declared(types: Entries, typ: TypeModel)
    ensures
        match typ {
            TypeModel::Named { name, address_bits, .. } => alias(types, typ) == declared_alias(
                types,
                name,
                address_bits == 64,
            ),
            _ => alias(types, typ) is None,
        },
        unaliased(types, typ, 0) == typ,
        step_limit(types) == types.dom().len() + types.dom().len(),
{
}

/// Names that are one step apart lead on alike: a chain of one step more from a
/// reference is the chain from what it is declared to name.
pub proof fn law_chain_step(types: Entries, typ: TypeModel, steps: nat)
    ensures
        match typ {
            TypeModel::Named { name, address_bits, .. } => match declared_alias(
                types,
                name,
                address_bits == 64,
            ) {
                Some(next) => unaliased(types, typ, steps + 1) == unaliased(types, next, steps),
                None => unaliased(types, typ, steps + 1) == typ,
            },
            _ => unaliased(types, typ, steps + 1) == typ,
        },
{
}

/// Where offsets lead depends on nothing but what a type stands for.
pub proof fn law_pointer_type_of_alias(
    types: Entries,
    a: TypeModel,
    b: TypeModel,
    offsets: Seq<i64>,
)
    requires
        resolved(types, a) == resolved(types, b),
    ensures
        pointer_type(types, a, offsets) == pointer_type(types, b, offsets),
{
    if offsets.len() > 0 {
        let inner = offsets.drop_last();
        if inner.len() > 0 {
            assert(member_through(types, a, inner[0]) == member_through(types, b, inner[0]));
        }
    }
}

/// Through a pointer to a structure, an offset leads to the first field there:
/// the other offsets are followed from its type, and where only zero is left,
/// its name is the field that was found.
pub proof fn law_pointer_to_structure(
    types: Entries,
    typ: TypeModel,
    offset: i64,
    rest: Seq<i64>,
    at: int,
)
    requires
        rest.len() > 0,
        resolved(types, typ) is Pointer,
        resolved(types, resolved(types, typ)->Pointer_target@) is Struct,
        ({
            let fields = resolved(types, resolved(types, typ)->Pointer_target@)->Struct_fields;
            &&& 0 <= at < fields.len()
            &&& fields[at].offset == offset as usize
            &&& forall|i: int| 0 <= i < at ==> (#[trigger] fields[i]).offset != offset as usize
        }),
    ensures
        ({
            let field = resolved(types, resolved(types, typ)->Pointer_target@)->Struct_fields[at];
            &&& rest != seq![0i64] ==> pointer_type(types, typ, seq![offset] + rest)
                == pointer_type(types, field.typ@, rest)
            &&& rest == seq![0i64] ==> match resolved(types, field.typ@).type_at(0) {
                Some(found) => pointer_type(types, typ, seq![offset] + rest) == Some(
                    (found, Some(field.name)),
                ),
                None => pointer_type(types, typ, seq![offset] + rest) is None,
            }
        }),
{
    let target = resolved(types, typ)->Pointer_target@;
    let whole = resolved(types, target);
    law_member_is_first(
        whole->Struct_name,
        whole->Struct_fields,
        whole->Struct_size,
        offset as usize,
        at,
    );
    assert(whole == (TypeModel::Struct {
        name: whole->Struct_name,
        fields: whole->Struct_fields,
        size: whole->Struct_size,
    }));
    law_pointer_type_step(types, typ, offset, rest);
    if rest == seq![0i64] {
        let field = whole->Struct_fields[at];
        law_pointer_type_single(types, field.typ@, 0);
    }
}

/// Through what is no pointer, through a pointer to a structure without a field
/// there, and past the start of any other target, offsets lead nowhere. The
/// start of such a target is the target itself.
pub proof fn law_pointer_to_other(types: Entries, typ: TypeModel, offset: i64, rest: Seq<i64>)
    requires
        rest.len() > 0,
    ensures
        match resolved(types, typ) {
            TypeModel::Pointer { target, .. } => match resolved(types, target@) {
                TypeModel::Struct { fields, .. } => (forall|i: int|
                    0 <= i < fields.len() ==> (#[trigger] fields[i]).offset != offset as usize)
                    ==> pointer_type(types, typ, seq![offset] + rest) is None,
                whole => if offset as usize == 0 {
                    pointer_type(types, typ, seq![offset] + rest) == pointer_type(
                        types,
                        whole,
                        rest,
                    )
                } else {
                    pointer_type(types, typ, seq![offset] + rest) is None
                },
            },
            _ => pointer_type(types, typ, seq![offset] + rest) is None,
        },
{
    law_pointer_type_step(types, typ, offset, rest);
    if let TypeModel::Pointer { target, .. } = resolved(types, typ) {
        law_member_at(resolved(types, target@), offset as usize);
        if rest == seq![0i64] {
            law_pointer_type_single(types, resolved(types, target@), 0);
        }
    }
}

/// A single offset leads into the value itself: to the first field there with
/// its name, or, at zero, without it; or to a value that is no structure, at
/// its start alone.
pub proof fn law_last_offset(types: Entries, typ: TypeModel, offset: i64, at: int)
    ensures
        match resolved(types, typ) {
            TypeModel::Struct { fields, .. } => {
                &&& 0 <= at < fields.len() && fields[at].offset == offset as usize && (forall|
                    i: int,
                |
                    0 <= i < at ==> (#[trigger] fields[i]).offset != offset as usize)
                    ==> pointer_type(types, typ, seq![offset]) == Some(
                    (
                        fields[at].typ@,
                        if offset == 0 {
                            None
                        } else {
                            Some(fields[at].name)
                        },
                    ),
                )
                &&& (forall|i: int|
                    0 <= i < fields.len() ==> (#[trigger] fields[i]).offset != offset as usize)
                    ==> pointer_type(types, typ, seq![offset]) is None
            },
            whole => if offset as usize == 0 {
                pointer_type(types, typ, seq![offset]) == Some((whole, None::<Ustr>))
            } else {
                pointer_type(types, typ, seq![offset]) is None
            },
        },
        pointer_type(types, typ, Seq::empty()) is None,
{
    law_pointer_type_single(types, typ, offset);
    law_member_at(resolved(types, typ), offset as usize);
    if let TypeModel::Struct { name, fields, size } = resolved(types, typ) {
        if 0 <= at < fields.len() && fields[at].offset == offset as usize && (forall|i: int|
            0 <= i < at ==> (#[trigger] fields[i]).offset != offset as usize) {
            law_member_is_first(name, fields, size, offset as usize, at);
        }
    }
}

/// Where the sizes of all types in a database fit in bits, each type can be
/// resolved, each prototype made, and each row of offsets followed.
pub proof fn law_sizes_that_fit(types: Entries, typ: TypeModel, p: Prototype, offsets: Seq<i64>)
    requires
        forall|name: Seq<char>| #[trigger]
            types.contains_key(name) ==> types[name].fits(32) && types[name].fits(64),
    ensures
        resolvable(types, typ),
        p.fits_with(types, 32),
        p.fits_with(types, 64),
        TypeInfo::Prototype(p).fits_with(types, 32),
        TypeInfo::Prototype(p).fits_with(types, 64),
        followable(types, typ, offsets),
    decreases offsets.len(),
{
    assert forall|t: TypeModel| #[trigger] resolvable(types, t) by {
    }
    if offsets.len() > 0 {
        if let Some((next, _)) = member_through(types, typ, offsets[0]) {
            law_sizes_that_fit(types, next, p, offsets.drop_first());
        }
    }
}

} // verus!
