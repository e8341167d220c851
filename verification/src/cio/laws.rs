//! What holds of type databases as a whole.

use crate::cio::db::{TypeDBModel, TypeInfoModel};
use crate::cio::info::{field_named, lowered_fields, variant_named, Field, Struct, TypeInfo};
use crate::cio::places::{placed, type_of_data, TypeRef};
use crate::cio::property::{
    decimal_value, digits_value, is_decimal, is_space, shift_number, shift_sign, shifted_operand,
    trim_end, trim_start, unsigned_part, Property,
};
use crate::cio::resolve::{
    alias, follow, info_of, is_void_list, member_through, pointer_type, resolved, step_limit,
    target_bits, unaliased,
};
use crate::cio::table::Entries;
use crate::ir::address::distance;
use crate::ir::term::Term;
use crate::ir::types::{Type, TypeModel};
use crate::names::name_text;
use crate::search::{first_where, lemma_first_where, lemma_first_where_is};
use ustr::Ustr;
use vstd::prelude::*;

verus! {

/// A value that was placed is read back: at its start its own type, at each
/// further byte the type of what stands there in it. What stands at the other
/// addresses stays.
pub proof fn law_placed_is_read(
    data: Map<u64, TypeRef>,
    start: u64,
    typ: Term<Type>,
    offset: u64,
)
    ensures
        type_of_data(placed(data, start, typ, typ@.nbytes()), start) == Some(typ@),
        offset != start && distance(start, offset) < typ@.nbytes() ==> type_of_data(
            placed(data, start, typ, typ@.nbytes()),
            offset,
        ) == typ@.type_at(distance(start, offset) as usize),
        offset != start && distance(start, offset) >= typ@.nbytes() ==> placed(
            data,
            start,
            typ,
            typ@.nbytes(),
        ).get(offset) == data.get(offset),
{
}

/// A value that was placed changes the type of no other, unless it covers its
/// start or the address that is asked for.
pub proof fn law_placed_keeps_others(
    data: Map<u64, TypeRef>,
    start: u64,
    typ: Term<Type>,
    offset: u64,
)
    requires
        offset != start,
        distance(start, offset) >= typ@.nbytes(),
        data.get(offset) matches Some(TypeRef::TRef(parent, _)) ==> parent.offset != start
            && distance(start, parent.offset) >= typ@.nbytes(),
    ensures
        type_of_data(placed(data, start, typ, typ@.nbytes()), offset) == type_of_data(data, offset),
{
}

/// A value that takes up as much as the one before it at the same address
/// leaves no trace of it.
pub proof fn law_placed_twice(
    data: Map<u64, TypeRef>,
    start: u64,
    first: Term<Type>,
    second: Term<Type>,
)
    requires
        first@.nbytes() <= second@.nbytes(),
    ensures
        placed(
            placed(data, start, first, first@.nbytes()),
            start,
            second,
            second@.nbytes(),
        ) == placed(data, start, second, second@.nbytes()),
{
    assert(placed(
        placed(data, start, first, first@.nbytes()),
        start,
        second,
        second@.nbytes(),
    ) =~= placed(data, start, second, second@.nbytes()));
}

/// A merge knows what either database knows. Where both know a name, the second
/// one's entry stays.
pub proof fn law_merge_prefers_second(a: TypeInfoModel, b: TypeInfoModel, name: Seq<char>)
    ensures
        a.merged(b).types.get(name) == if b.types.contains_key(name) {
            b.types.get(name)
        } else {
            a.types.get(name)
        },
        a.merged(b).prototypes.get(name) == if b.prototypes.contains_key(name) {
            b.prototypes.get(name)
        } else {
            a.prototypes.get(name)
        },
{
}

/// An empty database adds nothing, and is replaced by what is merged into it.
pub proof fn law_merge_empty(a: TypeInfoModel, empty: TypeInfoModel)
    requires
        empty.is_empty(),
    ensures
        a.merged(empty) == a,
        empty.merged(a) == a,
{
    assert(a.merged(empty) =~= a);
    assert(empty.merged(a) =~= a);
}

/// A database that is merged again changes nothing.
pub proof fn law_merge_again(a: TypeInfoModel, b: TypeInfoModel)
    ensures
        a.merged(b).merged(b) == a.merged(b),
        b.merged(a.merged(b)) == a.merged(b),
{
    assert(a.merged(b).merged(b) =~= a.merged(b));
    assert(b.merged(a.merged(b)) =~= a.merged(b));
}

/// Databases can be merged one by one, or those to come first.
pub proof fn law_merge_associative(a: TypeInfoModel, b: TypeInfoModel, c: TypeInfoModel)
    ensures
        a.merged(b).merged(c) == a.merged(b.merged(c)),
{
    assert(a.merged(b).merged(c) =~= a.merged(b.merged(c)));
}

/// Databases without a name in common can be merged in any order.
pub proof fn law_merge_disjoint(a: TypeInfoModel, b: TypeInfoModel)
    requires
        a.types.dom().disjoint(b.types.dom()),
        a.prototypes.dom().disjoint(b.prototypes.dom()),
    ensures
        a.merged(b) == b.merged(a),
{
    assert(a.merged(b) =~= b.merged(a));
}

/// A database is empty exactly if it has no entry to count.
pub proof fn law_empty_has_no_entries(db: TypeInfoModel)
    requires
        db.is_finite(),
    ensures
        db.is_empty() <==> db.len() == 0,
{
    if db.len() == 0 {
        vstd::set_lib::lemma_set_empty_equivalency_len(db.types.dom());
        vstd::set_lib::lemma_set_empty_equivalency_len(db.prototypes.dom());
        assert(db.types =~= Map::empty());
        assert(db.prototypes =~= Map::empty());
    }
}

/// An entry under a new name adds one to the count, and one under a name that
/// has an entry adds none.
pub proof fn law_insert_counts(db: TypeInfoModel, name: Seq<char>, info: Term<TypeInfo>)
    requires
        db.is_finite(),
    ensures
        ({
            let after = TypeInfoModel { types: db.types.insert(name, info), ..db };
            after.is_finite() && after.len() == if db.types.contains_key(name) {
                db.len()
            } else {
                db.len() + 1
            }
        }),
        ({
            let after = TypeInfoModel { prototypes: db.prototypes.insert(name, info), ..db };
            after.is_finite() && after.len() == if db.prototypes.contains_key(name) {
                db.len()
            } else {
                db.len() + 1
            }
        }),
{
    assert(db.types.insert(name, info).dom() =~= db.types.dom().insert(name));
    assert(db.prototypes.insert(name, info).dom() =~= db.prototypes.dom().insert(name));
}

/// A merge counts at least what either database counts, and at most both.
pub proof fn law_merge_counts(a: TypeInfoModel, b: TypeInfoModel)
    requires
        a.is_finite(),
        b.is_finite(),
    ensures
        a.merged(b).is_finite(),
        a.len() <= a.merged(b).len() <= a.len() + b.len(),
        b.len() <= a.merged(b).len(),
{
    lemma_union_counts(a.types, b.types);
    lemma_union_counts(a.prototypes, b.prototypes);
}

proof fn lemma_union_counts(a: Entries, b: Entries)
    requires
        a.dom().finite(),
        b.dom().finite(),
    ensures
        a.union_prefer_right(b).dom().finite(),
        a.dom().len() <= a.union_prefer_right(b).dom().len() <= a.dom().len() + b.dom().len(),
        b.dom().len() <= a.union_prefer_right(b).dom().len(),
{
    let both = a.dom().union(b.dom());
    assert(a.union_prefer_right(b).dom() =~= both);
    vstd::set_lib::lemma_len_union(a.dom(), b.dom());
    vstd::set_lib::lemma_len_subset(a.dom(), both);
    vstd::set_lib::lemma_len_subset(b.dom(), both);
}

/// A copy of what is known of a type makes the same types, and has the same
/// fields and constants.
pub proof fn law_copy_lowers_the_same(info: TypeInfo, copy: TypeInfo, name: Seq<char>, bits: u32)
    requires
        copy.same_as(info),
    ensures
        copy.lowered(bits) == info.lowered(bits),
        copy.fits(bits) == info.fits(bits),
        copy.variant_of(name, bits) == info.variant_of(name, bits),
        copy.field_of(name, bits) == info.field_of(name, bits),
{
    if let (TypeInfo::Struct(s), TypeInfo::Struct(c)) = (info, copy) {
        let fields = s.fields(bits);
        let copies = c.fields(bits);
        assert(lowered_fields(copies, bits) =~= lowered_fields(fields, bits));
        lemma_first_where(fields, field_named(name));
        let at = first_where(fields, field_named(name));
        assert forall|i: int| 0 <= i < copies.len() implies field_named(name)(#[trigger] copies[i])
            == field_named(name)(fields[i]) by {
            assert(copies[i].same_as(fields[i]));
        }
        assert forall|i: int| 0 <= i < at implies !field_named(name)(#[trigger] copies[i]) by {
            assert(!field_named(name)(fields[i]));
        }
        lemma_first_where_is(copies, field_named(name), at);
    }
}

/// An entry that was inserted is found under its name, and the others stay.
/// Types and prototypes do not get in each other's way.
pub proof fn law_insert_then_get(
    db: TypeDBModel,
    name: Seq<char>,
    info: Term<TypeInfo>,
    other: Seq<char>,
)
    ensures
        db.with_type_entries(db.inner.types.insert(name, info)).inner.types.get(name) == Some(info),
        other != name ==> db.with_type_entries(
            db.inner.types.insert(name, info),
        ).inner.types.get(other) == db.inner.types.get(other),
        db.with_type_entries(db.inner.types.insert(name, info)).inner.prototypes
            == db.inner.prototypes,
        db.with_prototype_entries(
            db.inner.prototypes.insert(name, info),
        ).inner.prototypes.get(name) == Some(info),
        other != name ==> db.with_prototype_entries(
            db.inner.prototypes.insert(name, info),
        ).inner.prototypes.get(other) == db.inner.prototypes.get(other),
        db.with_prototype_entries(db.inner.prototypes.insert(name, info)).inner.types
            == db.inner.types,
{
}

/// A property leaves a type that is no pointer as it is.
pub proof fn law_property_shifts_pointers(property: Property, bits: u32, typ: Type)
    requires
        !(typ is Pointer),
    ensures
        typ.shifted(property.shift(bits)) == typ,
{
}

/// A shift is undone by the opposite one, unless it left the range.
pub proof fn law_shift_undone(typ: Type, by: int)
    requires
        typ matches Type::Pointer { shift, .. } ==> i64::MIN <= shift + by <= i64::MAX,
    ensures
        typ.shifted(by).shifted(-by) == typ,
{
}

/// Shifts that stay in range add up.
pub proof fn law_shifts_add(typ: Type, first: int, second: int)
    requires
        typ matches Type::Pointer { shift, .. } ==> i64::MIN <= shift + first <= i64::MAX
            && i64::MIN <= shift + first + second <= i64::MAX,
    ensures
        typ.shifted(first).shifted(second) == typ.shifted(first + second),
{
}

/// The two shifts by a pointer's size are opposite.
pub proof fn law_pointer_size_shifts(bits: u32)
    ensures
        Property::ShiftedPointerUsize(true).shift(bits) == -Property::ShiftedPointerUsize(
            false,
        ).shift(bits),
        Property::ShiftedPointerUsize(false).shift(32) == 4,
        Property::ShiftedPointerUsize(false).shift(64) == 8,
{
}

/// Whether a text is white space.
pub open spec fn all_space(text: Seq<char>) -> bool {
    forall|i: int| 0 <= i < text.len() ==> is_space(#[trigger] text[i])
}

proof fn lemma_trim_start(space: Seq<char>, text: Seq<char>)
    requires
        all_space(space),
        text.len() > 0 ==> !is_space(text[0]),
    ensures
        trim_start(space + text) == text,
    decreases space.len(),
{
    if space.len() == 0 {
        assert(space + text =~= text);
    } else {
        assert((space + text).drop_first() =~= space.drop_first() + text);
        assert forall|i: int| 0 <= i < space.drop_first().len() implies is_space(
            #[trigger] space.drop_first()[i],
        ) by {
            assert(space.drop_first()[i] == space[i + 1]);
        }
        lemma_trim_start(space.drop_first(), text);
    }
}

proof fn lemma_trim_end(text: Seq<char>, space: Seq<char>)
    requires
        all_space(space),
        text.len() > 0 ==> !is_space(text.last()),
    ensures
        trim_end(text + space) == text,
    decreases space.len(),
{
    if space.len() == 0 {
        assert(text + space =~= text);
    } else {
        assert((text + space).drop_last() =~= text + space.drop_last());
        assert((text + space).last() == space.last());
        assert(is_space(space[space.len() - 1]));
        lemma_trim_end(text, space.drop_last());
    }
}

/// White space around the operand of `__shifted(..)` makes no difference.
pub proof fn law_property_spaces(before: Seq<char>, operand: Seq<char>, after: Seq<char>)
    requires
        all_space(before),
        all_space(after),
        operand.len() > 0,
        !is_space(operand[0]),
        !is_space(operand.last()),
    ensures
        shifted_operand("__shifted("@ + before + operand + after + seq![')']) == Some(operand),
{
    let open = "__shifted("@;
    let text = open + before + operand + after + seq![')'];
    assert(text.take(open.len() as int) =~= open);
    assert(text.last() == ')');
    let inner = text.subrange(open.len() as int, text.len() - 1);
    assert(inner =~= before + (operand + after));
    lemma_trim_start(before, operand + after);
    lemma_trim_end(operand, after);
}

/// The decimal digits of a number.
pub open spec fn digits_of(value: nat) -> Seq<char>
    decreases value,
{
    let last = ('0' as int + value % 10) as char;
    if value < 10 {
        seq![last]
    } else {
        digits_of(value / 10).push(last)
    }
}

pub proof fn lemma_digits_of(value: nat)
    ensures
        digits_of(value).len() > 0,
        forall|i: int|
            0 <= i < digits_of(value).len() ==> '0' <= #[trigger] digits_of(value)[i] <= '9',
        digits_value(digits_of(value)) == value,
    decreases value,
{
    let digits = digits_of(value);
    reveal_with_fuel(digits_value, 2);
    if value < 10 {
        assert(digits.drop_last() =~= Seq::<char>::empty());
    } else {
        lemma_digits_of(value / 10);
        assert(digits.drop_last() =~= digits_of(value / 10));
    }
}

/// The text of a shift by a number.
pub open spec fn shift_text(shift: i64) -> Seq<char> {
    if shift < 0 {
        seq!['-'] + digits_of((-shift) as nat)
    } else {
        digits_of(shift as nat)
    }
}

/// Each shift can be written: `__shifted(..)` around its decimal digits is read
/// back as that shift, white space around them or not.
pub proof fn law_property_written(shift: i64, before: Seq<char>, after: Seq<char>)
    requires
        all_space(before),
        all_space(after),
    ensures
        shift_number("__shifted("@ + before + shift_text(shift) + after + seq![')']) == Some(
            shift_text(shift),
        ),
        decimal_value(shift_text(shift)) == shift,
{
    let text = shift_text(shift);
    if shift < 0 {
        let digits = digits_of((-shift) as nat);
        lemma_digits_of((-shift) as nat);
        assert(text[0] == '-');
        assert(unsigned_part(text) =~= digits);
        assert(text.last() == digits.last());
    } else {
        lemma_digits_of(shift as nat);
        assert('0' <= text[0] <= '9');
        assert(unsigned_part(text) == text);
    }
    assert('0' <= text[text.len() - 1] <= '9');
    law_property_spaces(before, text, after);
}

/// No text is a shift both by a number and by a pointer's size.
pub proof fn law_property_kinds_apart(text: Seq<char>)
    ensures
        shift_number(text) is None || shift_sign(text) is None,
{
    reveal_strlit("-pointer-size");
    reveal_strlit("+pointer-size");
    if let Some(operand) = shifted_operand(text) {
        if operand == "-pointer-size"@ || operand == "+pointer-size"@ {
            assert(unsigned_part(operand)[0] == 'p');
            assert(!is_decimal(operand));
        }
    }
}

/// A reference by name to a type is as large as the type.
pub proof fn law_typedef_size(info: TypeInfo, types: Entries, name: Seq<char>, bits: u32)
    ensures
        (TypeModel::Named {
            name,
            size: info.lowered_with(types, bits).nbytes() as u32,
            address_bits: bits,
        }).nbytes() == info.lowered_with(types, bits).nbytes(),
{
}

/// What a type stands for stands for itself, unless names led back to
/// themselves.
pub proof fn law_resolved_again(types: Entries, typ: TypeModel)
    requires
        alias(types, unaliased(types, typ, step_limit(types))) is None,
    ensures
        resolved(types, resolved(types, typ)) == resolved(types, typ),
{
}

/// A name that the database does not know stands for itself, and so does a type
/// that is no name.
pub proof fn law_resolved_unknown(types: Entries, typ: TypeModel)
    requires
        info_of(types, typ) is None,
    ensures
        resolved(types, typ) == typ,
{
}

/// A reference by name to a type that is no other name stands for that type.
pub proof fn law_reference_resolves(
    types: Entries,
    name: Seq<char>,
    info: TypeInfo,
    size: u32,
    bits: u32,
)
    requires
        types.get(name) matches Some(known) && *known == info,
        !(info is TypeDef),
        bits == 32 || bits == 64,
    ensures
        resolved(types, TypeModel::Named { name, size, address_bits: bits }) == info.lowered(bits),
{
}

/// More steps after the end of a chain of names lead nowhere.
proof fn lemma_unaliased_stays(types: Entries, typ: TypeModel, steps: nat, more: nat)
    requires
        steps <= more,
        alias(types, unaliased(types, typ, steps)) is None,
    ensures
        unaliased(types, typ, more) == unaliased(types, typ, steps),
    decreases steps,
{
    if let Some(next) = alias(types, typ) {
        if steps > 0 {
            lemma_unaliased_stays(types, next, (steps - 1) as nat, (more - 1) as nat);
        }
    }
}

/// The name of a type in a chain of names, and whether it is meant for a 64-bit
/// target.
pub open spec fn link(typ: TypeModel) -> (Seq<char>, bool) {
    match typ {
        TypeModel::Named { name, .. } => (name, target_bits(typ) == 64),
        _ => (Seq::empty(), false),
    }
}

proof fn lemma_chain_link(types: Entries, typ: TypeModel, at: nat, steps: nat)
    requires
        at <= steps,
        alias(types, unaliased(types, typ, steps)) is Some,
    ensures
        alias(types, unaliased(types, typ, at)) is Some,
        types.contains_key(link(unaliased(types, typ, at)).0),
    decreases steps,
{
    if alias(types, typ) is None {
        assert(unaliased(types, typ, steps) == typ);
    } else if at > 0 {
        lemma_chain_link(types, alias(types, typ)->0, (at - 1) as nat, (steps - 1) as nat);
    }
}

/// A chain of names that goes on past the limit leads back to itself: it comes
/// to a name for the same kind of target twice.
pub proof fn law_long_chain_returns(types: Entries, typ: TypeModel)
    requires
        types.dom().finite(),
        alias(types, unaliased(types, typ, step_limit(types))) is Some,
    ensures
        exists|first: nat, second: nat|
            first < second <= step_limit(types) && link(#[trigger] unaliased(types, typ, first))
                == link(#[trigger] unaliased(types, typ, second)),
{
    let limit = step_limit(types);
    let links = Seq::new(limit + 1, |i: int| link(unaliased(types, typ, i as nat)));
    let narrow = types.dom().map(|name: Seq<char>| (name, false));
    let wide = types.dom().map(|name: Seq<char>| (name, true));
    vstd::set_lib::lemma_map_size_bound(
        types.dom(),
        narrow,
        |name: Seq<char>| (name, false),
    );
    vstd::set_lib::lemma_map_size_bound(types.dom(), wide, |name: Seq<char>| (name, true));
    vstd::set_lib::lemma_set_disjoint_lens(narrow, wide);
    assert forall|pair: (Seq<char>, bool)| links.to_set().contains(pair) implies (narrow
        + wide).contains(pair) by {
        let i = choose|i: int| 0 <= i < links.len() && links[i] == pair;
        lemma_chain_link(types, typ, i as nat, limit);
        assert(types.dom().contains(pair.0));
    }
    vstd::set_lib::lemma_len_subset(links.to_set(), narrow + wide);
    if links.no_duplicates() {
        links.unique_seq_to_set();
    }
    let (i, j) = choose|i: int, j: int|
        0 <= i < links.len() && 0 <= j < links.len() && i != j && links[i] == links[j];
    if i < j {
        assert(link(unaliased(types, typ, i as nat)) == link(unaliased(types, typ, j as nat)));
    } else {
        assert(link(unaliased(types, typ, j as nat)) == link(unaliased(types, typ, i as nat)));
    }
}

proof fn lemma_chain_in_parts(types: Entries, typ: TypeModel, first: nat, second: nat)
    ensures
        unaliased(types, typ, first + second) == unaliased(
            types,
            unaliased(types, typ, first),
            second,
        ),
    decreases first,
{
    match alias(types, typ) {
        Some(next) if first > 0 => {
            lemma_chain_in_parts(types, next, (first - 1) as nat, second);
        },
        _ => {},
    }
}

proof fn lemma_returning_chain_goes_on(
    types: Entries,
    typ: TypeModel,
    first: nat,
    second: nat,
    steps: nat,
)
    requires
        first < second,
        alias(types, unaliased(types, typ, second)) is Some,
        link(unaliased(types, typ, first)) == link(unaliased(types, typ, second)),
    ensures
        alias(types, unaliased(types, typ, steps)) is Some,
    decreases steps,
{
    if steps <= second {
        lemma_chain_link(types, typ, steps, second);
    } else {
        lemma_chain_link(types, typ, first, second);
        let more = (steps - second - 1) as nat;
        lemma_chain_in_parts(types, typ, first, 1 + more);
        lemma_chain_in_parts(types, typ, second, 1 + more);
        let start = unaliased(types, typ, first);
        let again = unaliased(types, typ, second);
        assert(alias(types, start) == alias(types, again));
        assert(unaliased(types, start, 1 + more) == unaliased(types, again, 1 + more));
        lemma_returning_chain_goes_on(types, typ, first, second, (first + 1 + more) as nat);
    }
}

/// A chain of names that has an end is followed to it.
pub proof fn law_chain_is_followed(types: Entries, typ: TypeModel, steps: nat)
    requires
        types.dom().finite(),
        alias(types, unaliased(types, typ, steps)) is None,
    ensures
        unaliased(types, typ, step_limit(types)) == unaliased(types, typ, steps),
        alias(types, unaliased(types, typ, step_limit(types))) is None,
{
    let limit = step_limit(types);
    if alias(types, unaliased(types, typ, limit)) is Some {
        law_long_chain_returns(types, typ);
        let (first, second) = choose|first: nat, second: nat|
            first < second <= limit && link(#[trigger] unaliased(types, typ, first)) == link(
                #[trigger] unaliased(types, typ, second),
            );
        lemma_chain_link(types, typ, second, limit);
        lemma_returning_chain_goes_on(types, typ, first, second, steps);
    }
    if steps <= limit {
        lemma_unaliased_stays(types, typ, steps, limit);
    } else {
        lemma_unaliased_stays(types, typ, limit, steps);
    }
}

/// Another name of a type stands for what that type stands for, if the chain of
/// names has an end.
pub proof fn law_resolved_alias(types: Entries, typ: TypeModel, next: TypeModel, steps: nat)
    requires
        types.dom().finite(),
        alias(types, typ) == Some(next),
        alias(types, unaliased(types, next, steps)) is None,
    ensures
        resolved(types, typ) == resolved(types, next),
{
    law_chain_is_followed(types, next, steps);
    law_chain_is_followed(types, typ, steps + 1);
}

/// A database matters to a prototype's type only where its single argument is
/// `void`, and to no other type.
pub proof fn law_lowered_with(info: TypeInfo, types: Entries, bits: u32)
    ensures
        match info {
            TypeInfo::Prototype(p) if is_void_list(types, p.atypes(bits)) => info.lowered_with(
                types,
                bits,
            ) == (TypeModel::Function {
                rtype: p.rtype(bits),
                args: Seq::empty(),
                variadic: p.variadic,
            }),
            _ => info.lowered_with(types, bits) == info.lowered(bits),
        },
{
}

/// A structure's field is found exactly if it has one of the name, and it is
/// the first of that name.
pub proof fn law_field_is_first(s: Struct, name: Seq<char>, bits: u32)
    ensures
        match (TypeInfo::Struct(s)).field_of(name, bits) {
            Some((offset, typ)) => exists|i: int|
                0 <= i < s.fields(bits).len() && name_text((#[trigger] s.fields(bits)[i]).name)
                    == name && s.fields(bits)[i].offset == offset && s.fields(bits)[i].typ == typ && (
                forall|j: int|
                    0 <= j < i ==> name_text((#[trigger] s.fields(bits)[j]).name) != name),
            None => forall|i: int|
                0 <= i < s.fields(bits).len() ==> name_text((#[trigger] s.fields(bits)[i]).name)
                    != name,
        },
{
    let fields = s.fields(bits);
    lemma_first_where(fields, field_named(name));
    let at = first_where(fields, field_named(name));
    assert forall|j: int| 0 <= j < at implies name_text((#[trigger] fields[j]).name) != name by {
        assert(!field_named(name)(fields[j]));
    }
    if at < fields.len() {
        assert(name_text(fields[at].name) == name);
    }
}

/// A constant is found exactly if the information is on an enumeration that has
/// one of the name, and it is the first of that name.
pub proof fn law_variant_is_first(info: TypeInfo, name: Seq<char>, bits: u32)
    ensures
        match info.variant_at(name, bits) {
            Some(at) => info matches TypeInfo::Enum(e) && 0 <= at < e.variants(bits).len()
                && name_text(e.variants(bits)[at].name) == name && (forall|j: int|
                0 <= j < at ==> name_text((#[trigger] e.variants(bits)[j]).name) != name),
            None => info matches TypeInfo::Enum(e) ==> forall|j: int|
                0 <= j < e.variants(bits).len() ==> name_text(
                    (#[trigger] e.variants(bits)[j]).name,
                ) != name,
        },
        info.variant_of(name, bits) is Some <==> info.variant_at(name, bits) is Some,
{
    if let TypeInfo::Enum(e) = info {
        let variants = e.variants(bits);
        lemma_first_where(variants, variant_named(name));
        let at = first_where(variants, variant_named(name));
        assert forall|j: int| 0 <= j < at implies name_text((#[trigger] variants[j]).name)
            != name by {
            assert(!variant_named(name)(variants[j]));
        }
    }
}

/// The type of a structure has its fields in order, with their names and
/// offsets. A field without properties has the type that it declares.
pub proof fn law_struct_keeps_fields(fields: Seq<Field>, bits: u32, at: int)
    requires
        0 <= at < fields.len(),
    ensures
        lowered_fields(fields, bits).len() == fields.len(),
        lowered_fields(fields, bits)[at].name == fields[at].name,
        lowered_fields(fields, bits)[at].offset == fields[at].offset,
        lowered_fields(fields, bits)[at].bit_field == fields[at].bit_field,
        fields[at].properties@.len() == 0 ==> lowered_fields(fields, bits)[at].typ
            == fields[at].typ,
{
}

/// Offsets can be followed in two parts.
pub proof fn law_follow_in_parts(
    types: Entries,
    typ: TypeModel,
    field: Option<Ustr>,
    first: Seq<i64>,
    second: Seq<i64>,
)
    ensures
        follow(types, typ, field, first + second) == match follow(types, typ, field, first) {
            Some((next, name)) => follow(types, next, name, second),
            None => None,
        },
    decreases first.len(),
{
    if first.len() == 0 {
        assert(first + second =~= second);
    } else {
        assert((first + second).drop_first() =~= first.drop_first() + second);
        if let Some((next, name)) = member_through(types, typ, first[0]) {
            law_follow_in_parts(types, next, name, first.drop_first(), second);
        }
    }
}

proof fn lemma_follow_field(
    types: Entries,
    typ: TypeModel,
    first: Option<Ustr>,
    second: Option<Ustr>,
    offsets: Seq<i64>,
)
    requires
        offsets.len() > 0,
    ensures
        follow(types, typ, first, offsets) == follow(types, typ, second, offsets),
{
}

/// The first of several offsets is followed through a pointer, and the others
/// from what stands there. Without a pointer, or with nothing there, they lead
/// nowhere. The name of the field that was found is kept where the only offset
/// left is zero, which finds no field of its own.
pub proof fn law_pointer_type_step(types: Entries, typ: TypeModel, offset: i64, rest: Seq<i64>)
    requires
        rest.len() > 0,
    ensures
        pointer_type(types, typ, seq![offset] + rest) == match member_through(types, typ, offset) {
            None => None,
            Some((next, field)) => if rest == seq![0i64] {
                match pointer_type(types, next, rest) {
                    Some((found, _)) => Some((found, field)),
                    None => None,
                }
            } else {
                pointer_type(types, next, rest)
            },
        },
{
    let offsets = seq![offset] + rest;
    let inner = rest.drop_last();
    assert(offsets.drop_last() =~= seq![offset] + inner);
    assert(offsets.last() == rest.last());
    assert((seq![offset] + inner).drop_first() =~= inner);
    if let Some((next, field)) = member_through(types, typ, offset) {
        if inner.len() > 0 {
            lemma_follow_field(types, next, field, None, inner);
        } else if rest.last() == 0 {
            assert(rest =~= seq![0i64]);
        }
    }
}

/// No offset leads nowhere. A single one is not followed through a pointer: at
/// zero stands the type itself, without a field's name, unless it is a
/// structure, whose first field is meant.
pub proof fn law_pointer_type_single(types: Entries, typ: TypeModel, offset: i64)
    ensures
        pointer_type(types, typ, Seq::empty()) is None,
        offset == 0 ==> pointer_type(types, typ, seq![offset]) == match resolved(types, typ).type_at(
            0,
        ) {
            Some(found) => Some((found, None::<Ustr>)),
            None => None,
        },
        offset != 0 ==> pointer_type(types, typ, seq![offset]) == resolved(types, typ).member_at(
            offset as usize,
        ),
        !(resolved(types, typ) is Struct) ==> pointer_type(types, typ, seq![0i64]) == Some(
            (resolved(types, typ), None::<Ustr>),
        ),
{
    assert(seq![offset].drop_last() =~= Seq::<i64>::empty());
    assert(seq![0i64].drop_last() =~= Seq::<i64>::empty());
}

} // verus!
