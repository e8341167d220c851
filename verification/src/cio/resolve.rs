//! What a named type stands for, and what a pointer leads to.

use crate::cio::info::{lower_args, lowered_args, Arg, Prototype, TypeInfo};
use crate::cio::table::{table_entries, table_get, table_len, Entries, TypeTable};
use crate::ir::term::{share, Term};
use crate::ir::types::{Type, TypeModel};
use crate::names::name_str;
use ustr::Ustr;
use vstd::prelude::*;

verus! {

/// What is known of the name of a named type.
pub open spec fn info_of(types: Entries, typ: TypeModel) -> Option<Term<TypeInfo>> {
    match typ {
        TypeModel::Named { name, .. } => types.get(name),
        _ => None,
    }
}

/// The width of the target that a named type was made for: 64 bits, or else
/// 32.
pub open spec fn target_bits(typ: TypeModel) -> u32 {
    match typ {
        TypeModel::Named { address_bits, .. } if address_bits == 64 => 64,
        _ => 32,
    }
}

/// The type that a named type is another name of.
pub open spec fn alias(types: Entries, typ: TypeModel) -> Option<TypeModel> {
    match info_of(types, typ) {
        Some(info) => match *info {
            TypeInfo::TypeDef(def) => Some(def.target(target_bits(typ))@),
            _ => None,
        },
        None => None,
    }
}

/// The type at the end of a chain of names, or after so many steps.
pub open spec fn unaliased(types: Entries, typ: TypeModel, steps: nat) -> TypeModel
    decreases steps,
{
    match alias(types, typ) {
        Some(next) if steps > 0 => unaliased(types, next, (steps - 1) as nat),
        _ => typ,
    }
}

/// How many steps a chain of names is followed: as many as there are names for
/// the two kinds of targets. A longer chain leads back to itself.
pub open spec fn step_limit(types: Entries) -> nat {
    2 * types.dom().len()
}

/// What a type stands for: a named type stands for the type at the end of its
/// chain of names, and for what the table says of that one. Names that lead
/// back to themselves are followed up to a limit.
pub open spec fn resolved(types: Entries, typ: TypeModel) -> TypeModel {
    let last = unaliased(types, typ, step_limit(types));
    match (info_of(types, last), alias(types, last)) {
        (Some(info), None) => info.lowered(target_bits(last)),
        _ => last,
    }
}

/// Whether the size of what a type stands for is a `u32` in bits.
pub open spec fn resolvable(types: Entries, typ: TypeModel) -> bool {
    let last = unaliased(types, typ, step_limit(types));
    info_of(types, last) matches Some(info) ==> info.fits(target_bits(last))
}

/// What a type stands for, by a table of types.
pub(crate) fn resolve_in(types: &TypeTable, typ: &Term<Type>) -> (found: Term<Type>)
    requires
        resolvable(table_entries(*types), typ@),
    ensures
        table_entries(*types).dom().finite(),
        found@ == resolved(table_entries(*types), typ@),
{
    lower_in(types, unaliased_in(types, typ))
}

/// The type at the end of a chain of names, or at the limit.
fn unaliased_in(types: &TypeTable, typ: &Term<Type>) -> (last: Term<Type>)
    ensures
        table_entries(*types).dom().finite(),
        last@ == unaliased(
            table_entries(*types),
            typ@,
            step_limit(table_entries(*types)),
        ),
{
    let limit: u128 = table_len(types) as u128 * 2;
    let ghost entries = table_entries(*types);
    let mut steps: u128 = 0;
    let mut last = share(typ);
    while steps < limit
        invariant
            steps <= limit,
            entries == table_entries(*types),
            entries.dom().finite(),
            limit == step_limit(entries),
            unaliased(entries, typ@, limit as nat) == unaliased(
                entries,
                last@,
                (limit - steps) as nat,
            ),
        decreases limit - steps,
    {
        match alias_in(types, &last) {
            Some(next) => {
                last = next;
            },
            None => {
                return last;
            },
        }
        steps = steps + 1;
    }
    last
}

/// Whether the size of what a type stands for is a `u32` in bits.
pub(crate) fn resolvable_in(types: &TypeTable, typ: &Term<Type>) -> (can: bool)
    ensures
        table_entries(*types).dom().finite(),
        can == resolvable(table_entries(*types), typ@),
{
    let last = unaliased_in(types, typ);
    match &*last {
        Type::Named { name, address_bits, .. } => match table_get(types, name_str(name)) {
            Some(info) => info.is_sized(
                if *address_bits == 64 {
                    64
                } else {
                    32
                },
            ),
            None => true,
        },
        _ => true,
    }
}

fn alias_in(types: &TypeTable, typ: &Term<Type>) -> (next: Option<Term<Type>>)
    ensures
        match next {
            Some(t) => alias(table_entries(*types), typ@) == Some(t@),
            None => alias(table_entries(*types), typ@) is None,
        },
{
    match &**typ {
        Type::Named { name, address_bits, .. } => match table_get(types, name_str(name)) {
            Some(info) => match &**info {
                TypeInfo::TypeDef(def) => if *address_bits == 64 {
                    Some(def.to_64())
                } else {
                    Some(def.to_32())
                },
                _ => None,
            },
            None => None,
        },
        _ => None,
    }
}

fn lower_in(types: &TypeTable, last: Term<Type>) -> (found: Term<Type>)
    requires
        info_of(table_entries(*types), last@) matches Some(info) ==> info.fits(target_bits(last@)),
    ensures
        found@ == match (
            info_of(table_entries(*types), last@),
            alias(table_entries(*types), last@),
        ) {
            (Some(info), None) => info.lowered(target_bits(last@)),
            _ => last@,
        },
{
    match &*last {
        Type::Named { name, address_bits, .. } => match table_get(types, name_str(name)) {
            Some(info) if !info.is_typedef() => if *address_bits == 64 {
                info.to_64()
            } else {
                info.to_32()
            },
            _ => last,
        },
        _ => last,
    }
}

/// The member of what a pointer type points to.
pub open spec fn member_through(types: Entries, typ: TypeModel, offset: i64) -> Option<
    (TypeModel, Option<Ustr>),
> {
    match resolved(types, typ).pointee() {
        Some(target) => resolved(types, target).member_at(offset as usize),
        None => None,
    }
}

/// The type that is reached through one pointer for each offset, and the name
/// of the last field on the way.
pub open spec fn follow(
    types: Entries,
    typ: TypeModel,
    field: Option<Ustr>,
    offsets: Seq<i64>,
) -> Option<(TypeModel, Option<Ustr>)>
    decreases offsets.len(),
{
    if offsets.len() == 0 {
        Some((typ, field))
    } else {
        match member_through(types, typ, offsets[0]) {
            Some((next, name)) => follow(types, next, name, offsets.drop_first()),
            None => None,
        }
    }
}

/// Whether each type on the way through the pointers can be resolved.
pub open spec fn followable(types: Entries, typ: TypeModel, offsets: Seq<i64>) -> bool
    decreases offsets.len(),
{
    &&& resolvable(types, typ)
    &&& offsets.len() > 0 ==> {
        &&& resolved(types, typ).pointee() matches Some(target) ==> resolvable(types, target)
        &&& member_through(types, typ, offsets[0]) matches Some((next, _)) ==> followable(
            types,
            next,
            offsets.drop_first(),
        )
    }
}

/// The type at the last offset into what the other offsets lead to, and the
/// name of the last field on the way. The start of a value counts as no field.
pub open spec fn pointer_type(types: Entries, typ: TypeModel, offsets: Seq<i64>) -> Option<
    (TypeModel, Option<Ustr>),
> {
    if offsets.len() == 0 {
        None
    } else {
        match follow(types, typ, None, offsets.drop_last()) {
            Some((end, field)) => if offsets.last() == 0 {
                match resolved(types, end).type_at(0) {
                    Some(found) => Some((found, field)),
                    None => None,
                }
            } else {
                resolved(types, end).member_at(offsets.last() as usize)
            },
            None => None,
        }
    }
}

pub(crate) fn pointer_type_in(types: &TypeTable, rtype: &Term<Type>, offsets: &[i64]) -> (found:
    Option<(Term<Type>, Option<Ustr>)>)
    requires
        offsets@.len() > 0 ==> followable(table_entries(*types), rtype@, offsets@.drop_last()),
    ensures
        match found {
            Some((typ, field)) => pointer_type(table_entries(*types), rtype@, offsets@) == Some(
                (typ@, field),
            ),
            None => pointer_type(table_entries(*types), rtype@, offsets@) is None,
        },
{
    if offsets.len() == 0 {
        return None;
    }
    let ghost entries = table_entries(*types);
    let ghost inner = offsets@.drop_last();
    let count: usize = offsets.len() - 1;
    let last: i64 = offsets[count];
    let mut typ = share(rtype);
    let mut last_field: Option<Ustr> = None;
    let mut i: usize = 0;
    assert(inner.skip(0) =~= inner);
    while i < count
        invariant
            i <= count,
            count == offsets@.len() - 1,
            last == offsets@.last(),
            entries == table_entries(*types),
            inner == offsets@.drop_last(),
            follow(entries, rtype@, None, inner) == follow(
                entries,
                typ@,
                last_field,
                inner.skip(i as int),
            ),
            followable(entries, typ@, inner.skip(i as int)),
        decreases count - i,
    {
        assert(inner.skip(i as int).drop_first() =~= inner.skip(i + 1));
        assert(inner.skip(i as int)[0] == offsets@[i as int]);
        let pointer = resolve_in(types, &typ);
        let target = match pointer.pointee() {
            Some(target) => target,
            None => {
                return None;
            },
        };
        let target = resolve_in(types, &target);
        match Type::field_and_type_at_offset(&target, offsets[i] as usize) {
            Some((next, name)) => {
                typ = next;
                last_field = name;
            },
            None => {
                return None;
            },
        }
        i = i + 1;
    }
    assert(inner.skip(i as int).len() == 0);
    let end = resolve_in(types, &typ);
    if last == 0 {
        match Type::type_at_offset(&end, 0) {
            Some(found) => Some((found, last_field)),
            None => None,
        }
    } else {
        Type::field_and_type_at_offset(&end, last as usize)
    }
}

/// Whether each type on the way to the last offset can be resolved.
pub(crate) fn followable_in(types: &TypeTable, rtype: &Term<Type>, offsets: &[i64]) -> (can: bool)
    ensures
        can == (offsets@.len() > 0 ==> followable(
            table_entries(*types),
            rtype@,
            offsets@.drop_last(),
        )),
{
    if offsets.len() == 0 {
        return true;
    }
    let ghost entries = table_entries(*types);
    let ghost inner = offsets@.drop_last();
    let count: usize = offsets.len() - 1;
    let mut typ = share(rtype);
    let mut i: usize = 0;
    assert(inner.skip(0) =~= inner);
    while i < count
        invariant
            i <= count,
            count == offsets@.len() - 1,
            entries == table_entries(*types),
            inner == offsets@.drop_last(),
            followable(entries, rtype@, inner) == followable(entries, typ@, inner.skip(i as int)),
        decreases count - i,
    {
        assert(inner.skip(i as int).drop_first() =~= inner.skip(i + 1));
        assert(inner.skip(i as int)[0] == offsets@[i as int]);
        if !resolvable_in(types, &typ) {
            return false;
        }
        let pointer = resolve_in(types, &typ);
        let target = match pointer.pointee() {
            Some(target) => target,
            None => {
                return true;
            },
        };
        if !resolvable_in(types, &target) {
            return false;
        }
        let target = resolve_in(types, &target);
        match Type::field_and_type_at_offset(&target, offsets[i] as usize) {
            Some((next, _)) => {
                typ = next;
            },
            None => {
                return true;
            },
        }
        i = i + 1;
    }
    assert(inner.skip(i as int).len() == 0);
    resolvable_in(types, &typ)
}

/// Whether a list of arguments is a single `void`, under whatever name.
pub open spec fn is_void_list(types: Entries, args: Seq<Arg>) -> bool {
    args.len() == 1 && resolved(types, args[0].typ@) is Void
}

fn void_list(types: &TypeTable, args: &Vec<Arg>) -> (void: bool)
    requires
        args@.len() == 1 ==> resolvable(table_entries(*types), args@[0].typ@),
    ensures
        void == is_void_list(table_entries(*types), args@),
{
    args.len() == 1 && resolve_in(types, &args[0].typ).is_void()
}

impl Prototype {
    /// The function type for a target of `bits` bits. A single `void` is no
    /// argument.
    pub open spec fn lowered_with(self, types: Entries, bits: u32) -> TypeModel {
        TypeModel::Function {
            rtype: self.rtype(bits),
            args: if is_void_list(types, self.atypes(bits)) {
                Seq::empty()
            } else {
                lowered_args(self.atypes(bits))
            },
            variadic: self.variadic,
        }
    }

    /// Whether the type of a single argument can be resolved.
    pub open spec fn fits_with(self, types: Entries, bits: u32) -> bool {
        self.atypes(bits).len() == 1 ==> resolvable(types, self.atypes(bits)[0].typ@)
    }

    pub(crate) fn to_32_in(&self, types: &TypeTable) -> (typ: Term<Type>)
        requires
            self.fits_with(table_entries(*types), 32),
        ensures
            typ@ == self.lowered_with(table_entries(*types), 32),
    {
        let args = if void_list(types, &self.atypes_32) {
            Vec::new()
        } else {
            lower_args(&self.atypes_32)
        };
        Type::function_with(share(&self.rtype_32), args, self.variadic)
    }

    pub(crate) fn to_64_in(&self, types: &TypeTable) -> (typ: Term<Type>)
        requires
            self.fits_with(table_entries(*types), 64),
        ensures
            typ@ == self.lowered_with(table_entries(*types), 64),
    {
        let args = if void_list(types, &self.atypes_64) {
            Vec::new()
        } else {
            lower_args(&self.atypes_64)
        };
        Type::function_with(share(&self.rtype_64), args, self.variadic)
    }
}

impl TypeInfo {
    /// The type for a target of `bits` bits, where the names in a prototype
    /// are looked up in a table of types.
    pub open spec fn lowered_with(self, types: Entries, bits: u32) -> TypeModel {
        match self {
            TypeInfo::Prototype(p) => p.lowered_with(types, bits),
            _ => self.lowered(bits),
        }
    }

    pub open spec fn fits_with(self, types: Entries, bits: u32) -> bool {
        match self {
            TypeInfo::Prototype(p) => p.fits_with(types, bits),
            _ => self.fits(bits),
        }
    }
}

} // verus!
