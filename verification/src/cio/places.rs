//! Tables from addresses to the types of code and data.

use crate::ir::address::{distance, lemma_distance, Address};
use crate::ir::term::{share, Term};
use crate::ir::types::{Type, TypeModel};
use ahash::AHashMap;
use vstd::prelude::*;

verus! {

/// What stands at a data address: a value of a type, or the part of one that
/// starts some bytes before, with their number.
#[derive(Debug, PartialEq)]
pub enum TypeRef {
    Type(Term<Type>),
    TRef(Address, usize),
}

impl Clone for TypeRef {
    fn clone(&self) -> (copy: Self)
        ensures
            copy == *self,
    {
        match self {
            TypeRef::Type(typ) => TypeRef::Type(share(typ)),
            TypeRef::TRef(parent, bytes) => TypeRef::TRef(*parent, *bytes),
        }
    }
}

impl TypeRef {
    /// Whether the value starts at another address.
    pub fn has_parent(&self) -> (parent: bool)
        ensures
            parent == (self is TRef),
    {
        matches!(self, TypeRef::TRef(_, _))
    }
}

/// `ahash::RandomState`: the hasher of an `AHashMap`.
#[verifier::external_type_specification]
#[verifier::external_body]
pub struct ExRandomState(ahash::RandomState);

/// `ahash::AHashMap`: a hash map.
#[verifier::external_type_specification]
#[verifier::external_body]
#[verifier::reject_recursive_types(K)]
#[verifier::reject_recursive_types(V)]
#[verifier::reject_recursive_types(S)]
pub struct ExAHashMap<K, V, S>(ahash::AHashMap<K, V, S>);

/// The types of code, by the offset of its address.
pub uninterp spec fn code_entries(code: AHashMap<u64, Term<Type>>) -> Map<u64, Term<Type>>;

/// Calls `AHashMap::new`. Claims that the map is empty.
#[verifier::external_body]
pub(crate) fn new_code() -> (code: AHashMap<u64, Term<Type>>)
    ensures
        code_entries(code).is_empty(),
{
    AHashMap::new()
}

/// Calls `AHashMap::insert`. Claims that the key has
/// the new value then, and that the others stay.
#[verifier::external_body]
pub(crate) fn code_insert(code: &mut AHashMap<u64, Term<Type>>, offset: u64, typ: Term<Type>)
    ensures
        code_entries(*final(code)) == code_entries(*old(code)).insert(offset, typ),
{
    code.insert(offset, typ);
}

/// Calls `AHashMap::get`. Claims that the result is the value under the key.
#[verifier::external_body]
pub(crate) fn code_get(code: &AHashMap<u64, Term<Type>>, offset: u64) -> (typ: Option<&Term<Type>>)
    ensures
        match typ {
            Some(t) => code_entries(*code).get(offset) == Some(*t),
            None => code_entries(*code).get(offset) is None,
        },
{
    code.get(&offset)
}

/// Calls `AHashMap::clone`. Claims that the copy holds the same: a value is
/// copied by `Arc::clone`.
#[verifier::external_body]
pub(crate) fn copy_code(code: &AHashMap<u64, Term<Type>>) -> (copy: AHashMap<u64, Term<Type>>)
    ensures
        code_entries(copy) == code_entries(*code),
{
    code.clone()
}

/// What stands at the addresses of data, by their offsets.
pub uninterp spec fn data_entries(data: AHashMap<u64, TypeRef>) -> Map<u64, TypeRef>;

/// Calls `AHashMap::new`. Claims that the map is empty.
#[verifier::external_body]
pub(crate) fn new_data() -> (data: AHashMap<u64, TypeRef>)
    ensures
        data_entries(data).is_empty(),
{
    AHashMap::new()
}

/// Calls `AHashMap::insert`. Claims that the key has
/// the new value then, and that the others stay.
#[verifier::external_body]
pub(crate) fn data_insert(data: &mut AHashMap<u64, TypeRef>, offset: u64, place: TypeRef)
    ensures
        data_entries(*final(data)) == data_entries(*old(data)).insert(offset, place),
{
    data.insert(offset, place);
}

/// Calls `AHashMap::get`. Claims that the result is the value under the key.
#[verifier::external_body]
pub(crate) fn data_get(data: &AHashMap<u64, TypeRef>, offset: u64) -> (place: Option<&TypeRef>)
    ensures
        match place {
            Some(p) => data_entries(*data).get(offset) == Some(*p),
            None => data_entries(*data).get(offset) is None,
        },
{
    data.get(&offset)
}

/// Calls `AHashMap::clone`. Claims that the copy holds the same: a value is
/// copied by `TypeRef::clone`.
#[verifier::external_body]
pub(crate) fn copy_data(data: &AHashMap<u64, TypeRef>) -> (copy: AHashMap<u64, TypeRef>)
    ensures
        data_entries(copy) == data_entries(*data),
{
    data.clone()
}

/// The data after a value was placed at an offset: its type stands there, and
/// each further byte that it takes up refers back to it. All else stays.
pub open spec fn placed(
    data: Map<u64, TypeRef>,
    start: u64,
    typ: Term<Type>,
    bytes: int,
) -> Map<u64, TypeRef> {
    Map::new(
        |offset: u64|
            data.contains_key(offset) || offset == start || distance(start, offset) < bytes,
        |offset: u64|
            if offset == start {
                TypeRef::Type(typ)
            } else if distance(start, offset) < bytes {
                TypeRef::TRef(Address { offset: start }, distance(start, offset) as usize)
            } else {
                data[offset]
            },
    )
}

/// The type of what stands at an offset: of the value that starts there, or of
/// the part of a value that was placed before it.
pub open spec fn type_of_data(data: Map<u64, TypeRef>, offset: u64) -> Option<TypeModel> {
    match data.get(offset) {
        Some(TypeRef::Type(typ)) => Some(typ@),
        Some(TypeRef::TRef(parent, bytes)) => match data.get(parent.offset) {
            Some(TypeRef::Type(typ)) => typ@.type_at(bytes),
            _ => None,
        },
        None => None,
    }
}

/// Places a value of a type at an address.
pub(crate) fn place_data(data: &mut AHashMap<u64, TypeRef>, address: Address, typ: Term<Type>)
    ensures
        data_entries(*final(data)) == placed(
            data_entries(*old(data)),
            address.offset,
            typ,
            typ@.nbytes(),
        ),
{
    let size = typ.nbytes();
    let ghost before = data_entries(*data);
    let ghost start = address.offset;
    let ghost value = typ;
    data_insert(data, address.offset, TypeRef::Type(typ));
    let mut bytes: usize = 1;
    assert(data_entries(*data) =~= placed(before, start, value, 1));
    assert(data_entries(*data) =~= placed(before, start, value, 0));
    while bytes < size
        invariant
            start == address.offset,
            1 <= bytes,
            size >= 1 ==> bytes <= size,
            size == 0 ==> bytes == 1,
            data_entries(*data) == placed(before, start, value, bytes as int),
            size == 0 ==> data_entries(*data) == placed(before, start, value, 0),
        decreases size - bytes,
    {
        let next = address.after(bytes as u64);
        data_insert(data, next.offset, TypeRef::TRef(address, bytes));
        assert forall|offset: u64|
            #![trigger distance(start, offset)]
            (distance(start, offset) == bytes) == (offset == next.offset) by {
            lemma_distance(start, offset, bytes as int);
        }
        assert(data_entries(*data) =~= placed(before, start, value, bytes + 1));
        bytes = bytes + 1;
    }
}

/// The type of what stands at an address.
pub(crate) fn data_type_at(data: &AHashMap<u64, TypeRef>, address: Address) -> (typ: Option<
    Term<Type>,
>)
    ensures
        match typ {
            Some(t) => type_of_data(data_entries(*data), address.offset) == Some(t@),
            None => type_of_data(data_entries(*data), address.offset) is None,
        },
{
    match data_get(data, address.offset) {
        Some(TypeRef::Type(typ)) => Some(share(typ)),
        Some(TypeRef::TRef(parent, bytes)) => match data_get(data, parent.offset) {
            Some(TypeRef::Type(typ)) => Type::type_at_offset(typ, *bytes),
            _ => None,
        },
        None => None,
    }
}

} // verus!
