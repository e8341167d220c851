//! The types that a database hands out, and the questions asked of them.

use crate::ir::term::{share, Term};
use crate::names::{intern, name_text};
use crate::search::{first_where, lemma_first_where_is};
use fugue::bv::BitVec;
use std::sync::Arc;
use ustr::Ustr;
use vstd::prelude::*;

verus! {

/// `fugue::bv::BitVec`: the value of an enumeration constant. The library
/// carries such values and looks into none of them.
#[verifier::external_type_specification]
#[verifier::external_body]
pub struct ExBitVec(fugue::bv::BitVec);

/// Flags of a function argument, carried from a prototype to its type.
#[derive(Clone, Copy, Debug, PartialEq, Eq, Structural)]
pub struct FunctionArgProps {
    pub flags: u32,
}

/// A constant of an enumeration, as a signed and as an unsigned value.
#[derive(Debug, PartialEq)]
pub struct EnumVariant {
    pub name: Ustr,
    pub signed: BitVec,
    pub unsigned: BitVec,
}

/// A member of a union.
#[derive(Debug, PartialEq)]
pub struct UnionVariant {
    pub name: Ustr,
    pub typ: Term<Type>,
}

/// An argument of a function type.
#[derive(Debug, PartialEq)]
pub struct FunctionArg {
    pub name: Ustr,
    pub properties: FunctionArgProps,
    pub typ: Term<Type>,
}

/// A field of a structure type, at a byte offset. A bit field has, besides,
/// the offset and the number of its bits.
#[derive(Debug, PartialEq)]
pub struct StructField {
    pub name: Ustr,
    pub offset: usize,
    pub bit_field: Option<(usize, usize)>,
    pub typ: Term<Type>,
}

impl StructField {
    pub fn new(name: Ustr, offset: usize, typ: Term<Type>) -> (field: StructField)
        ensures
            field == (StructField { name, offset, bit_field: None, typ }),
    {
        StructField { name, offset, bit_field: None, typ }
    }

    pub fn new_bit_field(
        name: Ustr,
        offset: usize,
        bit_offset: usize,
        bit_size: usize,
        typ: Term<Type>,
    ) -> (field: StructField)
        ensures
            field == (StructField { name, offset, bit_field: Some((bit_offset, bit_size)), typ }),
    {
        StructField { name, offset, bit_field: Some((bit_offset, bit_size)), typ }
    }
}

/// A type.
///
/// The sizes of structures and of named types are in bytes, the others in
/// bits. A named type is a reference into a type database, made for addresses
/// of `address_bits` bits; one that stands for a constant of an enumeration has
/// the enumeration's size in bits. A pointer with a `shift` points that many
/// bytes into its target.
#[allow(inconsistent_fields)]
#[derive(Debug, PartialEq)]
pub enum Type {
    Void,
    Scalar { bits: u32 },
    Pointer { target: Term<Type>, bits: u32, shift: i64 },
    Named { name: Ustr, size: u32, address_bits: u32 },
    Enum { name: Ustr, variants: Arc<Vec<EnumVariant>>, bits: u32 },
    Struct { name: Ustr, fields: Vec<StructField>, size: u32 },
    Union { name: Ustr, variants: Vec<UnionVariant>, bits: u32 },
    Function { rtype: Term<Type>, args: Vec<FunctionArg>, variadic: bool },
}

/// A type as a mathematical value: its lists are sequences.
#[allow(inconsistent_fields)]
#[verifier::ext_equal]
pub enum TypeModel {
    Void,
    Scalar { bits: u32 },
    Pointer { target: Term<Type>, bits: u32, shift: i64 },
    Named { name: Seq<char>, size: u32, address_bits: u32 },
    Enum { name: Ustr, variants: Seq<EnumVariant>, bits: u32 },
    Struct { name: Ustr, fields: Seq<StructField>, size: u32 },
    Union { name: Ustr, variants: Seq<UnionVariant>, bits: u32 },
    Function { rtype: Term<Type>, args: Seq<FunctionArg>, variadic: bool },
}

impl View for Type {
    type V = TypeModel;

    open spec fn view(&self) -> TypeModel {
        match *self {
            Type::Void => TypeModel::Void,
            Type::Scalar { bits } => TypeModel::Scalar { bits },
            Type::Pointer { target, bits, shift } => TypeModel::Pointer { target, bits, shift },
            Type::Named { name, size, address_bits } => TypeModel::Named {
                name: name_text(name),
                size,
                address_bits,
            },
            Type::Enum { name, variants, bits } => TypeModel::Enum {
                name,
                variants: variants@,
                bits,
            },
            Type::Struct { name, fields, size } => TypeModel::Struct {
                name,
                fields: fields@,
                size,
            },
            Type::Union { name, variants, bits } => TypeModel::Union {
                name,
                variants: variants@,
                bits,
            },
            Type::Function { rtype, args, variadic } => TypeModel::Function {
                rtype,
                args: args@,
                variadic,
            },
        }
    }
}

/// Whether a field starts at a byte offset.
pub open spec fn starts_at(offset: usize) -> spec_fn(StructField) -> bool {
    |field: StructField| field.offset == offset
}

impl TypeModel {
    /// The number of bytes that a value of the type takes up.
    pub open spec fn nbytes(self) -> int {
        match self {
            TypeModel::Void => 0,
            TypeModel::Scalar { bits } => bits as int / 8,
            TypeModel::Pointer { bits, .. } => bits as int / 8,
            TypeModel::Named { size, .. } => size as int,
            TypeModel::Enum { bits, .. } => bits as int / 8,
            TypeModel::Struct { size, .. } => size as int,
            TypeModel::Union { bits, .. } => bits as int / 8,
            TypeModel::Function { .. } => 0,
        }
    }

    /// What a pointer type points to.
    pub open spec fn pointee(self) -> Option<TypeModel> {
        match self {
            TypeModel::Pointer { target, .. } => Some(target@),
            _ => None,
        }
    }

    /// What stands at a byte offset into a value of the type: in a structure
    /// the first field that starts there, with its name; in any other type the
    /// value itself, at its start alone.
    pub open spec fn member_at(self, offset: usize) -> Option<(TypeModel, Option<Ustr>)> {
        match self {
            TypeModel::Struct { fields, .. } => {
                let i = first_where(fields, starts_at(offset));
                if i < fields.len() {
                    Some((fields[i].typ@, Some(fields[i].name)))
                } else {
                    None
                }
            },
            _ => if offset == 0 {
                Some((self, None))
            } else {
                None
            },
        }
    }

    /// The type of what stands at a byte offset.
    pub open spec fn type_at(self, offset: usize) -> Option<TypeModel> {
        match self.member_at(offset) {
            Some((typ, _)) => Some(typ),
            None => None,
        }
    }
}

impl Type {
    /// The type with `shift` more bytes on a pointer. Any other type, and a
    /// pointer whose shift would leave the range of `i64`, stays as it is.
    pub open spec fn shifted(self, by: int) -> Type {
        match self {
            Type::Pointer { target, bits, shift } if i64::MIN <= shift + by <= i64::MAX =>
                Type::Pointer { target, bits, shift: (shift + by) as i64 },
            _ => self,
        }
    }

    /// A reference to a type by name, for 32-bit addresses; `size` in bytes.
    pub fn named_32(name: &str, size: u32) -> (typ: Term<Type>)
        ensures
            typ@ == (TypeModel::Named { name: name@, size, address_bits: 32 }),
    {
        Arc::new(Type::Named { name: intern(name), size, address_bits: 32 })
    }

    /// A reference to a type by name, for 64-bit addresses; `size` in bytes.
    pub fn named_64(name: &str, size: u32) -> (typ: Term<Type>)
        ensures
            typ@ == (TypeModel::Named { name: name@, size, address_bits: 64 }),
    {
        Arc::new(Type::Named { name: intern(name), size, address_bits: 64 })
    }

    /// A structure type of `size` bytes.
    pub fn struct_from_fields(name: Ustr, fields: Vec<StructField>, size: u32) -> (typ: Term<Type>)
        ensures
            typ@ == (TypeModel::Struct { name, fields: fields@, size }),
    {
        Arc::new(Type::Struct { name, fields, size })
    }

    /// A function type.
    pub fn function_with(rtype: Term<Type>, args: Vec<FunctionArg>, variadic: bool) -> (typ: Term<
        Type,
    >)
        ensures
            typ@ == (TypeModel::Function { rtype, args: args@, variadic }),
    {
        Arc::new(Type::Function { rtype, args, variadic })
    }

    pub fn is_void(&self) -> (void: bool)
        ensures
            void == (self@ is Void),
    {
        matches!(self, Type::Void)
    }

    pub fn is_pointer(&self) -> (pointer: bool)
        ensures
            pointer == (self@ is Pointer),
    {
        matches!(self, Type::Pointer { .. })
    }

    /// What a pointer type points to.
    pub fn pointee(&self) -> (target: Option<Term<Type>>)
        ensures
            match target {
                Some(typ) => self@.pointee() == Some(typ@),
                None => self@.pointee() is None,
            },
    {
        match self {
            Type::Pointer { target, .. } => Some(share(target)),
            _ => None,
        }
    }

    /// The number of bytes that a value of the type takes up.
    pub fn nbytes(&self) -> (bytes: usize)
        ensures
            bytes == self@.nbytes(),
    {
        match self {
            Type::Void => 0,
            Type::Scalar { bits } => (*bits / 8) as usize,
            Type::Pointer { bits, .. } => (*bits / 8) as usize,
            Type::Named { size, .. } => *size as usize,
            Type::Enum { bits, .. } => (*bits / 8) as usize,
            Type::Struct { size, .. } => *size as usize,
            Type::Union { bits, .. } => (*bits / 8) as usize,
            Type::Function { .. } => 0,
        }
    }

    /// The pointer type that points `by` more bytes into its target, if the
    /// type is a pointer and the shift stays in the range of `i64`.
    pub fn apply_shift(&self, by: i64) -> (typ: Option<Term<Type>>)
        ensures
            typ is Some <==> (*self matches Type::Pointer { shift, .. } && i64::MIN <= shift + by
                <= i64::MAX),
            typ matches Some(t) ==> *t == self.shifted(by as int),
    {
        match self {
            Type::Pointer { target, bits, shift } => match shift.checked_add(by) {
                Some(total) => Some(
                    Arc::new(Type::Pointer { target: share(target), bits: *bits, shift: total }),
                ),
                None => None,
            },
            _ => None,
        }
    }

    /// What stands at a byte offset into a value of the type, with the name of
    /// the field if the type is a structure.
    pub fn field_and_type_at_offset(this: &Term<Type>, offset: usize) -> (member: Option<
        (Term<Type>, Option<Ustr>),
    >)
        ensures
            match member {
                Some((typ, field)) => this@.member_at(offset) == Some((typ@, field)),
                None => this@.member_at(offset) is None,
            },
    {
        match &**this {
            Type::Struct { fields, .. } => {
                let mut i: usize = 0;
                while i < fields.len()
                    invariant
                        i <= fields@.len(),
                        forall|j: int| 0 <= j < i ==> !starts_at(offset)(#[trigger] fields@[j]),
                        this@ matches TypeModel::Struct { fields: all, .. } && all == fields@,
                    decreases fields@.len() - i,
                {
                    if fields[i].offset == offset {
                        proof {
                            lemma_first_where_is(fields@, starts_at(offset), i as int);
                        }
                        return Some((share(&fields[i].typ), Some(fields[i].name)));
                    }
                    i = i + 1;
                }
                proof {
                    lemma_first_where_is(fields@, starts_at(offset), i as int);
                }
                None
            },
            _ => if offset == 0 {
                Some((share(this), None))
            } else {
                None
            },
        }
    }

    /// The type of what stands at a byte offset into a value of the type.
    pub fn type_at_offset(this: &Term<Type>, offset: usize) -> (typ: Option<Term<Type>>)
        ensures
            match typ {
                Some(t) => this@.type_at(offset) == Some(t@),
                None => this@.type_at(offset) is None,
            },
    {
        match Type::field_and_type_at_offset(this, offset) {
            Some((typ, _)) => Some(typ),
            None => None,
        }
    }
}

} // verus!
