//! What is known of a named type or prototype, for 32-bit and for 64-bit
//! targets.

use crate::cio::property::Property;
use crate::ir::term::{share, Term};
use crate::ir::types::{
    EnumVariant, FunctionArg, FunctionArgProps, StructField, Type, TypeModel, UnionVariant,
};
use crate::names::{intern, name_str, name_text, same_name};
use crate::search::{first_where, lemma_first_where_is};
use fugue::bv::BitVec;
use std::sync::Arc;
use ustr::Ustr;
use vstd::prelude::*;

verus! {

/// An enumeration; sizes in bytes.
#[derive(Debug, PartialEq)]
pub struct Enum {
    pub name: Ustr,
    pub size_32: usize,
    pub size_64: usize,
    pub variants_32: Arc<Vec<EnumVariant>>,
    pub variants_64: Arc<Vec<EnumVariant>>,
}

/// A structure; sizes in bytes.
#[derive(Debug, PartialEq)]
pub struct Struct {
    pub name: Ustr,
    pub size_32: usize,
    pub size_64: usize,
    pub fields_32: Vec<Field>,
    pub fields_64: Vec<Field>,
}

/// A field of a structure, with what it declares of its type.
#[derive(Debug, PartialEq)]
pub struct Field {
    pub name: Ustr,
    pub properties: Vec<Property>,
    pub offset: usize,
    pub size: usize,
    pub typ: Term<Type>,
    pub bit_field: Option<(usize, usize)>,
}

/// A function's prototype.
#[derive(Debug, PartialEq)]
pub struct Prototype {
    pub name: Ustr,
    pub rtype_32: Term<Type>,
    pub rtype_64: Term<Type>,
    pub atypes_32: Vec<Arg>,
    pub atypes_64: Vec<Arg>,
    pub variadic: bool,
}

/// An argument of a prototype.
#[derive(Debug, PartialEq)]
pub struct Arg {
    pub name: Ustr,
    pub properties: FunctionArgProps,
    pub typ: Term<Type>,
}

/// Another name of a type.
#[derive(Debug, PartialEq)]
pub struct TypeDef {
    pub name: Ustr,
    pub type_32: Term<Type>,
    pub type_64: Term<Type>,
}

/// A union; sizes in bytes.
#[derive(Debug, PartialEq)]
pub struct Union {
    pub name: Ustr,
    pub size_32: usize,
    pub size_64: usize,
    pub variants_32: Vec<UnionVariant>,
    pub variants_64: Vec<UnionVariant>,
}

/// What is known of a name.
#[derive(Debug, PartialEq)]
pub enum TypeInfo {
    Enum(Enum),
    Struct(Struct),
    Prototype(Prototype),
    TypeDef(TypeDef),
    Union(Union),
}

impl Clone for Enum {
    fn clone(&self) -> (copy: Self)
        ensures
            copy == *self,
    {
        Enum {
            name: self.name,
            size_32: self.size_32,
            size_64: self.size_64,
            variants_32: share(&self.variants_32),
            variants_64: share(&self.variants_64),
        }
    }
}

impl Field {
    /// Whether two fields declare the same.
    pub open spec fn same_as(self, other: Field) -> bool {
        &&& self.name == other.name
        &&& self.properties@ == other.properties@
        &&& self.offset == other.offset
        &&& self.size == other.size
        &&& self.typ == other.typ
        &&& self.bit_field == other.bit_field
    }
}

impl Clone for Field {
    fn clone(&self) -> (copy: Self)
        ensures
            copy.same_as(*self),
    {
        let mut properties: Vec<Property> = Vec::new();
        let mut i: usize = 0;
        while i < self.properties.len()
            invariant
                i <= self.properties@.len(),
                properties@ == self.properties@.take(i as int),
            decreases self.properties@.len() - i,
        {
            properties.push(self.properties[i]);
            i = i + 1;
        }
        assert(properties@ =~= self.properties@);
        Field {
            name: self.name,
            properties,
            offset: self.offset,
            size: self.size,
            typ: share(&self.typ),
            bit_field: self.bit_field,
        }
    }
}

/// Whether two lists of fields declare the same, in the same order.
pub open spec fn same_fields(fields: Seq<Field>, others: Seq<Field>) -> bool {
    &&& fields.len() == others.len()
    &&& forall|i: int| 0 <= i < fields.len() ==> (#[trigger] fields[i]).same_as(others[i])
}

fn copy_fields(fields: &Vec<Field>) -> (copy: Vec<Field>)
    ensures
        same_fields(copy@, fields@),
{
    let mut copy: Vec<Field> = Vec::new();
    let mut i: usize = 0;
    while i < fields.len()
        invariant
            i <= fields@.len(),
            same_fields(copy@, fields@.take(i as int)),
        decreases fields@.len() - i,
    {
        copy.push(fields[i].clone());
        i = i + 1;
    }
    assert(fields@.take(i as int) =~= fields@);
    copy
}

impl Struct {
    /// Whether two structures declare the same.
    pub open spec fn same_as(self, other: Struct) -> bool {
        &&& self.name == other.name
        &&& self.size_32 == other.size_32
        &&& self.size_64 == other.size_64
        &&& same_fields(self.fields_32@, other.fields_32@)
        &&& same_fields(self.fields_64@, other.fields_64@)
    }
}

impl Clone for Struct {
    fn clone(&self) -> (copy: Self)
        ensures
            copy.same_as(*self),
    {
        Struct {
            name: self.name,
            size_32: self.size_32,
            size_64: self.size_64,
            fields_32: copy_fields(&self.fields_32),
            fields_64: copy_fields(&self.fields_64),
        }
    }
}

impl Clone for Arg {
    fn clone(&self) -> (copy: Self)
        ensures
            copy == *self,
    {
        Arg { name: self.name, properties: self.properties, typ: share(&self.typ) }
    }
}

fn copy_args(args: &Vec<Arg>) -> (copy: Vec<Arg>)
    ensures
        copy@ == args@,
{
    let mut copy: Vec<Arg> = Vec::new();
    let mut i: usize = 0;
    while i < args.len()
        invariant
            i <= args@.len(),
            copy@ == args@.take(i as int),
        decreases args@.len() - i,
    {
        copy.push(args[i].clone());
        i = i + 1;
    }
    assert(copy@ =~= args@);
    copy
}

impl Prototype {
    /// Whether two prototypes declare the same.
    pub open spec fn same_as(self, other: Prototype) -> bool {
        &&& self.name == other.name
        &&& self.rtype_32 == other.rtype_32
        &&& self.rtype_64 == other.rtype_64
        &&& self.atypes_32@ == other.atypes_32@
        &&& self.atypes_64@ == other.atypes_64@
        &&& self.variadic == other.variadic
    }
}

impl Clone for Prototype {
    fn clone(&self) -> (copy: Self)
        ensures
            copy.same_as(*self),
    {
        Prototype {
            name: self.name,
            rtype_32: share(&self.rtype_32),
            rtype_64: share(&self.rtype_64),
            atypes_32: copy_args(&self.atypes_32),
            atypes_64: copy_args(&self.atypes_64),
            variadic: self.variadic,
        }
    }
}

impl Clone for TypeDef {
    fn clone(&self) -> (copy: Self)
        ensures
            copy == *self,
    {
        TypeDef {
            name: self.name,
            type_32: share(&self.type_32),
            type_64: share(&self.type_64),
        }
    }
}

impl Union {
    /// Whether two unions declare the same.
    pub open spec fn same_as(self, other: Union) -> bool {
        &&& self.name == other.name
        &&& self.size_32 == other.size_32
        &&& self.size_64 == other.size_64
        &&& self.variants_32@ == other.variants_32@
        &&& self.variants_64@ == other.variants_64@
    }
}

impl Clone for Union {
    fn clone(&self) -> (copy: Self)
        ensures
            copy.same_as(*self),
    {
        Union {
            name: self.name,
            size_32: self.size_32,
            size_64: self.size_64,
            variants_32: copy_variants(&self.variants_32),
            variants_64: copy_variants(&self.variants_64),
        }
    }
}

impl TypeInfo {
    /// Whether the same is known of two names.
    pub open spec fn same_as(self, other: TypeInfo) -> bool {
        match (self, other) {
            (TypeInfo::Enum(a), TypeInfo::Enum(b)) => a == b,
            (TypeInfo::Struct(a), TypeInfo::Struct(b)) => a.same_as(b),
            (TypeInfo::Prototype(a), TypeInfo::Prototype(b)) => a.same_as(b),
            (TypeInfo::TypeDef(a), TypeInfo::TypeDef(b)) => a == b,
            (TypeInfo::Union(a), TypeInfo::Union(b)) => a.same_as(b),
            _ => false,
        }
    }
}

impl Clone for TypeInfo {
    fn clone(&self) -> (copy: Self)
        ensures
            copy.same_as(*self),
    {
        match self {
            TypeInfo::Enum(e) => TypeInfo::Enum(e.clone()),
            TypeInfo::Struct(s) => TypeInfo::Struct(s.clone()),
            TypeInfo::Prototype(p) => TypeInfo::Prototype(p.clone()),
            TypeInfo::TypeDef(t) => TypeInfo::TypeDef(t.clone()),
            TypeInfo::Union(u) => TypeInfo::Union(u.clone()),
        }
    }
}

/// Whether a size in bytes, cut to 32 bits, is a `u32` in bits too.
pub open spec fn bits_fit(bytes: usize) -> bool {
    (bytes as u32) * 8 <= u32::MAX
}

/// Whether a size in bytes, cut to 32 bits, is a `u32` in bits too.
pub fn has_bits(bytes: usize) -> (fits: bool)
    ensures
        fits == bits_fit(bytes),
{
    (bytes as u32) <= u32::MAX / 8
}

/// A size in bytes, cut to 32 bits, in bits.
pub open spec fn bits_of(bytes: usize) -> u32 {
    ((bytes as u32) * 8) as u32
}

/// A type after each property was applied to it, the first one first.
pub open spec fn apply_all(typ: Type, properties: Seq<Property>, bits: u32) -> Type
    decreases properties.len(),
{
    if properties.len() == 0 {
        typ
    } else {
        apply_all(typ, properties.drop_last(), bits).shifted(properties.last().shift(bits))
    }
}

impl Field {
    /// The field of the structure type for a target of `bits` bits.
    pub open spec fn lowered(self, bits: u32) -> StructField {
        StructField {
            name: self.name,
            offset: self.offset,
            bit_field: self.bit_field,
            typ: Arc::new(apply_all(*self.typ, self.properties@, bits)),
        }
    }

    fn lower(&self, bits: u32) -> (field: StructField)
        ensures
            field == self.lowered(bits),
    {
        let mut typ = share(&self.typ);
        let mut i: usize = 0;
        while i < self.properties.len()
            invariant
                i <= self.properties@.len(),
                *typ == apply_all(*self.typ, self.properties@.take(i as int), bits),
            decreases self.properties@.len() - i,
        {
            typ = self.properties[i].apply(bits, typ);
            assert(self.properties@.take(i + 1).drop_last() =~= self.properties@.take(i as int));
            i = i + 1;
        }
        assert(self.properties@.take(i as int) =~= self.properties@);
        match self.bit_field {
            Some((offset, size)) => StructField::new_bit_field(
                self.name,
                self.offset,
                offset,
                size,
                typ,
            ),
            None => StructField::new(self.name, self.offset, typ),
        }
    }
}

/// The fields of the structure type for a target of `bits` bits.
pub open spec fn lowered_fields(fields: Seq<Field>, bits: u32) -> Seq<StructField> {
    Seq::new(fields.len(), |i: int| fields[i].lowered(bits))
}

fn lower_fields(fields: &Vec<Field>, bits: u32) -> (lowered: Vec<StructField>)
    ensures
        lowered@ == lowered_fields(fields@, bits),
{
    let mut lowered: Vec<StructField> = Vec::new();
    let mut i: usize = 0;
    while i < fields.len()
        invariant
            i <= fields@.len(),
            lowered@ == lowered_fields(fields@.take(i as int), bits),
        decreases fields@.len() - i,
    {
        lowered.push(fields[i].lower(bits));
        assert(lowered_fields(fields@.take(i + 1), bits) =~= lowered_fields(
            fields@.take(i as int),
            bits,
        ).push(fields@[i as int].lowered(bits)));
        i = i + 1;
    }
    assert(fields@.take(i as int) =~= fields@);
    lowered
}

impl Struct {
    pub open spec fn fields(self, bits: u32) -> Seq<Field> {
        if bits == 64 {
            self.fields_64@
        } else {
            self.fields_32@
        }
    }

    pub open spec fn size(self, bits: u32) -> usize {
        if bits == 64 {
            self.size_64
        } else {
            self.size_32
        }
    }

    /// The structure type for a target of `bits` bits.
    pub open spec fn lowered(self, bits: u32) -> TypeModel {
        TypeModel::Struct {
            name: self.name,
            fields: lowered_fields(self.fields(bits), bits),
            size: self.size(bits) as u32,
        }
    }

    pub fn to_32(&self) -> (typ: Term<Type>)
        ensures
            typ@ == self.lowered(32),
    {
        Type::struct_from_fields(self.name, lower_fields(&self.fields_32, 32), self.size_32 as u32)
    }

    pub fn to_64(&self) -> (typ: Term<Type>)
        ensures
            typ@ == self.lowered(64),
    {
        Type::struct_from_fields(self.name, lower_fields(&self.fields_64, 64), self.size_64 as u32)
    }
}

/// The arguments of the function type.
pub open spec fn lowered_args(args: Seq<Arg>) -> Seq<FunctionArg> {
    Seq::new(
        args.len(),
        |i: int|
            FunctionArg { name: args[i].name, properties: args[i].properties, typ: args[i].typ },
    )
}

pub(crate) fn lower_args(args: &Vec<Arg>) -> (lowered: Vec<FunctionArg>)
    ensures
        lowered@ == lowered_args(args@),
{
    let mut lowered: Vec<FunctionArg> = Vec::new();
    let mut i: usize = 0;
    while i < args.len()
        invariant
            i <= args@.len(),
            lowered@ == lowered_args(args@.take(i as int)),
        decreases args@.len() - i,
    {
        lowered.push(
            FunctionArg {
                name: args[i].name,
                properties: args[i].properties,
                typ: share(&args[i].typ),
            },
        );
        assert(lowered@ =~= lowered_args(args@.take(i + 1)));
        i = i + 1;
    }
    assert(args@.take(i as int) =~= args@);
    lowered
}

impl Prototype {
    pub open spec fn rtype(self, bits: u32) -> Term<Type> {
        if bits == 64 {
            self.rtype_64
        } else {
            self.rtype_32
        }
    }

    pub open spec fn atypes(self, bits: u32) -> Seq<Arg> {
        if bits == 64 {
            self.atypes_64@
        } else {
            self.atypes_32@
        }
    }

    /// The function type for a target of `bits` bits.
    pub open spec fn lowered(self, bits: u32) -> TypeModel {
        TypeModel::Function {
            rtype: self.rtype(bits),
            args: lowered_args(self.atypes(bits)),
            variadic: self.variadic,
        }
    }

    pub fn to_32(&self) -> (typ: Term<Type>)
        ensures
            typ@ == self.lowered(32),
    {
        Type::function_with(share(&self.rtype_32), lower_args(&self.atypes_32), self.variadic)
    }

    pub fn to_64(&self) -> (typ: Term<Type>)
        ensures
            typ@ == self.lowered(64),
    {
        Type::function_with(share(&self.rtype_64), lower_args(&self.atypes_64), self.variadic)
    }
}

impl Enum {
    pub open spec fn variants(self, bits: u32) -> Seq<EnumVariant> {
        if bits == 64 {
            self.variants_64@
        } else {
            self.variants_32@
        }
    }

    pub open spec fn size(self, bits: u32) -> usize {
        if bits == 64 {
            self.size_64
        } else {
            self.size_32
        }
    }

    /// The enumeration type for a target of `bits` bits.
    pub open spec fn lowered(self, bits: u32) -> TypeModel {
        TypeModel::Enum {
            name: self.name,
            variants: self.variants(bits),
            bits: bits_of(self.size(bits)),
        }
    }

    pub fn to_32(&self) -> (typ: Term<Type>)
        requires
            bits_fit(self.size_32),
        ensures
            typ@ == self.lowered(32),
    {
        Arc::new(
            Type::Enum {
                name: self.name,
                variants: share(&self.variants_32),
                bits: self.size_32 as u32 * 8,
            },
        )
    }

    pub fn to_64(&self) -> (typ: Term<Type>)
        requires
            bits_fit(self.size_64),
        ensures
            typ@ == self.lowered(64),
    {
        Arc::new(
            Type::Enum {
                name: self.name,
                variants: share(&self.variants_64),
                bits: self.size_64 as u32 * 8,
            },
        )
    }
}

impl TypeDef {
    /// The type that the name stands for, on a target of `bits` bits.
    pub open spec fn target(self, bits: u32) -> Term<Type> {
        if bits == 64 {
            self.type_64
        } else {
            self.type_32
        }
    }

    pub fn to_32(&self) -> (typ: Term<Type>)
        ensures
            typ == self.target(32),
    {
        share(&self.type_32)
    }

    pub fn to_64(&self) -> (typ: Term<Type>)
        ensures
            typ == self.target(64),
    {
        share(&self.type_64)
    }
}

fn copy_variants(variants: &Vec<UnionVariant>) -> (copy: Vec<UnionVariant>)
    ensures
        copy@ == variants@,
{
    let mut copy: Vec<UnionVariant> = Vec::new();
    let mut i: usize = 0;
    while i < variants.len()
        invariant
            i <= variants@.len(),
            copy@ == variants@.take(i as int),
        decreases variants@.len() - i,
    {
        copy.push(UnionVariant { name: variants[i].name, typ: share(&variants[i].typ) });
        assert(copy@ =~= variants@.take(i + 1));
        i = i + 1;
    }
    assert(variants@.take(i as int) =~= variants@);
    copy
}

impl Union {
    pub open spec fn variants(self, bits: u32) -> Seq<UnionVariant> {
        if bits == 64 {
            self.variants_64@
        } else {
            self.variants_32@
        }
    }

    pub open spec fn size(self, bits: u32) -> usize {
        if bits == 64 {
            self.size_64
        } else {
            self.size_32
        }
    }

    /// The union type for a target of `bits` bits.
    pub open spec fn lowered(self, bits: u32) -> TypeModel {
        TypeModel::Union {
            name: self.name,
            variants: self.variants(bits),
            bits: bits_of(self.size(bits)),
        }
    }

    pub fn to_32(&self) -> (typ: Term<Type>)
        requires
            bits_fit(self.size_32),
        ensures
            typ@ == self.lowered(32),
    {
        Arc::new(
            Type::Union {
                name: self.name,
                variants: copy_variants(&self.variants_32),
                bits: self.size_32 as u32 * 8,
            },
        )
    }

    pub fn to_64(&self) -> (typ: Term<Type>)
        requires
            bits_fit(self.size_64),
        ensures
            typ@ == self.lowered(64),
    {
        Arc::new(
            Type::Union {
                name: self.name,
                variants: copy_variants(&self.variants_64),
                bits: self.size_64 as u32 * 8,
            },
        )
    }
}

/// Whether a constant has a name.
pub open spec fn variant_named(name: Seq<char>) -> spec_fn(EnumVariant) -> bool {
    |variant: EnumVariant| name_text(variant.name) == name
}

/// Whether a field has a name.
pub open spec fn field_named(name: Seq<char>) -> spec_fn(Field) -> bool {
    |field: Field| name_text(field.name) == name
}

fn find_variant(variants: &Vec<EnumVariant>, name: Ustr) -> (at: usize)
    ensures
        at == first_where(variants@, variant_named(name_text(name))),
        at <= variants@.len(),
{
    let mut i: usize = 0;
    while i < variants.len() && !same_name(variants[i].name, name)
        invariant
            i <= variants@.len(),
            forall|j: int|
                0 <= j < i ==> !variant_named(name_text(name))(#[trigger] variants@[j]),
        decreases variants@.len() - i,
    {
        i = i + 1;
    }
    proof {
        lemma_first_where_is(variants@, variant_named(name_text(name)), i as int);
    }
    i
}

fn find_field(fields: &Vec<Field>, name: Ustr) -> (at: usize)
    ensures
        at == first_where(fields@, field_named(name_text(name))),
        at <= fields@.len(),
{
    let mut i: usize = 0;
    while i < fields.len() && !same_name(fields[i].name, name)
        invariant
            i <= fields@.len(),
            forall|j: int| 0 <= j < i ==> !field_named(name_text(name))(#[trigger] fields@[j]),
        decreases fields@.len() - i,
    {
        i = i + 1;
    }
    proof {
        lemma_first_where_is(fields@, field_named(name_text(name)), i as int);
    }
    i
}

/// `enumeration::constant`.
fn variant_path(name: &Ustr, variant: &str) -> (path: String)
    ensures
        path@ == name_text(*name) + "::"@ + variant@,
{
    let mut path = String::new();
    path.append(name_str(name));
    path.append("::");
    path.append(variant);
    assert(path@ =~= name_text(*name) + "::"@ + variant@);
    path
}

impl TypeInfo {
    pub fn is_prototype(&self) -> (is: bool)
        ensures
            is == (self is Prototype),
    {
        matches!(self, TypeInfo::Prototype(_))
    }

    pub fn is_enum(&self) -> (is: bool)
        ensures
            is == (self is Enum),
    {
        matches!(self, TypeInfo::Enum(_))
    }

    pub fn is_struct(&self) -> (is: bool)
        ensures
            is == (self is Struct),
    {
        matches!(self, TypeInfo::Struct(_))
    }

    pub fn is_typedef(&self) -> (is: bool)
        ensures
            is == (self is TypeDef),
    {
        matches!(self, TypeInfo::TypeDef(_))
    }

    pub fn is_union(&self) -> (is: bool)
        ensures
            is == (self is Union),
    {
        matches!(self, TypeInfo::Union(_))
    }

    /// The position of the constant with the name, if the information is on
    /// an enumeration that has one.
    pub open spec fn variant_at(self, name: Seq<char>, bits: u32) -> Option<int> {
        match self {
            TypeInfo::Enum(e) => {
                let i = first_where(e.variants(bits), variant_named(name));
                if i < e.variants(bits).len() {
                    Some(i)
                } else {
                    None
                }
            },
            _ => None,
        }
    }

    /// The constant's two values, and the name of the constant as a type.
    pub open spec fn variant_of(self, name: Seq<char>, bits: u32) -> Option<
        (BitVec, BitVec, TypeModel),
    > {
        match (self, self.variant_at(name, bits)) {
            (TypeInfo::Enum(e), Some(i)) => Some(
                (
                    e.variants(bits)[i].signed,
                    e.variants(bits)[i].unsigned,
                    TypeModel::Named {
                        name: name_text(e.name) + "::"@ + name,
                        size: bits_of(e.size(bits)),
                        address_bits: bits,
                    },
                ),
            ),
            _ => None,
        }
    }

    /// Whether the size of the type, where it is handed out in bits, is a
    /// `u32`.
    pub fn is_sized(&self, bits: u32) -> (sized: bool)
        ensures
            sized == self.fits(bits),
    {
        match self {
            TypeInfo::Enum(e) => has_bits(
                if bits == 64 {
                    e.size_64
                } else {
                    e.size_32
                },
            ),
            TypeInfo::Union(u) => has_bits(
                if bits == 64 {
                    u.size_64
                } else {
                    u.size_32
                },
            ),
            _ => true,
        }
    }

    /// A constant of an enumeration, for a target of `bits` bits. The size of
    /// the type is the enumeration's, in bits.
    pub fn enum_variant(&self, name: &str, bits: u32) -> (variant: Option<
        (&BitVec, &BitVec, Term<Type>),
    >)
        requires
            bits == 32 || bits == 64,
            self.variant_at(name@, bits) is Some ==> self.fits(bits),
        ensures
            match variant {
                Some((signed, unsigned, typ)) => self.variant_of(name@, bits) == Some(
                    (*signed, *unsigned, typ@),
                ),
                None => self.variant_of(name@, bits) is None,
            },
    {
        if bits == 64 {
            self.enum_variant_64(name)
        } else {
            self.enum_variant_32(name)
        }
    }

    pub fn enum_variant_32(&self, name: &str) -> (variant: Option<(&BitVec, &BitVec, Term<Type>)>)
        requires
            self.variant_at(name@, 32) is Some ==> self.fits(32),
        ensures
            match variant {
                Some((signed, unsigned, typ)) => self.variant_of(name@, 32) == Some(
                    (*signed, *unsigned, typ@),
                ),
                None => self.variant_of(name@, 32) is None,
            },
    {
        match self {
            TypeInfo::Enum(e) => {
                let at = find_variant(&e.variants_32, intern(name));
                if at < e.variants_32.len() {
                    let variant = &e.variants_32[at];
                    Some(
                        (
                            &variant.signed,
                            &variant.unsigned,
                            Type::named_32(
                                variant_path(&e.name, name).as_str(),
                                e.size_32 as u32 * 8,
                            ),
                        ),
                    )
                } else {
                    None
                }
            },
            _ => None,
        }
    }

    pub fn enum_variant_64(&self, name: &str) -> (variant: Option<(&BitVec, &BitVec, Term<Type>)>)
        requires
            self.variant_at(name@, 64) is Some ==> self.fits(64),
        ensures
            match variant {
                Some((signed, unsigned, typ)) => self.variant_of(name@, 64) == Some(
                    (*signed, *unsigned, typ@),
                ),
                None => self.variant_of(name@, 64) is None,
            },
    {
        match self {
            TypeInfo::Enum(e) => {
                let at = find_variant(&e.variants_64, intern(name));
                if at < e.variants_64.len() {
                    let variant = &e.variants_64[at];
                    Some(
                        (
                            &variant.signed,
                            &variant.unsigned,
                            Type::named_64(
                                variant_path(&e.name, name).as_str(),
                                e.size_64 as u32 * 8,
                            ),
                        ),
                    )
                } else {
                    None
                }
            },
            _ => None,
        }
    }

    /// The offset and the declared type of the first field with the name, if
    /// the information is on a structure.
    pub open spec fn field_of(self, name: Seq<char>, bits: u32) -> Option<(usize, Term<Type>)> {
        match self {
            TypeInfo::Struct(s) => {
                let fields = s.fields(bits);
                let i = first_where(fields, field_named(name));
                if i < fields.len() {
                    Some((fields[i].offset, fields[i].typ))
                } else {
                    None
                }
            },
            _ => None,
        }
    }

    /// A field of a structure, for a target of `bits` bits.
    pub fn field(&self, name: &str, bits: u32) -> (field: Option<(usize, Term<Type>)>)
        requires
            bits == 32 || bits == 64,
        ensures
            field == self.field_of(name@, bits),
    {
        if bits == 64 {
            self.field_64(name)
        } else {
            self.field_32(name)
        }
    }

    pub fn field_32(&self, name: &str) -> (field: Option<(usize, Term<Type>)>)
        ensures
            field == self.field_of(name@, 32),
    {
        let name = intern(name);
        match self {
            TypeInfo::Struct(s) => {
                let at = find_field(&s.fields_32, name);
                if at < s.fields_32.len() {
                    Some((s.fields_32[at].offset, share(&s.fields_32[at].typ)))
                } else {
                    None
                }
            },
            _ => None,
        }
    }

    pub fn field_64(&self, name: &str) -> (field: Option<(usize, Term<Type>)>)
        ensures
            field == self.field_of(name@, 64),
    {
        let name = intern(name);
        match self {
            TypeInfo::Struct(s) => {
                let at = find_field(&s.fields_64, name);
                if at < s.fields_64.len() {
                    Some((s.fields_64[at].offset, share(&s.fields_64[at].typ)))
                } else {
                    None
                }
            },
            _ => None,
        }
    }

    /// Whether the size of the type, where it is handed out in bits, is a
    /// `u32`.
    pub open spec fn fits(self, bits: u32) -> bool {
        match self {
            TypeInfo::Enum(e) => bits_fit(e.size(bits)),
            TypeInfo::Union(u) => bits_fit(u.size(bits)),
            _ => true,
        }
    }

    /// The type for a target of `bits` bits.
    pub open spec fn lowered(self, bits: u32) -> TypeModel {
        match self {
            TypeInfo::Enum(e) => e.lowered(bits),
            TypeInfo::Struct(s) => s.lowered(bits),
            TypeInfo::Prototype(p) => p.lowered(bits),
            TypeInfo::TypeDef(t) => t.target(bits)@,
            TypeInfo::Union(u) => u.lowered(bits),
        }
    }

    pub fn to_32(&self) -> (typ: Term<Type>)
        requires
            self.fits(32),
        ensures
            typ@ == self.lowered(32),
    {
        match self {
            TypeInfo::Enum(e) => e.to_32(),
            TypeInfo::Struct(s) => s.to_32(),
            TypeInfo::Prototype(p) => p.to_32(),
            TypeInfo::TypeDef(t) => t.to_32(),
            TypeInfo::Union(u) => u.to_32(),
        }
    }

    pub fn to_64(&self) -> (typ: Term<Type>)
        requires
            self.fits(64),
        ensures
            typ@ == self.lowered(64),
    {
        match self {
            TypeInfo::Enum(e) => e.to_64(),
            TypeInfo::Struct(s) => s.to_64(),
            TypeInfo::Prototype(p) => p.to_64(),
            TypeInfo::TypeDef(t) => t.to_64(),
            TypeInfo::Union(u) => u.to_64(),
        }
    }

    pub fn to(&self, bits: u32) -> (typ: Term<Type>)
        requires
            bits == 32 || bits == 64,
            self.fits(bits),
        ensures
            typ@ == self.lowered(bits),
    {
        if bits == 64 {
            self.to_64()
        } else {
            self.to_32()
        }
    }
}

impl From<Enum> for TypeInfo {
    fn from(enumer: Enum) -> (info: TypeInfo) {
        TypeInfo::Enum(enumer)
    }
}

impl vstd::std_specs::convert::FromSpecImpl<Enum> for TypeInfo {
    open spec fn obeys_from_spec() -> bool {
        true
    }

    open spec fn from_spec(enumer: Enum) -> TypeInfo {
        TypeInfo::Enum(enumer)
    }
}

impl From<Struct> for TypeInfo {
    fn from(struc: Struct) -> (info: TypeInfo) {
        TypeInfo::Struct(struc)
    }
}

impl vstd::std_specs::convert::FromSpecImpl<Struct> for TypeInfo {
    open spec fn obeys_from_spec() -> bool {
        true
    }

    open spec fn from_spec(struc: Struct) -> TypeInfo {
        TypeInfo::Struct(struc)
    }
}

impl From<Prototype> for TypeInfo {
    fn from(proto: Prototype) -> (info: TypeInfo) {
        TypeInfo::Prototype(proto)
    }
}

impl vstd::std_specs::convert::FromSpecImpl<Prototype> for TypeInfo {
    open spec fn obeys_from_spec() -> bool {
        true
    }

    open spec fn from_spec(proto: Prototype) -> TypeInfo {
        TypeInfo::Prototype(proto)
    }
}

impl From<TypeDef> for TypeInfo {
    fn from(typedef: TypeDef) -> (info: TypeInfo) {
        TypeInfo::TypeDef(typedef)
    }
}

impl vstd::std_specs::convert::FromSpecImpl<TypeDef> for TypeInfo {
    open spec fn obeys_from_spec() -> bool {
        true
    }

    open spec fn from_spec(typedef: TypeDef) -> TypeInfo {
        TypeInfo::TypeDef(typedef)
    }
}

impl From<Union> for TypeInfo {
    fn from(union_: Union) -> (info: TypeInfo) {
        TypeInfo::Union(union_)
    }
}

impl vstd::std_specs::convert::FromSpecImpl<Union> for TypeInfo {
    open spec fn obeys_from_spec() -> bool {
        true
    }

    open spec fn from_spec(union_: Union) -> TypeInfo {
        TypeInfo::Union(union_)
    }
}

} // verus!
