//! Databases of types and prototypes.

use crate::cio::info::{Prototype, TypeInfo};
use crate::cio::places::{
    code_entries, code_get, code_insert, copy_code, copy_data, data_entries, data_type_at,
    new_code, new_data, place_data, placed, type_of_data, TypeRef,
};
use crate::cio::resolve::{
    followable, followable_in, pointer_type, pointer_type_in, resolvable, resolvable_in, resolve_in,
    resolved,
};
use crate::cio::table::{
    copy_table, each_updated, extend_table, extend_table_new, lists_entries, lists_names,
    lists_values, new_table, table_entries, table_get, table_insert, table_is_empty, table_items, table_len,
    table_names, table_values, update_table, Entries, TypeTable,
};
use crate::ir::address::Address;
use crate::ir::term::{share, Term};
use crate::ir::types::{Type, TypeModel};
use crate::names::name_text;
use ahash::AHashMap;
use std::sync::Arc;
use ustr::Ustr;
use vstd::prelude::*;

verus! {

/// What a database knows of types and of prototypes.
#[derive(Debug)]
pub struct TypeInfoDBInner {
    pub types: TypeTable,
    pub prototypes: TypeTable,
}

/// A database of types and prototypes by name.
#[derive(Debug)]
pub struct TypeInfoDB(pub TypeInfoDBInner);

/// The contents of a [`TypeInfoDB`].
#[verifier::ext_equal]
pub struct TypeInfoModel {
    pub types: Entries,
    pub prototypes: Entries,
}

impl TypeInfoModel {
    pub open spec fn is_empty(self) -> bool {
        self.types.is_empty() && self.prototypes.is_empty()
    }

    /// The entries of both databases. Where both have one under a name, the
    /// other's stays.
    pub open spec fn merged(self, other: TypeInfoModel) -> TypeInfoModel {
        TypeInfoModel {
            types: self.types.union_prefer_right(other.types),
            prototypes: self.prototypes.union_prefer_right(other.prototypes),
        }
    }

    /// Whether the entries can be counted, as those of each database can.
    pub open spec fn is_finite(self) -> bool {
        self.types.dom().finite() && self.prototypes.dom().finite()
    }

    /// The number of entries.
    pub open spec fn len(self) -> nat {
        self.types.dom().len() + self.prototypes.dom().len()
    }
}

impl View for TypeInfoDB {
    type V = TypeInfoModel;

    open spec fn view(&self) -> TypeInfoModel {
        TypeInfoModel {
            types: table_entries(self.0.types),
            prototypes: table_entries(self.0.prototypes),
        }
    }
}

impl Default for TypeInfoDB {
    fn default() -> (db: Self)
        ensures
            db@.is_empty(),
    {
        TypeInfoDB(TypeInfoDBInner { types: new_table(), prototypes: new_table() })
    }
}

impl Clone for TypeInfoDBInner {
    fn clone(&self) -> (copy: Self)
        ensures
            table_entries(copy.types) == table_entries(self.types),
            table_entries(copy.prototypes) == table_entries(self.prototypes),
    {
        TypeInfoDBInner {
            types: copy_table(&self.types),
            prototypes: copy_table(&self.prototypes),
        }
    }
}

impl Clone for TypeInfoDB {
    fn clone(&self) -> (db: Self)
        ensures
            db@ == self@,
    {
        TypeInfoDB(self.0.clone())
    }
}

impl std::ops::Deref for TypeInfoDB {
    type Target = TypeInfoDBInner;

    fn deref(&self) -> (inner: &TypeInfoDBInner)
        ensures
            *inner == self.0,
    {
        &self.0
    }
}

impl std::ops::DerefMut for TypeInfoDB {
    fn deref_mut(&mut self) -> (inner: &mut TypeInfoDBInner)
        ensures
            *inner == old(self).0,
            *final(self) == TypeInfoDB(*final(inner)),
    {
        &mut self.0
    }
}

impl TypeInfoDB {
    pub fn new(types: TypeTable, prototypes: TypeTable) -> (db: Self)
        ensures
            db@ == (TypeInfoModel {
                types: table_entries(types),
                prototypes: table_entries(prototypes),
            }),
    {
        TypeInfoDB(TypeInfoDBInner { types, prototypes })
    }

    /// Adds the entries of another database, over those of the same name.
    pub fn merge(&mut self, other: &TypeInfoDB)
        ensures
            final(self)@ == old(self)@.merged(other@),
    {
        extend_table(&mut self.0.types, &other.0.types);
        extend_table(&mut self.0.prototypes, &other.0.prototypes);
    }

    /// Adds the entries of another database under names that have none yet.
    pub fn merge_new(&mut self, other: &TypeInfoDB)
        ensures
            final(self)@ == other@.merged(old(self)@),
    {
        extend_table_new(&mut self.0.types, &other.0.types);
        extend_table_new(&mut self.0.prototypes, &other.0.prototypes);
    }

    /// Moves the entries of another database into this one, over those of the
    /// same name.
    pub fn merge_into(&mut self, other: TypeInfoDB)
        ensures
            final(self)@ == old(self)@.merged(other@),
    {
        extend_table(&mut self.0.types, &other.0.types);
        extend_table(&mut self.0.prototypes, &other.0.prototypes);
    }

    pub fn types(&self) -> (types: &TypeTable)
        ensures
            table_entries(*types) == self@.types,
    {
        &self.0.types
    }

    pub fn prototypes(&self) -> (prototypes: &TypeTable)
        ensures
            table_entries(*prototypes) == self@.prototypes,
    {
        &self.0.prototypes
    }

    /// The number of entries, which must not be more than a `usize` counts.
    pub fn len(&self) -> (len: usize)
        requires
            self@.len() <= usize::MAX,
        ensures
            self@.is_finite(),
            len == self@.len(),
    {
        table_len(&self.0.types) + table_len(&self.0.prototypes)
    }

    /// The number of entries, if a `usize` counts them.
    pub fn try_len(&self) -> (len: Option<usize>)
        ensures
            self@.is_finite(),
            match len {
                Some(n) => n == self@.len(),
                None => self@.len() > usize::MAX,
            },
    {
        match table_len(&self.0.types).checked_add(table_len(&self.0.prototypes)) {
            Some(_) => Some(self.len()),
            None => None,
        }
    }

    pub fn is_empty(&self) -> (empty: bool)
        ensures
            self@.is_finite(),
            empty == self@.is_empty(),
            empty == (self@.len() == 0),
    {
        let types = table_is_empty(&self.0.types);
        let prototypes = table_is_empty(&self.0.prototypes);
        types && prototypes
    }

    /// The two tables.
    pub fn into_parts(self) -> (parts: (TypeTable, TypeTable))
        ensures
            self@ == (TypeInfoModel {
                types: table_entries(parts.0),
                prototypes: table_entries(parts.1),
            }),
    {
        (self.0.types, self.0.prototypes)
    }
}

/// A database of types and prototypes, and of the types of a program's code
/// and data.
#[derive(Debug)]
pub struct TypeDB {
    pub inner: TypeInfoDB,
    pub code: AHashMap<u64, Term<Type>>,
    pub data: AHashMap<u64, TypeRef>,
}

/// The contents of a [`TypeDB`].
#[verifier::ext_equal]
pub struct TypeDBModel {
    pub inner: TypeInfoModel,
    pub code: Map<u64, Term<Type>>,
    pub data: Map<u64, TypeRef>,
}

impl View for TypeDB {
    type V = TypeDBModel;

    open spec fn view(&self) -> TypeDBModel {
        TypeDBModel {
            inner: self.inner@,
            code: code_entries(self.code),
            data: data_entries(self.data),
        }
    }
}

impl Default for TypeDB {
    fn default() -> (db: Self)
        ensures
            db@.inner.is_empty(),
            db@.code.is_empty(),
            db@.data.is_empty(),
    {
        TypeDB { inner: TypeInfoDB::default(), code: new_code(), data: new_data() }
    }
}

impl Clone for TypeDB {
    fn clone(&self) -> (db: Self)
        ensures
            db@ == self@,
    {
        TypeDB {
            inner: self.inner.clone(),
            code: copy_code(&self.code),
            data: copy_data(&self.data),
        }
    }
}

/// The names of a database's types or prototypes.
pub type TypeDBKeys = Vec<Ustr>;

/// The names of a database's types or prototypes, with what is known of them.
pub type TypeDBIter = Vec<(Ustr, Term<TypeInfo>)>;

/// What is known of a database's types or prototypes.
pub type TypeDBValues = Vec<Term<TypeInfo>>;

impl TypeDBModel {
    /// The contents with other types and prototypes.
    pub open spec fn with_types(self, types: TypeInfoModel) -> TypeDBModel {
        TypeDBModel { inner: types, ..self }
    }

    /// The contents with another table of types.
    pub open spec fn with_type_entries(self, types: Entries) -> TypeDBModel {
        self.with_types(TypeInfoModel { types, ..self.inner })
    }

    /// The contents with another table of prototypes.
    pub open spec fn with_prototype_entries(self, prototypes: Entries) -> TypeDBModel {
        self.with_types(TypeInfoModel { prototypes, ..self.inner })
    }
}

impl TypeDB {
    pub fn new() -> (db: Self)
        ensures
            db@.inner.is_empty(),
            db@.code.is_empty(),
            db@.data.is_empty(),
    {
        TypeDB::default()
    }

    /// A database with the given types and prototypes, and with no code and
    /// data.
    pub fn from_types(types: TypeInfoDB) -> (db: Self)
        ensures
            db@.inner == types@,
            db@.code.is_empty(),
            db@.data.is_empty(),
    {
        TypeDB { inner: types, code: new_code(), data: new_data() }
    }

    /// Adds types and prototypes that were loaded, over those of the same
    /// name.
    pub fn load_types(&mut self, loaded: TypeInfoDB)
        ensures
            final(self)@ == old(self)@.with_types(old(self)@.inner.merged(loaded@)),
    {
        if self.inner.is_empty() {
            assert(self@.inner.merged(loaded@) =~= loaded@);
            self.inner = loaded;
        } else {
            self.inner.merge_into(loaded);
        }
    }

    /// Adds types and prototypes, over those of the same name.
    pub fn import_types(&mut self, tidb: &TypeInfoDB)
        ensures
            final(self)@ == old(self)@.with_types(old(self)@.inner.merged(tidb@)),
    {
        if self.inner.is_empty() {
            assert(self@.inner.merged(tidb@) =~= tidb@);
            self.inner = tidb.clone();
        } else {
            self.inner.merge(tidb);
        }
    }

    /// Adds types and prototypes under names that have none yet.
    pub fn import_new_types(&mut self, tidb: &TypeInfoDB)
        ensures
            final(self)@ == old(self)@.with_types(tidb@.merged(old(self)@.inner)),
    {
        if self.inner.is_empty() {
            assert(tidb@.merged(self@.inner) =~= tidb@);
            self.inner = tidb.clone();
        } else {
            self.inner.merge_new(tidb);
        }
    }

    /// Adds the types and prototypes of another database, over those of the
    /// same name. The types of its code and data are left behind.
    pub fn merge(&mut self, other: TypeDB)
        ensures
            final(self)@ == old(self)@.with_types(old(self)@.inner.merged(other@.inner)),
    {
        self.inner.merge_into(other.inner);
    }

    /// Sets what is known of a type, and gives back what was known before. A
    /// prototype is no type.
    pub fn insert_type(&mut self, name: Ustr, type_: TypeInfo) -> (before: Option<Term<TypeInfo>>)
        requires
            !(type_ is Prototype),
        ensures
            final(self)@ == old(self)@.with_type_entries(
                old(self)@.inner.types.insert(name_text(name), Arc::new(type_)),
            ),
            before == old(self)@.inner.types.get(name_text(name)),
    {
        table_insert(&mut self.inner.0.types, name, Arc::new(type_))
    }

    /// The names of the types, in no particular order.
    pub fn type_names(&self) -> (names: TypeDBKeys)
        ensures
            lists_names(names@, self@.inner.types),
    {
        table_names(&self.inner.0.types)
    }

    /// The names of the types with what is known of them, in no particular
    /// order.
    pub fn type_iter(&self) -> (items: TypeDBIter)
        ensures
            lists_entries(items@, self@.inner.types),
    {
        table_items(&self.inner.0.types)
    }

    /// Replaces what is known of each type by what `f` makes of it.
    pub fn type_iter_mut<F: Fn(Ustr, Term<TypeInfo>) -> Term<TypeInfo>>(&mut self, f: F)
        requires
            forall|name: Ustr, info: Term<TypeInfo>| call_requires(f, (name, info)),
        ensures
            final(self)@ == old(self)@.with_type_entries(final(self)@.inner.types),
            each_updated(f, old(self)@.inner.types, final(self)@.inner.types),
    {
        update_table(&mut self.inner.0.types, f);
    }

    /// What is known of each type, in no particular order.
    pub fn types(&self) -> (infos: TypeDBValues)
        ensures
            lists_values(infos@, self@.inner.types),
    {
        table_values(&self.inner.0.types)
    }

    /// Replaces what is known of each type by what `f` makes of it, whatever
    /// its name.
    pub fn types_mut<F: Fn(Term<TypeInfo>) -> Term<TypeInfo>>(&mut self, f: F)
        requires
            forall|info: Term<TypeInfo>| call_requires(f, (info,)),
        ensures
            final(self)@ == old(self)@.with_type_entries(final(self)@.inner.types),
            final(self)@.inner.types.dom() == old(self)@.inner.types.dom(),
            forall|text: Seq<char>|
                #![trigger final(self)@.inner.types[text]]
                final(self)@.inner.types.contains_key(text) ==> call_ensures(
                    f,
                    (old(self)@.inner.types[text],),
                    final(self)@.inner.types[text],
                ),
    {
        let g = &f;
        let unnamed = |name: Ustr, info: Term<TypeInfo>| -> (next: Term<TypeInfo>)
            requires
                call_requires(g, (info,)),
            ensures
                call_ensures(g, (info,), next),
            { g(info) };
        update_table(&mut self.inner.0.types, unnamed);
    }

    /// Sets a prototype, and gives back the one that was there before.
    pub fn insert_prototype(&mut self, name: Ustr, type_: Prototype) -> (before: Option<
        Term<TypeInfo>,
    >)
        ensures
            final(self)@ == old(self)@.with_prototype_entries(
                old(self)@.inner.prototypes.insert(
                    name_text(name),
                    Arc::new(TypeInfo::Prototype(type_)),
                ),
            ),
            before == old(self)@.inner.prototypes.get(name_text(name)),
    {
        table_insert(&mut self.inner.0.prototypes, name, Arc::new(TypeInfo::from(type_)))
    }

    /// The names of the prototypes, in no particular order.
    pub fn prototype_names(&self) -> (names: TypeDBKeys)
        ensures
            lists_names(names@, self@.inner.prototypes),
    {
        table_names(&self.inner.0.prototypes)
    }

    /// The names of the prototypes with what is known of them, in no
    /// particular order.
    pub fn prototype_iter(&self) -> (items: TypeDBIter)
        ensures
            lists_entries(items@, self@.inner.prototypes),
    {
        table_items(&self.inner.0.prototypes)
    }

    /// Replaces what is known of each prototype by what `f` makes of it.
    pub fn prototype_iter_mut<F: Fn(Ustr, Term<TypeInfo>) -> Term<TypeInfo>>(&mut self, f: F)
        requires
            forall|name: Ustr, info: Term<TypeInfo>| call_requires(f, (name, info)),
        ensures
            final(self)@ == old(self)@.with_prototype_entries(final(self)@.inner.prototypes),
            each_updated(f, old(self)@.inner.prototypes, final(self)@.inner.prototypes),
    {
        update_table(&mut self.inner.0.prototypes, f);
    }

    /// What is known of each prototype, in no particular order.
    pub fn prototypes(&self) -> (infos: TypeDBValues)
        ensures
            lists_values(infos@, self@.inner.prototypes),
    {
        table_values(&self.inner.0.prototypes)
    }

    /// What is known of a type.
    pub fn get_type(&self, name: &str) -> (info: Option<&TypeInfo>)
        ensures
            match info {
                Some(i) => self@.inner.types.get(name@) == Some(Arc::new(*i)),
                None => self@.inner.types.get(name@) is None,
            },
    {
        match table_get(&self.inner.0.types, name) {
            Some(info) => Some(&**info),
            None => None,
        }
    }

    /// What is known of a prototype.
    pub fn get_prototype(&self, name: &str) -> (info: Option<&TypeInfo>)
        ensures
            match info {
                Some(i) => self@.inner.prototypes.get(name@) == Some(Arc::new(*i)),
                None => self@.inner.prototypes.get(name@) is None,
            },
    {
        match table_get(&self.inner.0.prototypes, name) {
            Some(info) => Some(&**info),
            None => None,
        }
    }

    /// A type for a target of `bits` bits.
    pub fn get_type_for(&self, name: &str, bits: u32) -> (typ: Option<Term<Type>>)
        requires
            self@.inner.types.get(name@) matches Some(info) ==> (bits == 32 || bits == 64)
                && info.fits_with(self@.inner.types, bits),
        ensures
            match typ {
                Some(t) => self@.inner.types.get(name@) matches Some(info) && t@
                    == info.lowered_with(self@.inner.types, bits),
                None => self@.inner.types.get(name@) is None,
            },
    {
        match self.get_type(name) {
            Some(info) => Some(info.to_with(self, bits)),
            None => None,
        }
    }

    /// A reference by name to a type, for a target of `bits` bits.
    pub fn get_typedef_for(&self, name: &str, bits: u32) -> (typ: Option<Term<Type>>)
        requires
            self@.inner.types.get(name@) matches Some(info) ==> (bits == 32 || bits == 64)
                && info.fits_with(self@.inner.types, bits),
        ensures
            match typ {
                Some(t) => self@.inner.types.get(name@) matches Some(info) && t@
                    == (TypeModel::Named {
                    name: name@,
                    size: info.lowered_with(self@.inner.types, bits).nbytes() as u32,
                    address_bits: bits,
                }),
                None => self@.inner.types.get(name@) is None,
            },
    {
        let bytes: u32 = match self.get_type_for(name, bits) {
            Some(typ) => typ.nbytes() as u32,
            None => {
                return None;
            },
        };
        if bits == 32 {
            Some(Type::named_32(name, bytes))
        } else {
            Some(Type::named_64(name, bytes))
        }
    }

    /// The function type of a prototype, for a target of `bits` bits.
    pub fn get_prototype_for(&self, name: &str, bits: u32) -> (typ: Option<Term<Type>>)
        requires
            self@.inner.prototypes.get(name@) matches Some(info) ==> (bits == 32 || bits == 64)
                && info.fits_with(self@.inner.types, bits),
        ensures
            match typ {
                Some(t) => self@.inner.prototypes.get(name@) matches Some(info) && t@
                    == info.lowered_with(self@.inner.types, bits),
                None => self@.inner.prototypes.get(name@) is None,
            },
    {
        match self.get_prototype(name) {
            Some(info) => Some(info.to_with(self, bits)),
            None => None,
        }
    }

    pub fn set_code_type_at(&mut self, address: Address, type_: Term<Type>)
        ensures
            final(self)@ == (TypeDBModel {
                code: old(self)@.code.insert(address.offset, type_),
                ..old(self)@
            }),
    {
        code_insert(&mut self.code, address.offset, type_);
    }

    pub fn get_code_type_at(&self, address: Address) -> (typ: Option<Term<Type>>)
        ensures
            typ == self@.code.get(address.offset),
    {
        match code_get(&self.code, address.offset) {
            Some(typ) => Some(share(typ)),
            None => None,
        }
    }

    /// Places a value of a type at an address.
    pub fn set_data_type_at(&mut self, address: Address, type_: Term<Type>)
        ensures
            final(self)@ == (TypeDBModel {
                data: placed(old(self)@.data, address.offset, type_, type_@.nbytes()),
                ..old(self)@
            }),
    {
        place_data(&mut self.data, address, type_);
    }

    /// The type of what stands at an address, be it a value or a part of one.
    pub fn get_data_type_at(&self, address: Address) -> (typ: Option<Term<Type>>)
        ensures
            match typ {
                Some(t) => type_of_data(self@.data, address.offset) == Some(t@),
                None => type_of_data(self@.data, address.offset) is None,
            },
    {
        data_type_at(&self.data, address)
    }

    /// The type at the last of a row of offsets, each of which but the last is
    /// followed through a pointer, and the name of the last field on the way.
    pub fn resolve_pointer_type(&self, rtype: &Term<Type>, offsets: &[i64]) -> (found: Option<
        (Term<Type>, Option<Ustr>),
    >)
        requires
            offsets@.len() > 0 ==> followable(
                self@.inner.types,
                rtype@,
                offsets@.drop_last(),
            ),
        ensures
            match found {
                Some((typ, field)) => pointer_type(self@.inner.types, rtype@, offsets@) == Some(
                    (typ@, field),
                ),
                None => pointer_type(self@.inner.types, rtype@, offsets@) is None,
            },
    {
        pointer_type_in(&self.inner.0.types, rtype, offsets)
    }

    /// Whether each type on the way of [`TypeDB::resolve_pointer_type`] can be
    /// resolved.
    pub fn can_resolve_pointer_type(&self, rtype: &Term<Type>, offsets: &[i64]) -> (can: bool)
        ensures
            can == (offsets@.len() > 0 ==> followable(
                self@.inner.types,
                rtype@,
                offsets@.drop_last(),
            )),
    {
        followable_in(&self.inner.0.types, rtype, offsets)
    }

    /// The number of types and prototypes, which must not be more than a
    /// `usize` counts.
    pub fn len(&self) -> (len: usize)
        requires
            self@.inner.len() <= usize::MAX,
        ensures
            self@.inner.is_finite(),
            len == self@.inner.len(),
    {
        self.inner.len()
    }

    /// The number of types and prototypes, if a `usize` counts them.
    pub fn try_len(&self) -> (len: Option<usize>)
        ensures
            self@.inner.is_finite(),
            match len {
                Some(n) => n == self@.inner.len(),
                None => self@.inner.len() > usize::MAX,
            },
    {
        match self.inner.try_len() {
            Some(_) => Some(self.len()),
            None => None,
        }
    }

    pub fn is_empty(&self) -> (empty: bool)
        ensures
            self@.inner.is_finite(),
            empty == self@.inner.is_empty(),
            empty == (self@.inner.len() == 0),
    {
        self.inner.is_empty()
    }
}

impl Type {
    /// Whether the size of what a type stands for is a `u32` in bits.
    pub fn can_resolve(this: &Term<Type>, db: &TypeDB) -> (can: bool)
        ensures
            db@.inner.types.dom().finite(),
            can == resolvable(db@.inner.types, this@),
    {
        resolvable_in(&db.inner.0.types, this)
    }

    /// What a type stands for in a database.
    pub fn resolve(this: &Term<Type>, db: &TypeDB) -> (typ: Term<Type>)
        requires
            resolvable(db@.inner.types, this@),
        ensures
            db@.inner.types.dom().finite(),
            typ@ == resolved(db@.inner.types, this@),
    {
        resolve_in(&db.inner.0.types, this)
    }
}

impl Prototype {
    pub fn to_32_with(&self, t: &TypeDB) -> (typ: Term<Type>)
        requires
            self.fits_with(t@.inner.types, 32),
        ensures
            typ@ == self.lowered_with(t@.inner.types, 32),
    {
        self.to_32_in(&t.inner.0.types)
    }

    pub fn to_64_with(&self, t: &TypeDB) -> (typ: Term<Type>)
        requires
            self.fits_with(t@.inner.types, 64),
        ensures
            typ@ == self.lowered_with(t@.inner.types, 64),
    {
        self.to_64_in(&t.inner.0.types)
    }
}

impl TypeInfo {
    /// Whether the type can be had with the names in a database.
    pub fn is_sized_with(&self, tdb: &TypeDB, bits: u32) -> (sized: bool)
        ensures
            sized == self.fits_with(tdb@.inner.types, bits),
    {
        match self {
            TypeInfo::Prototype(p) => {
                let args = if bits == 64 {
                    &p.atypes_64
                } else {
                    &p.atypes_32
                };
                args.len() != 1 || Type::can_resolve(&args[0].typ, tdb)
            },
            _ => self.is_sized(bits),
        }
    }

    pub fn to_32_with(&self, tdb: &TypeDB) -> (typ: Term<Type>)
        requires
            self.fits_with(tdb@.inner.types, 32),
        ensures
            typ@ == self.lowered_with(tdb@.inner.types, 32),
    {
        match self {
            TypeInfo::Enum(e) => e.to_32(),
            TypeInfo::Struct(s) => s.to_32(),
            TypeInfo::Prototype(p) => p.to_32_with(tdb),
            TypeInfo::TypeDef(t) => t.to_32(),
            TypeInfo::Union(u) => u.to_32(),
        }
    }

    pub fn to_64_with(&self, tdb: &TypeDB) -> (typ: Term<Type>)
        requires
            self.fits_with(tdb@.inner.types, 64),
        ensures
            typ@ == self.lowered_with(tdb@.inner.types, 64),
    {
        match self {
            TypeInfo::Enum(e) => e.to_64(),
            TypeInfo::Struct(s) => s.to_64(),
            TypeInfo::Prototype(p) => p.to_64_with(tdb),
            TypeInfo::TypeDef(t) => t.to_64(),
            TypeInfo::Union(u) => u.to_64(),
        }
    }

    /// The type for a target of `bits` bits, where a prototype's names are
    /// looked up in a database.
    pub fn to_with(&self, tdb: &TypeDB, bits: u32) -> (typ: Term<Type>)
        requires
            bits == 32 || bits == 64,
            self.fits_with(tdb@.inner.types, bits),
        ensures
            typ@ == self.lowered_with(tdb@.inner.types, bits),
    {
        if bits == 64 {
            self.to_64_with(tdb)
        } else {
            self.to_32_with(tdb)
        }
    }
}

} // verus!
