use bias_core::cio::{
    Arg, Field, Prototype, Struct, TypeDB, TypeDef, TypeInfo, TypeInfoDB, Union,
};
use bias_core::ir::types::{FunctionArg, FunctionArgProps, StructField};
use bias_core::ir::Type;
use std::sync::Arc;
use ustr::Ustr;

fn scalar(bits: u32) -> Arc<Type> {
    Arc::new(Type::Scalar { bits })
}

fn typedef(name: &str, bits: u32) -> TypeInfo {
    TypeInfo::from(TypeDef { name: Ustr::from(name), type_32: scalar(bits), type_64: scalar(bits) })
}

fn alias(name: &str, target: &str) -> TypeInfo {
    TypeInfo::from(TypeDef {
        name: Ustr::from(name),
        type_32: Type::named_32(target, 0),
        type_64: Type::named_64(target, 0),
    })
}

fn prototype(name: &str, args: Vec<Arc<Type>>) -> Prototype {
    let list = |args: &Vec<Arc<Type>>| -> Vec<Arg> {
        args.iter()
            .map(|typ| Arg {
                name: Ustr::from("x"),
                properties: FunctionArgProps { flags: 0 },
                typ: typ.clone(),
            })
            .collect()
    };
    Prototype {
        name: Ustr::from(name),
        rtype_32: scalar(32),
        rtype_64: scalar(64),
        atypes_32: list(&args),
        atypes_64: list(&args),
        variadic: false,
    }
}

fn types(entries: &[(&str, u32)]) -> TypeInfoDB {
    let mut db = TypeDB::new();
    for (name, bits) in entries {
        db.insert_type(Ustr::from(name), typedef(name, *bits));
    }
    db.inner
}

fn names(db: &TypeDB) -> Vec<&'static str> {
    let mut names: Vec<&'static str> = db.type_names().iter().map(|name| name.as_str()).collect();
    names.sort();
    names
}

#[test]
fn what_was_inserted_is_found() {
    let mut db = TypeDB::new();
    assert!(db.is_empty());
    assert_eq!(db.len(), 0);
    assert!(db.insert_type(Ustr::from("byte"), typedef("byte", 8)).is_none());
    let before = db.insert_type(Ustr::from("byte"), typedef("byte", 16)).unwrap();
    assert_eq!(*before, typedef("byte", 8));
    assert_eq!(db.get_type("byte"), Some(&typedef("byte", 16)));
    assert_eq!(db.get_type("never interned before"), None);
    assert_eq!(db.get_prototype("byte"), None);
    assert_eq!(db.len(), 1);
    assert_eq!(db.try_len(), Some(1));
    assert!(!db.is_empty());
}

#[test]
fn prototypes_are_apart_from_types() {
    let mut db = TypeDB::new();
    db.insert_type(Ustr::from("f"), typedef("f", 8));
    assert!(db.insert_prototype(Ustr::from("f"), prototype("f", vec![])).is_none());
    assert_eq!(db.len(), 2);
    assert!(db.get_type("f").unwrap().is_typedef());
    assert!(db.get_prototype("f").unwrap().is_prototype());
    assert_eq!(db.prototype_names(), vec![Ustr::from("f")]);
    assert_eq!(db.prototype_iter().len(), 1);
    assert_eq!(db.prototypes().len(), 1);
}

#[test]
fn merging_prefers_the_second() {
    let mut a = types(&[("x", 1), ("y", 2)]);
    let b = types(&[("y", 3), ("z", 4)]);
    a.merge(&b);
    let db = TypeDB::from_types(a);
    assert_eq!(names(&db), ["x", "y", "z"]);
    assert_eq!(db.get_type("y"), Some(&typedef("y", 3)));
    assert_eq!(db.get_type("x"), Some(&typedef("x", 1)));
}

#[test]
fn merging_new_entries_prefers_the_first() {
    let mut a = types(&[("x", 1), ("y", 2)]);
    a.merge_new(&types(&[("y", 3), ("z", 4)]));
    let db = TypeDB::from_types(a);
    assert_eq!(names(&db), ["x", "y", "z"]);
    assert_eq!(db.get_type("y"), Some(&typedef("y", 2)));
    assert_eq!(db.get_type("z"), Some(&typedef("z", 4)));
}

#[test]
fn merging_again_changes_nothing() {
    let b = types(&[("y", 3)]);
    let mut a = types(&[("x", 1), ("y", 2)]);
    a.merge_into(b.clone());
    a.merge(&b);
    let db = TypeDB::from_types(a);
    assert_eq!(db.len(), 2);
    assert_eq!(db.get_type("y"), Some(&typedef("y", 3)));
}

#[test]
fn merges_can_be_grouped() {
    let (a, b, c) = (
        types(&[("x", 1), ("y", 1), ("z", 1)]),
        types(&[("y", 2), ("z", 2)]),
        types(&[("z", 3)]),
    );
    let mut left = a.clone();
    left.merge(&b);
    left.merge(&c);
    let mut right = b.clone();
    right.merge(&c);
    let mut grouped = a.clone();
    grouped.merge(&right);
    let (left, grouped) = (TypeDB::from_types(left), TypeDB::from_types(grouped));
    for (name, bits) in [("x", 1), ("y", 2), ("z", 3)] {
        assert_eq!(left.get_type(name), Some(&typedef(name, bits)));
        assert_eq!(grouped.get_type(name), Some(&typedef(name, bits)));
    }
}

#[test]
fn merges_without_common_names_commute() {
    let (a, b) = (types(&[("x", 1)]), types(&[("y", 2)]));
    let mut one = a.clone();
    one.merge(&b);
    let mut other = b.clone();
    other.merge(&a);
    let (one, other) = (TypeDB::from_types(one), TypeDB::from_types(other));
    assert_eq!(names(&one), names(&other));
    assert_eq!(one.get_type("x"), other.get_type("x"));
}

#[test]
fn an_empty_database_adds_nothing() {
    let mut a = types(&[("x", 1)]);
    a.merge(&TypeInfoDB::default());
    a.merge_new(&TypeInfoDB::default());
    assert_eq!(a.len(), 1);
    let mut empty = TypeInfoDB::default();
    empty.merge_new(&a);
    assert_eq!(TypeDB::from_types(empty).get_type("x"), Some(&typedef("x", 1)));
}

#[test]
fn imports_merge() {
    let mut db = TypeDB::default();
    db.import_types(&types(&[("x", 1)]));
    db.import_types(&types(&[("x", 2), ("y", 2)]));
    assert_eq!(db.get_type("x"), Some(&typedef("x", 2)));
    db.import_new_types(&types(&[("x", 3), ("z", 3)]));
    assert_eq!(db.get_type("x"), Some(&typedef("x", 2)));
    assert_eq!(db.get_type("z"), Some(&typedef("z", 3)));
    db.load_types(types(&[("x", 4)]));
    assert_eq!(db.get_type("x"), Some(&typedef("x", 4)));

    let mut other = TypeDB::default();
    other.import_new_types(&types(&[("w", 5)]));
    db.merge(other);
    assert_eq!(names(&db), ["w", "x", "y", "z"]);

    let mut loaded = TypeDB::default();
    loaded.load_types(types(&[("v", 6)]));
    assert_eq!(names(&loaded), ["v"]);
}

#[test]
fn a_copy_is_independent() {
    let a = types(&[("x", 1)]);
    let mut b = a.clone();
    b.merge(&types(&[("x", 2)]));
    assert_eq!(TypeDB::from_types(a).get_type("x"), Some(&typedef("x", 1)));
    assert_eq!(TypeDB::from_types(b).get_type("x"), Some(&typedef("x", 2)));
}

#[test]
fn the_tables_are_copied() {
    let a = types(&[("x", 1)]);
    let mut inner = a.0.clone();
    inner.types.insert(Ustr::from("y"), Arc::new(typedef("y", 2)));
    assert_eq!((a.len(), inner.types.len(), inner.prototypes.len()), (1, 2, 0));
    assert_eq!(inner.types.get(&Ustr::from("x")), a.types.get(&Ustr::from("x")));
}

#[test]
fn an_empty_database_has_no_entries() {
    let mut db = TypeDB::new();
    assert_eq!((db.is_empty(), db.len()), (true, 0));
    db.insert_prototype(Ustr::from("f"), prototype("f", vec![]));
    assert_eq!((db.is_empty(), db.len()), (false, 1));
}

#[test]
fn parts_make_the_whole() {
    let a = types(&[("x", 1), ("y", 2)]);
    assert_eq!(a.types().len(), 2);
    assert!(a.prototypes().is_empty());
    assert_eq!(a.try_len(), Some(2));
    let (types, prototypes) = a.into_parts();
    let whole = TypeInfoDB::new(types, prototypes);
    assert_eq!(whole.len(), 2);
    assert!(!whole.is_empty());
    assert!(TypeInfoDB::default().is_empty());
}

#[test]
fn the_tables_can_be_reached() {
    let mut a = types(&[("x", 1)]);
    let b = types(&[("y", 2)]);
    a.types = b.types().clone();
    assert_eq!(a.types.len(), 1);
    assert_eq!(TypeDB::from_types(a).get_type("y"), Some(&typedef("y", 2)));
}

#[test]
fn entries_are_listed_and_replaced() {
    let mut db = TypeDB::from_types(types(&[("x", 1), ("y", 2)]));
    let mut items: Vec<(&str, TypeInfo)> = Vec::new();
    for (name, info) in db.type_iter() {
        assert_eq!(db.get_type(name.as_str()), Some(&*info));
        items.push((name.as_str(), typedef(name.as_str(), 0)));
    }
    assert_eq!(items.len(), 2);
    db.type_iter_mut(|name, _| Arc::new(typedef(name.as_str(), 7)));
    assert_eq!(db.get_type("x"), Some(&typedef("x", 7)));
    assert_eq!(db.get_type("y"), Some(&typedef("y", 7)));
    db.types_mut(|info| if *info == typedef("x", 7) { Arc::new(typedef("x", 8)) } else { info });
    assert_eq!(db.get_type("x"), Some(&typedef("x", 8)));
    assert_eq!(db.get_type("y"), Some(&typedef("y", 7)));
    let values = db.types();
    assert!(values.contains(&Arc::new(typedef("x", 8))));
    assert!(values.contains(&Arc::new(typedef("y", 7))));
    assert_eq!(values.len(), 2);
    db.insert_prototype(Ustr::from("f"), prototype("f", vec![]));
    db.prototype_iter_mut(|_, _| Arc::new(TypeInfo::from(prototype("g", vec![]))));
    assert_eq!(db.get_prototype("f"), Some(&TypeInfo::from(prototype("g", vec![]))));
}

#[test]
fn types_are_made_for_targets() {
    let db = TypeDB::from_types(types(&[("word", 24)]));
    assert_eq!(db.get_type_for("word", 32), Some(scalar(24)));
    assert_eq!(db.get_typedef_for("word", 32), Some(Type::named_32("word", 3)));
    assert_eq!(db.get_typedef_for("word", 64), Some(Type::named_64("word", 3)));
    assert_eq!(db.get_type_for("missing", 32), None);
    assert_eq!(db.get_typedef_for("missing", 17), None);
    assert_eq!(db.get_prototype_for("word", 32), None);
}

#[test]
fn a_single_void_is_no_argument() {
    let mut db = TypeDB::new();
    db.insert_type(
        Ustr::from("nothing"),
        TypeInfo::from(TypeDef {
            name: Ustr::from("nothing"),
            type_32: Arc::new(Type::Void),
            type_64: Arc::new(Type::Void),
        }),
    );
    db.insert_type(Ustr::from("nil"), alias("nil", "nothing"));
    let void = Arc::new(Type::Void);
    let named = Type::named_64("nil", 0);
    let arg = |typ: &Arc<Type>| FunctionArg {
        name: Ustr::from("x"),
        properties: FunctionArgProps { flags: 0 },
        typ: typ.clone(),
    };
    for typ in [&void, &named] {
        db.insert_prototype(Ustr::from("f"), prototype("f", vec![typ.clone()]));
        assert_eq!(
            db.get_prototype_for("f", 64),
            Some(Type::function_with(scalar(64), vec![], false))
        );
        assert_eq!(
            db.get_prototype_for("f", 32),
            Some(Type::function_with(scalar(32), vec![], false))
        );
        assert_eq!(
            prototype("f", vec![typ.clone()]).to_64(),
            Type::function_with(scalar(64), vec![arg(typ)], false)
        );
    }
    let two = prototype("f", vec![void.clone(), void.clone()]);
    assert_eq!(
        two.to_32_with(&db),
        Type::function_with(scalar(32), vec![arg(&void), arg(&void)], false)
    );
    let one = prototype("f", vec![scalar(8)]);
    assert_eq!(
        one.to_64_with(&db),
        Type::function_with(scalar(64), vec![arg(&scalar(8))], false)
    );
}

#[test]
fn names_are_resolved() {
    let mut db = TypeDB::new();
    db.insert_type(Ustr::from("a"), alias("a", "b"));
    db.insert_type(Ustr::from("b"), alias("b", "c"));
    db.insert_type(Ustr::from("c"), typedef("c", 16));
    assert_eq!(Type::resolve(&Type::named_32("a", 0), &db), scalar(16));
    let resolved = Type::resolve(&Type::named_32("a", 0), &db);
    assert_eq!(Type::resolve(&resolved, &db), resolved);
    let unknown = Type::named_64("unknown", 4);
    assert_eq!(Type::resolve(&unknown, &db), unknown);
}

#[test]
fn references_resolve_to_their_types() {
    let db = list_db();
    let reference = db.get_typedef_for("list", 32).unwrap();
    assert_eq!(reference, Type::named_32("list", 8));
    assert_eq!(reference.nbytes(), db.get_type_for("list", 32).unwrap().nbytes());
    assert_eq!(Type::resolve(&reference, &db), db.get_type_for("list", 32).unwrap());
}

#[test]
fn sizes_can_be_tested_before() {
    let mut db = TypeDB::new();
    let size = 0x2000_0000;
    db.insert_type(
        Ustr::from("huge"),
        TypeInfo::from(Union {
            name: Ustr::from("huge"),
            size_32: size,
            size_64: size - 1,
            variants_32: vec![],
            variants_64: vec![],
        }),
    );
    let info = db.get_type("huge").unwrap();
    assert!(!info.is_sized(32) && info.is_sized(64));
    assert!(!info.is_sized_with(&db, 32) && info.is_sized_with(&db, 64));
    assert!(!Type::can_resolve(&Type::named_32("huge", 0), &db));
    assert!(Type::can_resolve(&Type::named_64("huge", 0), &db));
    assert_eq!(db.get_type_for("huge", 64).unwrap().nbytes(), size - 1);
    let pointer =
        Arc::new(Type::Pointer { target: Type::named_32("huge", 0), bits: 32, shift: 0 });
    assert!(!db.can_resolve_pointer_type(&pointer, &[0, 0]));
    assert!(db.can_resolve_pointer_type(&pointer, &[0]));
    assert!(db.can_resolve_pointer_type(&Type::named_32("huge", 0), &[]));
    let proto = TypeInfo::from(prototype("f", vec![Type::named_32("huge", 0)]));
    assert!(!proto.is_sized_with(&db, 32));
}

#[test]
fn names_that_return_are_left() {
    let mut db = TypeDB::new();
    db.insert_type(Ustr::from("p"), alias("p", "q"));
    db.insert_type(Ustr::from("q"), alias("q", "p"));
    let Type::Named { name, .. } = &*Type::resolve(&Type::named_32("p", 0), &db) else { panic!() };
    assert_eq!(name.as_str(), "p");
}

#[test]
fn a_narrow_name_may_follow_a_wide_one() {
    let mut db = TypeDB::new();
    db.insert_type(
        Ustr::from("w"),
        TypeInfo::from(TypeDef {
            name: Ustr::from("w"),
            type_32: scalar(8),
            type_64: Type::named_32("w", 0),
        }),
    );
    assert_eq!(Type::resolve(&Type::named_64("w", 0), &db), scalar(8));
}

fn list_db() -> TypeDB {
    let mut db = TypeDB::new();
    let next = Arc::new(Type::Pointer { target: Type::named_32("list", 8), bits: 32, shift: 0 });
    let field = |name: &str, offset: usize, typ: &Arc<Type>| Field {
        name: Ustr::from(name),
        properties: vec![],
        offset,
        size: 4,
        typ: typ.clone(),
        bit_field: None,
    };
    db.insert_type(
        Ustr::from("list"),
        TypeInfo::from(Struct {
            name: Ustr::from("list"),
            size_32: 8,
            size_64: 0,
            fields_32: vec![field("head", 0, &scalar(32)), field("tail", 4, &next)],
            fields_64: vec![],
        }),
    );
    db
}

#[test]
fn pointers_are_followed() {
    let db = list_db();
    let list = Type::named_32("list", 8);
    let pointer = Arc::new(Type::Pointer { target: list.clone(), bits: 32, shift: 0 });
    let tail = Some(Ustr::from("tail"));
    assert_eq!(db.resolve_pointer_type(&list, &[]), None);
    assert_eq!(db.resolve_pointer_type(&list, &[0]), Some((scalar(32), None)));
    assert_eq!(db.resolve_pointer_type(&list, &[4]), Some((pointer.clone(), tail)));
    assert_eq!(db.resolve_pointer_type(&list, &[2]), None);
    assert_eq!(db.resolve_pointer_type(&pointer, &[4, 0]), Some((pointer.clone(), tail)));
    assert_eq!(
        db.resolve_pointer_type(&pointer, &[4, 4, 0]),
        Some((pointer.clone(), tail))
    );
    assert_eq!(
        db.resolve_pointer_type(&pointer, &[4, 0, 0]),
        Some((scalar(32), Some(Ustr::from("head"))))
    );
    assert_eq!(db.resolve_pointer_type(&pointer, &[0, 4]), None);
    assert_eq!(db.resolve_pointer_type(&list, &[4, 0]), None);
}

#[test]
fn offsets_are_followed_one_by_one() {
    let db = list_db();
    let pointer =
        Arc::new(Type::Pointer { target: Type::named_32("list", 8), bits: 32, shift: 0 });
    let (next, field) = (pointer.clone(), Some(Ustr::from("tail")));
    for rest in [vec![4], vec![4, 0], vec![4, 4], vec![0, 4], vec![2]] {
        let all: Vec<i64> = [vec![4], rest.clone()].concat();
        assert_eq!(
            db.resolve_pointer_type(&pointer, &all),
            db.resolve_pointer_type(&next, &rest)
        );
    }
    let (found, none) = db.resolve_pointer_type(&next, &[0]).unwrap();
    assert_eq!(none, None);
    assert_eq!(db.resolve_pointer_type(&pointer, &[4, 0]), Some((found, field)));
    assert_eq!(db.resolve_pointer_type(&scalar(32), &[0, 0]), None);
}

#[test]
fn entries_are_counted_once() {
    let mut db = TypeDB::from_types(types(&[("x", 1), ("y", 2)]));
    db.insert_type(Ustr::from("x"), typedef("x", 3));
    assert_eq!(db.len(), 2);
    db.insert_type(Ustr::from("z"), typedef("z", 3));
    assert_eq!(db.len(), 3);
    db.import_types(&types(&[("z", 4), ("w", 4)]));
    assert_eq!(db.len(), 4);
}

#[test]
fn structures_are_resolved_for_their_target() {
    let db = list_db();
    let Type::Struct { fields, size, .. } = &*Type::resolve(&Type::named_32("list", 0), &db) else {
        panic!()
    };
    assert_eq!((fields.len(), *size), (2, 8));
    assert_eq!(fields[0], StructField::new(Ustr::from("head"), 0, scalar(32)));
    let info = db.get_type("list").unwrap();
    assert_eq!(info.to_with(&db, 32), info.to_32_with(&db));
    assert_eq!(info.to_64_with(&db), info.to_64());
}
