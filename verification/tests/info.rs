use bias_core::cio::{
    Arg, Enum, Field, Property, Prototype, Struct, TypeDef, TypeInfo, Union,
};
use bias_core::ir::types::{
    EnumVariant, FunctionArg, FunctionArgProps, StructField, UnionVariant,
};
use bias_core::ir::Type;
use fugue::bv::BitVec;
use std::sync::Arc;
use ustr::Ustr;

fn scalar(bits: u32) -> Arc<Type> {
    Arc::new(Type::Scalar { bits })
}

fn pointer(bits: u32, shift: i64) -> Arc<Type> {
    Arc::new(Type::Pointer { target: Arc::new(Type::Void), bits, shift })
}

fn field(name: &str, offset: usize, typ: Arc<Type>, properties: Vec<Property>) -> Field {
    Field { name: Ustr::from(name), properties, offset, size: 4, typ, bit_field: None }
}

fn variant(name: &str, value: u32) -> EnumVariant {
    EnumVariant {
        name: Ustr::from(name),
        signed: BitVec::from(value as i32),
        unsigned: BitVec::from(value),
    }
}

fn colours() -> TypeInfo {
    TypeInfo::from(Enum {
        name: Ustr::from("colour"),
        size_32: 4,
        size_64: 8,
        variants_32: Arc::new(vec![variant("RED", 1), variant("BLUE", 2), variant("RED", 3)]),
        variants_64: Arc::new(vec![variant("GREEN", 9)]),
    })
}

fn node() -> TypeInfo {
    TypeInfo::from(Struct {
        name: Ustr::from("node"),
        size_32: 8,
        size_64: 16,
        fields_32: vec![
            field("value", 0, scalar(32), vec![]),
            field("next", 4, pointer(32, 0), vec![Property::ShiftedPointerUsize(true)]),
            field("value", 6, scalar(8), vec![]),
        ],
        fields_64: vec![
            field(
                "next",
                8,
                pointer(64, 1),
                vec![Property::ShiftedPointer(7), Property::ShiftedPointerUsize(false)],
            ),
            Field {
                name: Ustr::from("flag"),
                properties: vec![],
                offset: 0,
                size: 4,
                typ: scalar(32),
                bit_field: Some((3, 2)),
            },
        ],
    })
}

#[test]
fn kinds_are_told_apart() {
    let typedef = TypeInfo::from(TypeDef {
        name: Ustr::from("word"),
        type_32: scalar(32),
        type_64: scalar(64),
    });
    assert!(colours().is_enum() && !colours().is_struct());
    assert!(node().is_struct() && !node().is_union());
    assert!(typedef.is_typedef() && !typedef.is_prototype());
}

#[test]
fn the_first_constant_of_a_name_is_found() {
    let info = colours();
    let (signed, unsigned, typ) = info.enum_variant("RED", 32).unwrap();
    assert_eq!(*signed, BitVec::from(1i32));
    assert_eq!(*unsigned, BitVec::from(1u32));
    assert_eq!(typ, Type::named_32("colour::RED", 32));
    let (_, unsigned, typ) = info.enum_variant("GREEN", 64).unwrap();
    assert_eq!(*unsigned, BitVec::from(9u32));
    assert_eq!(typ, Type::named_64("colour::GREEN", 64));
    assert!(info.enum_variant_64("RED").is_none());
    assert!(info.enum_variant_32("GREEN").is_none());
    assert!(node().enum_variant_32("value").is_none());
}

#[test]
fn the_first_field_of_a_name_is_found() {
    let info = node();
    assert_eq!(info.field("value", 32), Some((0, scalar(32))));
    assert_eq!(info.field_32("next"), Some((4, pointer(32, 0))));
    assert_eq!(info.field_64("flag"), Some((0, scalar(32))));
    assert_eq!(info.field("value", 64), None);
    assert_eq!(colours().field_32("RED"), None);
}

#[test]
fn structures_apply_their_properties() {
    assert_eq!(
        node().to_32(),
        Type::struct_from_fields(
            Ustr::from("node"),
            vec![
                StructField::new(Ustr::from("value"), 0, scalar(32)),
                StructField::new(Ustr::from("next"), 4, pointer(32, -4)),
                StructField::new(Ustr::from("value"), 6, scalar(8)),
            ],
            8,
        )
    );
    assert_eq!(
        node().to(64),
        Type::struct_from_fields(
            Ustr::from("node"),
            vec![
                StructField::new(Ustr::from("next"), 8, pointer(64, 16)),
                StructField::new_bit_field(Ustr::from("flag"), 0, 3, 2, scalar(32)),
            ],
            16,
        )
    );
    assert_eq!(node().to(32).nbytes(), 8);
}

#[test]
fn enumerations_have_sizes_in_bits() {
    let Type::Enum { name, variants, bits } = &*colours().to_64() else { panic!() };
    assert_eq!(name.as_str(), "colour");
    assert_eq!(**variants, vec![variant("GREEN", 9)]);
    assert_eq!(*bits, 64);
    assert_eq!(colours().to_32().nbytes(), 4);
}

#[test]
fn unions_keep_their_variants() {
    let narrow = UnionVariant { name: Ustr::from("a"), typ: scalar(32) };
    let wide = UnionVariant { name: Ustr::from("b"), typ: scalar(64) };
    let info = TypeInfo::from(Union {
        name: Ustr::from("either"),
        size_32: 4,
        size_64: 8,
        variants_32: vec![narrow],
        variants_64: vec![wide],
    });
    assert!(info.is_union());
    let Type::Union { variants, bits, .. } = &*info.to_32() else { panic!() };
    assert_eq!((variants.len(), variants[0].name.as_str(), *bits), (1, "a", 32));
    let Type::Union { variants, bits, .. } = &*info.to_64() else { panic!() };
    assert_eq!((variants[0].name.as_str(), *bits), ("b", 64));
}

#[test]
fn prototypes_keep_their_arguments() {
    let props = FunctionArgProps { flags: 5 };
    let proto = Prototype {
        name: Ustr::from("write"),
        rtype_32: scalar(32),
        rtype_64: scalar(64),
        atypes_32: vec![Arg { name: Ustr::from("fd"), properties: props, typ: scalar(32) }],
        atypes_64: vec![],
        variadic: true,
    };
    let info = TypeInfo::from(proto);
    assert!(info.is_prototype());
    let arg = FunctionArg { name: Ustr::from("fd"), properties: props, typ: scalar(32) };
    assert_eq!(info.to_32(), Type::function_with(scalar(32), vec![arg], true));
    assert_eq!(info.to_64(), Type::function_with(scalar(64), vec![], true));
}

#[test]
fn copies_know_the_same() {
    let props = FunctionArgProps { flags: 5 };
    let proto = Prototype {
        name: Ustr::from("write"),
        rtype_32: scalar(32),
        rtype_64: scalar(64),
        atypes_32: vec![Arg { name: Ustr::from("fd"), properties: props, typ: scalar(32) }],
        atypes_64: vec![],
        variadic: true,
    };
    let union = Union {
        name: Ustr::from("either"),
        size_32: 4,
        size_64: 8,
        variants_32: vec![UnionVariant { name: Ustr::from("a"), typ: scalar(32) }],
        variants_64: vec![],
    };
    let typedef =
        TypeDef { name: Ustr::from("word"), type_32: scalar(32), type_64: scalar(64) };
    assert_eq!(proto.clone(), proto);
    assert_eq!(union.clone(), union);
    assert_eq!(typedef.clone(), typedef);
    let infos = [
        colours(),
        node(),
        TypeInfo::from(proto),
        TypeInfo::from(union),
        TypeInfo::from(typedef),
    ];
    for info in &infos {
        let copy = info.clone();
        assert_eq!(copy, *info);
        assert_eq!(copy.to_32(), info.to_32());
        assert_eq!(copy.field_32("next"), info.field_32("next"));
    }
}
