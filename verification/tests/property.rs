use bias_core::cio::{Property, PropertyParseError};
use bias_core::ir::Type;
use std::sync::Arc;

fn pointer(shift: i64) -> Arc<Type> {
    Arc::new(Type::Pointer { target: Arc::new(Type::Void), bits: 64, shift })
}

#[test]
fn numbers_are_read() {
    assert_eq!(Property::from_str("__shifted(16)").unwrap(), Property::ShiftedPointer(16));
    assert_eq!(Property::from_str("__shifted(+16)").unwrap(), Property::ShiftedPointer(16));
    assert_eq!(Property::from_str("__shifted( -8 )").unwrap(), Property::ShiftedPointer(-8));
    assert_eq!(Property::from_str("__shifted(007)").unwrap(), Property::ShiftedPointer(7));
    assert_eq!(
        Property::from_str("__shifted(-9223372036854775808)").unwrap(),
        Property::ShiftedPointer(i64::MIN)
    );
}

#[test]
fn white_space_is_that_of_unicode() {
    assert_eq!(
        Property::from_str("__shifted(\t\u{2003}5\u{a0}\n)").unwrap(),
        Property::ShiftedPointer(5)
    );
    assert!(matches!(
        Property::from_str("__shifted(\u{200b}5)"),
        Err(PropertyParseError::UnexpectedProperty)
    ));
}

#[test]
fn pointer_sizes_are_read() {
    assert_eq!(
        Property::from_str("__shifted(+pointer-size)").unwrap(),
        Property::ShiftedPointerUsize(false)
    );
    assert_eq!(
        Property::from_str("__shifted( -pointer-size )").unwrap(),
        Property::ShiftedPointerUsize(true)
    );
    assert_eq!(
        "__shifted(-pointer-size)".parse::<Property>().unwrap(),
        Property::ShiftedPointerUsize(true)
    );
}

#[test]
fn other_texts_are_refused() {
    for text in [
        "",
        "__shifted()",
        "__shifted(8",
        "__shifted(8) ",
        " __shifted(8)",
        "__shifted(8)\n",
        "__shifted(- 8)",
        "__shifted(--8)",
        "__shifted(-)",
        "__shifted(0x8)",
        "__shifted(\u{0663})",
        "__shifted(pointer-size)",
        "__shifted(- pointer-size)",
        "__SHIFTED(8)",
    ] {
        assert!(
            matches!(Property::from_str(text), Err(PropertyParseError::UnexpectedProperty)),
            "{:?}",
            text
        );
    }
}

#[test]
fn numbers_out_of_range_are_refused() {
    for text in ["__shifted(9223372036854775808)", "__shifted(-9223372036854775809)"] {
        assert!(matches!(
            Property::from_str(text),
            Err(PropertyParseError::ParseIntProperty(_))
        ));
    }
}

#[test]
fn pointers_are_shifted() {
    assert_eq!(Property::ShiftedPointer(-8).apply(64, pointer(3)), pointer(-5));
    assert_eq!(Property::ShiftedPointerUsize(false).apply(64, pointer(0)), pointer(8));
    assert_eq!(Property::ShiftedPointerUsize(true).apply(32, pointer(0)), pointer(-4));
}

#[test]
fn shifts_are_undone() {
    let there = Property::ShiftedPointer(24).apply(64, pointer(1));
    assert_eq!(Property::ShiftedPointer(-24).apply(64, there), pointer(1));
}

#[test]
fn shifts_out_of_range_change_nothing() {
    assert_eq!(Property::ShiftedPointer(1).apply(64, pointer(i64::MAX)), pointer(i64::MAX));
    assert_eq!(
        Property::ShiftedPointerUsize(true).apply(64, pointer(i64::MIN + 7)),
        pointer(i64::MIN + 7)
    );
}

#[test]
fn other_types_are_not_shifted() {
    let scalar = Arc::new(Type::Scalar { bits: 32 });
    assert_eq!(Property::ShiftedPointer(8).apply(64, scalar.clone()), scalar);
    assert_eq!(Property::ShiftedPointerUsize(false).apply(64, scalar.clone()), scalar);
}
