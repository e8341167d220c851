use bias_core::cio::{TypeDB, TypeRef};
use bias_core::ir::types::StructField;
use bias_core::ir::{Address, Type};
use std::sync::Arc;
use ustr::Ustr;

fn at(offset: u64) -> Address {
    Address { offset }
}

fn scalar(bits: u32) -> Arc<Type> {
    Arc::new(Type::Scalar { bits })
}

fn pair() -> Arc<Type> {
    Type::struct_from_fields(
        Ustr::from("pair"),
        vec![
            StructField::new(Ustr::from("low"), 0, scalar(16)),
            StructField::new(Ustr::from("high"), 2, scalar(8)),
        ],
        4,
    )
}

#[test]
fn addresses_wrap() {
    assert_eq!(at(0x10).after(5), at(0x15));
    assert_eq!(at(u64::MAX).after(3), at(2));
}

#[test]
fn code_types_are_read_back() {
    let mut db = TypeDB::new();
    assert_eq!(db.get_code_type_at(at(4)), None);
    db.set_code_type_at(at(4), scalar(8));
    db.set_code_type_at(at(8), scalar(16));
    db.set_code_type_at(at(4), scalar(32));
    assert_eq!(db.get_code_type_at(at(4)), Some(scalar(32)));
    assert_eq!(db.get_code_type_at(at(8)), Some(scalar(16)));
    assert_eq!(db.get_code_type_at(at(5)), None);
    assert_eq!(db.get_data_type_at(at(4)), None);
}

#[test]
fn data_types_are_read_back_inside() {
    let mut db = TypeDB::new();
    db.set_data_type_at(at(0x100), pair());
    assert_eq!(db.get_data_type_at(at(0x100)), Some(pair()));
    assert_eq!(db.get_data_type_at(at(0x101)), None);
    assert_eq!(db.get_data_type_at(at(0x102)), Some(scalar(8)));
    assert_eq!(db.get_data_type_at(at(0x103)), None);
    assert_eq!(db.get_data_type_at(at(0x104)), None);
    assert_eq!(db.data.get(&0x102), Some(&TypeRef::TRef(at(0x100), 2)));
    assert_eq!(db.data.get(&0x104), None);
    assert!(db.data.get(&0x103).unwrap().has_parent());
    assert!(!db.data.get(&0x100).unwrap().has_parent());
}

#[test]
fn data_wraps_round_the_last_address() {
    let mut db = TypeDB::new();
    db.set_data_type_at(at(u64::MAX - 1), pair());
    assert_eq!(db.get_data_type_at(at(u64::MAX - 1)), Some(pair()));
    assert_eq!(db.get_data_type_at(at(0)), Some(scalar(8)));
    assert_eq!(db.data.len(), 4);
}

#[test]
fn values_without_size_take_one_address() {
    let mut db = TypeDB::new();
    db.set_data_type_at(at(7), Arc::new(Type::Void));
    assert_eq!(db.get_data_type_at(at(7)), Some(Arc::new(Type::Void)));
    assert_eq!(db.data.len(), 1);
}

#[test]
fn later_values_replace_earlier_ones() {
    let mut db = TypeDB::new();
    db.set_data_type_at(at(0), pair());
    db.set_data_type_at(at(0), scalar(32));
    assert_eq!(db.get_data_type_at(at(0)), Some(scalar(32)));
    assert_eq!(db.get_data_type_at(at(2)), None);

    db.set_data_type_at(at(8), pair());
    db.set_data_type_at(at(9), scalar(8));
    assert_eq!(db.get_data_type_at(at(8)), Some(pair()));
    assert_eq!(db.get_data_type_at(at(9)), Some(scalar(8)));
    assert_eq!(db.get_data_type_at(at(10)), Some(scalar(8)));
}

#[test]
fn a_part_of_a_part_has_no_type() {
    let mut db = TypeDB::new();
    db.set_data_type_at(at(4), pair());
    db.set_data_type_at(at(2), scalar(32));
    assert_eq!(db.get_data_type_at(at(6)), None);
    assert_eq!(db.get_data_type_at(at(4)), None);
    assert_eq!(db.get_data_type_at(at(2)), Some(scalar(32)));
}

#[test]
fn merging_leaves_places_behind() {
    let mut a = TypeDB::new();
    a.set_code_type_at(at(1), scalar(8));
    let mut b = TypeDB::new();
    b.set_code_type_at(at(2), scalar(8));
    b.set_data_type_at(at(3), scalar(8));
    a.merge(b);
    assert_eq!(a.get_code_type_at(at(1)), Some(scalar(8)));
    assert_eq!(a.get_code_type_at(at(2)), None);
    assert_eq!(a.get_data_type_at(at(3)), None);
}

#[test]
fn a_copy_keeps_its_places() {
    let mut db = TypeDB::new();
    db.set_code_type_at(at(1), scalar(8));
    db.set_data_type_at(at(2), pair());
    let copy = db.clone();
    db.set_code_type_at(at(1), scalar(16));
    db.set_data_type_at(at(2), scalar(8));
    assert_eq!(copy.get_code_type_at(at(1)), Some(scalar(8)));
    assert_eq!(copy.get_data_type_at(at(4)), Some(scalar(8)));
    assert_eq!(copy.get_data_type_at(at(2)), Some(pair()));
    assert_eq!(TypeRef::TRef(at(2), 1).clone(), TypeRef::TRef(at(2), 1));
}
