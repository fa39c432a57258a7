//! The packed record: typed field access over a validated layout.

use bitfield::enums::build_enum_spec;
use bitfield::errors::RangeError;
use bitfield::layout::{compute_layout, FieldKind, FieldSpec};
use bitfield::record::PackedRecord;

fn mixed_layout() -> Vec<FieldSpec> {
    let es = build_enum_spec(&vec![None, Some(2), None, Some(1)]).unwrap();
    vec![
        FieldSpec { name: String::from("flag"), bit_width: 1, kind: FieldKind::Bool },
        FieldSpec { name: String::from("mode"), bit_width: 2, kind: FieldKind::Enum(es) },
        FieldSpec { name: String::from("count"), bit_width: 5, kind: FieldKind::Unsigned },
    ]
}

/// A fresh record reads zero in every field and its buffer is all zeros.
#[test]
fn new_record_is_zero() {
    let layout = compute_layout(mixed_layout()).unwrap();
    let rec = PackedRecord::new(layout);
    assert_eq!(rec.data(), &vec![0u8]);
    assert_eq!(rec.get_field(0), 0);
    assert_eq!(rec.get_field(1), 0);
    assert_eq!(rec.get_field(2), 0);
    assert_eq!(rec.num_fields(), 3);
}

/// Each field round-trips through its typed accessor, and setting one field
/// leaves the others alone.
#[test]
fn typed_access_and_isolation() {
    let layout = compute_layout(mixed_layout()).unwrap();
    let mut rec = PackedRecord::new(layout);
    rec.set_bool_field(0, true);
    rec.set_enum_field(1, 3);
    assert_eq!(rec.set_field(2, 21), Ok(()));

    assert!(rec.get_bool_field(0));
    assert_eq!(rec.get_enum_field(1), Ok(3));
    assert_eq!(rec.get_field(2), 21);

    // Variant 3 has discriminant 1: bits are 1 | 01 << 1 | 10101 << 3.
    assert_eq!(rec.data(), &vec![0b1010_1011]);

    rec.set_bool_field(0, false);
    assert_eq!(rec.get_enum_field(1), Ok(3));
    assert_eq!(rec.get_field(2), 21);
    assert!(!rec.get_bool_field(0));
}

/// An oversized raw write is rejected and no byte of the buffer changes.
#[test]
fn record_rejects_oversized_value() {
    let layout = compute_layout(mixed_layout()).unwrap();
    let mut rec = PackedRecord::new(layout);
    assert_eq!(rec.set_field(2, 7), Ok(()));
    let snapshot = rec.data().clone();
    assert_eq!(rec.set_field(2, 32), Err(RangeError));
    assert_eq!(rec.data(), &snapshot);
    assert_eq!(rec.get_field(2), 7);
}

/// Raw access sees the stored bits of a typed field: the enum variant's
/// discriminant, the boolean's bit.
#[test]
fn raw_view_of_typed_fields() {
    let layout = compute_layout(mixed_layout()).unwrap();
    let mut rec = PackedRecord::new(layout);
    rec.set_enum_field(1, 1);
    assert_eq!(rec.get_field(1), 2);
    rec.set_bool_field(0, true);
    assert_eq!(rec.get_field(0), 1);
}

/// A record with a field in every byte position: a 64-bit field split around
/// narrow ones still round-trips.
#[test]
fn wide_fields() {
    let fields = vec![
        FieldSpec { name: String::from("lead"), bit_width: 3, kind: FieldKind::Unsigned },
        FieldSpec { name: String::from("wide"), bit_width: 64, kind: FieldKind::Unsigned },
        FieldSpec { name: String::from("tail"), bit_width: 5, kind: FieldKind::Unsigned },
    ];
    let layout = compute_layout(fields).unwrap();
    let mut rec = PackedRecord::new(layout);
    assert_eq!(rec.set_field(0, 5), Ok(()));
    assert_eq!(rec.set_field(1, u64::MAX - 12345), Ok(()));
    assert_eq!(rec.set_field(2, 17), Ok(()));
    assert_eq!(rec.get_field(0), 5);
    assert_eq!(rec.get_field(1), u64::MAX - 12345);
    assert_eq!(rec.get_field(2), 17);
}
