//! The enum codec: widths, auto-increment discriminants, and decoding.

use bitfield::codec::set_data;
use bitfield::enums::{
    assign_discriminants, build_enum_spec, enum_get, enum_set, find_variant,
    width_for_variant_count,
};
use bitfield::errors::StructuralError;

/// A variant count that is not a power of two is rejected; four variants
/// take exactly two bits.
#[test]
fn variant_count_must_be_power_of_two() {
    assert_eq!(
        width_for_variant_count(3),
        Err(StructuralError::VariantCountNotPowerOfTwo)
    );
    assert_eq!(width_for_variant_count(4), Ok(2));
    assert_eq!(width_for_variant_count(1), Ok(0));
    assert_eq!(width_for_variant_count(2), Ok(1));
    assert_eq!(width_for_variant_count(64), Ok(6));
    assert_eq!(
        width_for_variant_count(0),
        Err(StructuralError::VariantCountNotPowerOfTwo)
    );
    assert_eq!(
        width_for_variant_count(6),
        Err(StructuralError::VariantCountNotPowerOfTwo)
    );
}

/// A three-variant enum fails schema building; a four-variant enum builds
/// with two bits.
#[test]
fn build_rejects_three_accepts_four() {
    let three = vec![None, None, None];
    assert!(matches!(
        build_enum_spec(&three),
        Err(StructuralError::VariantCountNotPowerOfTwo)
    ));
    let four = vec![None, None, None, None];
    let es = build_enum_spec(&four).unwrap();
    assert_eq!(es.bit_width, 2);
    assert_eq!(es.variant_count, 4);
    assert_eq!(es.discriminants, vec![0, 1, 2, 3]);
}

/// Auto-increment: an explicit discriminant resets the running value, each
/// omission adds one, and an omitted first variant starts at zero.
#[test]
fn auto_increment_discriminants() {
    let decls = vec![None, Some(5), None, None];
    assert_eq!(assign_discriminants(&decls), Ok(vec![0, 5, 6, 7]));
    let decls = vec![None, None, Some(1), None];
    assert_eq!(assign_discriminants(&decls), Ok(vec![0, 1, 1, 2]));
    let decls = vec![Some(3)];
    assert_eq!(assign_discriminants(&decls), Ok(vec![3]));
}

/// With discriminants 0, 5, 6, 7, the raw value 6 names the third variant.
#[test]
fn decode_by_scan() {
    let ds = vec![0, 5, 6, 7];
    assert_eq!(find_variant(&ds, 6), Some(2));
    assert_eq!(find_variant(&ds, 0), Some(0));
    assert_eq!(find_variant(&ds, 4), None);
}

/// A discriminant at or past the variant count is rejected.
#[test]
fn discriminant_out_of_range() {
    // Explicit 5 in a four-variant enum, and the auto-increments after it,
    // all fall outside [0, 4).
    let decls = vec![None, Some(5), None, None];
    assert!(matches!(
        build_enum_spec(&decls),
        Err(StructuralError::DiscriminantOutOfRange)
    ));
    let decls = vec![Some(2), None];
    assert!(matches!(
        build_enum_spec(&decls),
        Err(StructuralError::DiscriminantOutOfRange)
    ));
    // An implicit discriminant past u64::MAX is out of every range.
    let decls = vec![Some(u64::MAX), None];
    assert!(matches!(
        build_enum_spec(&decls),
        Err(StructuralError::DiscriminantOutOfRange)
    ));
}

/// Two variants sharing one discriminant are rejected.
#[test]
fn duplicate_discriminant() {
    let decls = vec![Some(0), Some(0)];
    assert!(matches!(
        build_enum_spec(&decls),
        Err(StructuralError::DuplicateDiscriminant)
    ));
    let decls = vec![Some(1), None, Some(0), None];
    // Assigned 1, 2, 0, 1: the first and last collide.
    assert!(matches!(
        build_enum_spec(&decls),
        Err(StructuralError::DuplicateDiscriminant)
    ));
}

/// An enum field round-trips through the buffer: each variant written is the
/// variant read.
#[test]
fn enum_field_round_trip() {
    let decls = vec![None, Some(2), None, Some(1)];
    let es = build_enum_spec(&decls).unwrap();
    assert_eq!(es.discriminants, vec![0, 2, 3, 1]);
    let mut buf = vec![0u8; 1];
    for variant in 0..4usize {
        enum_set(&mut buf, 3, &es, variant);
        assert_eq!(enum_get(&buf, 3, &es), Ok(variant));
    }
}

/// Every two-bit pattern decodes under a validated four-variant schema, to
/// the variant whose discriminant it is.
#[test]
fn decode_validated_schema_is_total() {
    let decls = vec![None, Some(2), None, Some(1)];
    let es = build_enum_spec(&decls).unwrap();
    let mut buf = vec![0u8; 1];
    for raw in 0..4u64 {
        set_data(&mut buf, 0, raw, 2);
        let variant = enum_get(&buf, 0, &es).unwrap();
        assert_eq!(es.discriminants[variant], raw);
    }
}

/// Decoding consults the table a validated schema built: index by the raw
/// value, get the variant.
#[test]
fn decode_table_lookup() {
    let decls = vec![None, Some(2), None, Some(1)];
    let es = build_enum_spec(&decls).unwrap();
    assert_eq!(es.table, vec![Some(0), Some(3), Some(1), Some(2)]);
    assert_eq!(es.decode(2), Ok(1));
    assert_eq!(es.encode(1), 2);
    assert_eq!(es.decode(1), Ok(3));
}
