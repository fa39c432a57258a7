//! The layout validator: offsets, totals, and byte alignment.

use bitfield::enums::build_enum_spec;
use bitfield::errors::StructuralError;
use bitfield::layout::{compute_layout, FieldKind, FieldSpec};

fn unsigned(name: &str, bit_width: usize) -> FieldSpec {
    FieldSpec { name: String::from(name), bit_width, kind: FieldKind::Unsigned }
}

/// Widths 1, 3, 4 sum to 8 bits and are accepted; 1, 3, 3 sum to 7 and are
/// rejected.
#[test]
fn byte_alignment_rule() {
    let ok = vec![unsigned("a", 1), unsigned("b", 3), unsigned("c", 4)];
    let layout = compute_layout(ok).unwrap();
    assert_eq!(layout.total_bits, 8);
    assert_eq!(layout.offsets, vec![0, 1, 4]);

    let bad = vec![unsigned("a", 1), unsigned("b", 3), unsigned("c", 3)];
    assert!(matches!(
        compute_layout(bad),
        Err(StructuralError::TotalSizeNotByteAligned)
    ));
}

/// Offsets are the running sums of the widths, starting at zero.
#[test]
fn cumulative_offsets() {
    let fields = vec![
        unsigned("a", 1),
        unsigned("b", 3),
        unsigned("c", 4),
        unsigned("d", 24),
    ];
    let layout = compute_layout(fields).unwrap();
    assert_eq!(layout.offsets, vec![0, 1, 4, 8]);
    assert_eq!(layout.total_bits, 32);
}

/// A width of zero, or past 64, is out of range.
#[test]
fn width_out_of_range() {
    let zero = vec![unsigned("a", 0), unsigned("b", 8)];
    assert!(matches!(
        compute_layout(zero),
        Err(StructuralError::WidthOutOfRange)
    ));
    let wide = vec![unsigned("a", 65), unsigned("b", 7)];
    assert!(matches!(
        compute_layout(wide),
        Err(StructuralError::WidthOutOfRange)
    ));
}

/// An empty field list is a zero-byte record, trivially aligned.
#[test]
fn empty_layout() {
    let layout = compute_layout(Vec::new()).unwrap();
    assert_eq!(layout.total_bits, 0);
    assert_eq!(layout.offsets, Vec::<usize>::new());
}

/// A boolean field must be one bit; an enum field must be exactly as wide as
/// its schema.
#[test]
fn kind_width_must_match() {
    let bad_bool = vec![
        FieldSpec { name: String::from("flag"), bit_width: 2, kind: FieldKind::Bool },
        unsigned("pad", 6),
    ];
    assert!(matches!(
        compute_layout(bad_bool),
        Err(StructuralError::KindWidthMismatch)
    ));

    let es = build_enum_spec(&vec![None, None, None, None]).unwrap();
    let bad_enum = vec![
        FieldSpec { name: String::from("mode"), bit_width: 3, kind: FieldKind::Enum(es) },
        unsigned("pad", 5),
    ];
    assert!(matches!(
        compute_layout(bad_enum),
        Err(StructuralError::KindWidthMismatch)
    ));

    let es = build_enum_spec(&vec![None, None, None, None]).unwrap();
    let good = vec![
        FieldSpec { name: String::from("mode"), bit_width: 2, kind: FieldKind::Enum(es) },
        unsigned("pad", 6),
    ];
    assert!(compute_layout(good).is_ok());
}
