//! The four-byte example record: fields of 1, 3, 4 and 24 bits.

use bitfield::errors::RangeError;
use bitfield::four_bytes::MyFourBytes;

/// End to end: set all four fields, read each back exactly, and find the
/// buffer equal to the bit-concatenation d(24) || c(4) || b(3) || a(1), least
/// significant bit first.
#[test]
fn end_to_end() {
    let mut rec = MyFourBytes::new();
    assert_eq!(rec.data().len(), 4);
    assert_eq!(rec.set_a(1), Ok(()));
    assert_eq!(rec.set_b(5), Ok(()));
    assert_eq!(rec.set_c(9), Ok(()));
    assert_eq!(rec.set_d(0xABCDEF), Ok(()));

    assert_eq!(rec.get_a(), 1);
    assert_eq!(rec.get_b(), 5);
    assert_eq!(rec.get_c(), 9);
    assert_eq!(rec.get_d(), 0xABCDEF);

    // Byte 0 packs a, b, c: 1 | 5 << 1 | 9 << 4; bytes 1..4 hold d upward.
    assert_eq!(rec.data(), &vec![0x9B, 0xEF, 0xCD, 0xAB]);
}

/// A fresh record is all zero.
#[test]
fn fresh_record_is_zero() {
    let rec = MyFourBytes::new();
    assert_eq!(rec.data(), &vec![0, 0, 0, 0]);
    assert_eq!(rec.get_a(), 0);
    assert_eq!(rec.get_b(), 0);
    assert_eq!(rec.get_c(), 0);
    assert_eq!(rec.get_d(), 0);
}

/// Setting the 3-bit field to 8 fails and no byte of the buffer moves.
#[test]
fn oversized_field_value_fails() {
    let mut rec = MyFourBytes::new();
    assert_eq!(rec.set_a(1), Ok(()));
    assert_eq!(rec.set_c(3), Ok(()));
    let snapshot = rec.data().clone();
    assert_eq!(rec.set_b(8), Err(RangeError));
    assert_eq!(rec.data(), &snapshot);
    assert_eq!(rec.set_a(2), Err(RangeError));
    assert_eq!(rec.set_c(16), Err(RangeError));
    assert_eq!(rec.set_d(0x1000000), Err(RangeError));
    assert_eq!(rec.data(), &snapshot);
    assert_eq!(rec.set_b(7), Ok(()));
    assert_eq!(rec.get_b(), 7);
    assert_eq!(rec.get_a(), 1);
    assert_eq!(rec.get_c(), 3);
}

/// Each setter touches only its own field.
#[test]
fn setters_are_isolated() {
    let mut rec = MyFourBytes::new();
    assert_eq!(rec.set_d(0xFFFFFF), Ok(()));
    assert_eq!(rec.set_b(2), Ok(()));
    assert_eq!(rec.get_d(), 0xFFFFFF);
    assert_eq!(rec.get_a(), 0);
    assert_eq!(rec.get_c(), 0);
    assert_eq!(rec.set_c(15), Ok(()));
    assert_eq!(rec.get_b(), 2);
    assert_eq!(rec.get_d(), 0xFFFFFF);
}
