//! The specifier types: widths, natural representations, and checked access.

use bitfield::bit_types::{B16, B24, B3, B33, B64, B8, B9};
use bitfield::errors::RangeError;
use bitfield::specifier::{get_bool, natural_width, set_bool, Specifier};

/// Each specifier names its width.
#[test]
fn specifier_widths() {
    assert_eq!(B3::bits(), 3);
    assert_eq!(B8::bits(), 8);
    assert_eq!(B9::bits(), 9);
    assert_eq!(B24::bits(), 24);
    assert_eq!(B64::bits(), 64);
    assert_eq!(<bool as Specifier>::bits(), 1);
}

/// The registry rule: 1-8 bits live in 8, 9-16 in 16, 17-32 in 32, and
/// 33-64 in 64.
#[test]
fn natural_widths() {
    assert_eq!(natural_width(1), 8);
    assert_eq!(natural_width(8), 8);
    assert_eq!(natural_width(9), 16);
    assert_eq!(natural_width(16), 16);
    assert_eq!(natural_width(17), 32);
    assert_eq!(natural_width(32), 32);
    assert_eq!(natural_width(33), 64);
    assert_eq!(natural_width(64), 64);
}

/// Set and get through a specifier type, across a byte boundary, in the
/// field's natural type: a u16 for 16 bits, which any u16 value fits.
#[test]
fn specifier_round_trip() {
    let mut buf = vec![0u8; 3];
    assert_eq!(B16::set(&mut buf, 5, 0xBEEF), Ok(()));
    assert_eq!(B16::get(&buf, 5), 0xBEEF);
    assert_eq!(B16::set(&mut buf, 5, u16::MAX), Ok(()));
    assert_eq!(B16::get(&buf, 5), u16::MAX);
}

/// A width that does not fill its natural type leaves room for oversized
/// values, which are rejected with the buffer untouched.
#[test]
fn specifier_rejects_oversized() {
    let mut buf = vec![0u8; 2];
    assert_eq!(B3::set(&mut buf, 6, 0b101), Ok(()));
    let snapshot = buf.clone();
    assert_eq!(B3::set(&mut buf, 6, 8), Err(RangeError));
    assert_eq!(buf, snapshot);
    assert_eq!(B3::get(&buf, 6), 0b101);
}

/// A 33-bit specifier holds values past 32 bits in a u64 and rejects the
/// 34-bit ones.
#[test]
fn wide_specifier() {
    let mut buf = vec![0u8; 6];
    assert_eq!(B33::set(&mut buf, 2, 0x1_8000_0001), Ok(()));
    assert_eq!(B33::get(&buf, 2), 0x1_8000_0001);
    assert_eq!(B33::set(&mut buf, 2, 0x2_0000_0000), Err(RangeError));
    assert_eq!(B33::get(&buf, 2), 0x1_8000_0001);
}

/// The boolean specifier exchanges booleans: true is a set bit.
#[test]
fn bool_specifier() {
    let mut buf = vec![0u8; 1];
    assert_eq!(<bool as Specifier>::set(&mut buf, 6, true), Ok(()));
    assert!(<bool as Specifier>::get(&buf, 6));
    assert_eq!(buf, vec![0x40]);
    assert_eq!(<bool as Specifier>::set(&mut buf, 6, false), Ok(()));
    assert!(!<bool as Specifier>::get(&buf, 6));
    assert_eq!(buf, vec![0x00]);
}

/// Boolean reads and writes: true sets the bit, false clears it, neighbours
/// keep their values.
#[test]
fn bool_ops() {
    let mut buf = vec![0u8; 1];
    set_bool(&mut buf, 3, true);
    set_bool(&mut buf, 4, true);
    assert!(get_bool(&buf, 3));
    assert_eq!(buf, vec![0b0001_1000]);
    set_bool(&mut buf, 3, false);
    assert!(!get_bool(&buf, 3));
    assert!(get_bool(&buf, 4));
    assert_eq!(buf, vec![0b0001_0000]);
}
