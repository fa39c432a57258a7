//! The bit codec: round trips, isolation, and oversized-value rejection.

use bitfield::codec::{get_bit, get_data, set_bit, set_data, set_data_checked};
use bitfield::errors::RangeError;

/// Round trip for every width at every offset up to 64 minus the width, so
/// the field lands on every byte-boundary position: what was written is read
/// back exactly.
#[test]
fn round_trip_all_widths() {
    for w in 1..=64usize {
        let max: u64 = if w == 64 { u64::MAX } else { (1u64 << w) - 1 };
        for offset in 0..=(64 - w) {
            for v in [max, max / 2, 1, 0] {
                let mut buf = vec![0xA5u8; 16];
                set_data(&mut buf, offset, v, w);
                assert_eq!(get_data(&buf, offset, w), v);
            }
        }
    }
}

/// Round trip of a handful of values in a 3-bit field at every offset that
/// keeps the field inside one 64-bit span.
#[test]
fn round_trip_three_bits_every_offset() {
    for offset in 0..=61usize {
        for v in 0..8u64 {
            let mut buf = vec![0u8; 8];
            set_data(&mut buf, offset, v, 3);
            assert_eq!(get_data(&buf, offset, 3), v);
        }
    }
}

/// A field spanning three bytes comes back intact and lands on the expected
/// bytes: low-order bits in the lower byte.
#[test]
fn cross_byte_layout() {
    let mut buf = vec![0u8; 4];
    set_data(&mut buf, 4, 0xABCD, 16);
    assert_eq!(get_data(&buf, 4, 16), 0xABCD);
    // 0xABCD << 4 == 0xABCD0: bytes upward from byte 0.
    assert_eq!(buf, vec![0xD0, 0xBC, 0x0A, 0x00]);
}

/// Setting one field never changes a disjoint one.
#[test]
fn non_interference() {
    let mut buf = vec![0u8; 4];
    set_data(&mut buf, 3, 0x15, 5);
    let before = get_data(&buf, 3, 5);
    set_data(&mut buf, 8, 0xFFFF, 16);
    assert_eq!(get_data(&buf, 3, 5), before);
    set_data(&mut buf, 0, 0b111, 3);
    assert_eq!(get_data(&buf, 3, 5), before);
    assert_eq!(get_data(&buf, 8, 16), 0xFFFF);
}

/// The checked set rejects an oversized value without touching any byte.
#[test]
fn oversized_value_rejected() {
    let mut buf = vec![0u8; 2];
    set_data(&mut buf, 2, 0b101, 3);
    let snapshot = buf.clone();
    assert_eq!(set_data_checked(&mut buf, 2, 8, 3), Err(RangeError));
    assert_eq!(buf, snapshot);
    assert_eq!(set_data_checked(&mut buf, 2, 7, 3), Ok(()));
    assert_eq!(get_data(&buf, 2, 3), 7);
}

/// The checked set accepts every value that fits the width.
#[test]
fn checked_set_accepts_fitting_values() {
    let mut buf = vec![0u8; 9];
    assert_eq!(set_data_checked(&mut buf, 5, u64::MAX, 64), Ok(()));
    assert_eq!(get_data(&buf, 5, 64), u64::MAX);
    assert_eq!(set_data_checked(&mut buf, 0, 1, 1), Ok(()));
    assert_eq!(set_data_checked(&mut buf, 0, 2, 1), Err(RangeError));
}

/// Single-bit reads and writes: set, clear, and leave the rest alone.
#[test]
fn bit_ops() {
    let mut buf = vec![0u8; 2];
    set_bit(&mut buf, 9, true);
    assert!(get_bit(&buf, 9));
    assert_eq!(buf, vec![0x00, 0x02]);
    set_bit(&mut buf, 0, true);
    set_bit(&mut buf, 9, false);
    assert!(!get_bit(&buf, 9));
    assert_eq!(buf, vec![0x01, 0x00]);
}

/// Writing the whole 64-bit range at a byte-misaligned offset.
#[test]
fn full_width_misaligned() {
    let mut buf = vec![0u8; 9];
    set_data(&mut buf, 5, 0x0123_4567_89AB_CDEF, 64);
    assert_eq!(get_data(&buf, 5, 64), 0x0123_4567_89AB_CDEF);
}
