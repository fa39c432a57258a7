//! Bit-level field packing.
//!
//! A packed record lays heterogeneous fields of 1 to 64 bits contiguously
//! inside a byte buffer, least significant bit of byte 0 first: field 0
//! occupies the low bits of byte 0, later fields continue upward, and a field
//! that spans a byte boundary places its low-order bits in the lower byte.
//!
//! The crate is organised leaf-first:
//! - [`bits`] gives the mathematical model: a buffer as a flat sequence of
//!   bits, and the unsigned value a run of bits denotes.
//! - [`codec`] reads and writes a `width`-bit unsigned value at any bit
//!   offset of a buffer, across byte boundaries, and proves the round-trip
//!   and isolation laws.
//! - [`specifier`] and [`bit_types`] map a field's bit width to its natural
//!   unsigned representation (`B1` through `B64`, and `bool`).
//! - [`layout`] turns an ordered list of field widths into cumulative bit
//!   offsets and checks that the total is a whole number of bytes.
//! - [`enums`] encodes enum-valued fields: minimal width from the variant
//!   count, auto-increment discriminants, and a decode table.
//! - [`record`] assembles it all into a packed record with per-field get and
//!   set operations that reject out-of-range values before touching a byte.
//! - [`four_bytes`] is a worked example: a four-byte record with fields of
//!   1, 3, 4 and 24 bits.

pub mod bit_types;
pub mod bits;
pub mod codec;
pub mod enums;
pub mod errors;
pub mod four_bytes;
pub mod layout;
pub mod record;
pub mod specifier;
