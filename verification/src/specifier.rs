//! The specifier abstraction: a field type of a fixed bit width.
//!
//! A [`Specifier`] names a bit width between 1 and 64 and carries the checked
//! set and get operations for a field of that width. The sixty-four
//! fixed-width specifiers `B1` through `B64` live in [`crate::bit_types`];
//! `bool` is the one-bit special case. [`natural_width`] is the registry rule
//! that maps a bit width to the smallest natural unsigned integer width (8,
//! 16, 32 or 64 bits) covering it: a get's 64-bit result always fits that
//! natural type, so callers may narrow it without loss.

use crate::bits::{bits_of, field_value, lemma_value_of_singleton};
use crate::codec::{get_bit, get_data, set_bit, set_data_checked};
use crate::errors::RangeError;
use vstd::arithmetic::power2::pow2;
use vstd::prelude::*;

verus! {

/// A field type of a fixed bit width between 1 and 64.
///
/// `set` writes a value into a field of that width and `get` reads it back;
/// both address the field by the bit offset where it starts and exchange the
/// field's natural representation `U`, never a raw 64-bit accumulator. An
/// oversized value is rejected before any byte is written.
pub trait Specifier {
    /// The natural representation handed to callers: the smallest of `u8`,
    /// `u16`, `u32`, `u64` and `bool` that covers the width.
    type U;

    /// The field's width in bits.
    spec fn spec_bits() -> u64;

    /// The unsigned value a natural-typed `v` denotes.
    spec fn u_val(v: Self::U) -> u64;

    /// Every specifier covers between 1 and 64 bits.
    proof fn bits_in_range()
        ensures
            1 <= Self::spec_bits() <= 64,
    ;

    /// The field's width in bits.
    fn bits() -> (r: u64)
        ensures
            r == Self::spec_bits(),
    ;

    /// Writes `val` into the field at bit `offset` when it fits the width,
    /// and rejects it without touching the buffer when it does not.
    fn set(data: &mut Vec<u8>, offset: usize, val: Self::U) -> (r: Result<(), RangeError>)
        requires
            offset + Self::spec_bits() <= old(data)@.len() * 8,
            offset + Self::spec_bits() <= usize::MAX,
        ensures
            final(data)@.len() == old(data)@.len(),
            r is Ok <==> (Self::u_val(val) as nat) < pow2(Self::spec_bits() as nat),
            r is Ok ==> field_value(final(data)@, offset as int, Self::spec_bits() as int)
                == Self::u_val(val),
            r is Ok ==> forall|i: int|
                0 <= i < old(data)@.len() * 8 && !(offset <= i < offset + Self::spec_bits())
                    ==> bits_of(final(data)@)[i] == bits_of(old(data)@)[i],
            r is Err ==> final(data)@ == old(data)@,
    ;

    /// Reads the field at bit `offset`, right-justified and narrowed to the
    /// natural representation, which it always fits.
    fn get(data: &Vec<u8>, offset: usize) -> (r: Self::U)
        requires
            offset + Self::spec_bits() <= data@.len() * 8,
            offset + Self::spec_bits() <= usize::MAX,
        ensures
            Self::u_val(r) as nat == field_value(data@, offset as int, Self::spec_bits() as int),
            Self::u_val(r) < pow2(Self::spec_bits() as nat),
    ;
}

/// The smallest natural unsigned width covering a field of `bits` bits:
/// 1 to 8 bits are held in 8, 9 to 16 in 16, 17 to 32 in 32, and 33 to 64
/// in 64.
pub open spec fn spec_natural_width(bits: u64) -> u64 {
    if bits <= 8 {
        8
    } else if bits <= 16 {
        16
    } else if bits <= 32 {
        32
    } else {
        64
    }
}

/// The width of the natural unsigned integer type a field of `bits` bits is
/// exposed as: a value below `2^bits` fits it, since `bits` never exceeds it.
pub fn natural_width(bits: u64) -> (r: u64)
    requires
        1 <= bits <= 64,
    ensures
        r == spec_natural_width(bits),
        bits <= r,
        r == 8 || r == 16 || r == 32 || r == 64,
{
    if bits <= 8 {
        8
    } else if bits <= 16 {
        16
    } else if bits <= 32 {
        32
    } else {
        64
    }
}

/// Reads a one-bit field as a boolean: the bit itself, and equally whether
/// the field's value is 1.
pub fn get_bool(data: &Vec<u8>, offset: usize) -> (r: bool)
    requires
        offset < data@.len() * 8,
    ensures
        r == bits_of(data@)[offset as int],
        r == (field_value(data@, offset as int, 1) == 1),
{
    proof {
        let s = bits_of(data@).subrange(offset as int, offset as int + 1);
        lemma_value_of_singleton(s);
    }
    get_bit(data, offset)
}

/// Writes a one-bit field from a boolean: sets the bit for true, clears it
/// for false, and leaves every other bit of the buffer unchanged.
pub fn set_bool(data: &mut Vec<u8>, offset: usize, val: bool)
    requires
        offset < old(data)@.len() * 8,
    ensures
        final(data)@.len() == old(data)@.len(),
        bits_of(final(data)@) == bits_of(old(data)@).update(offset as int, val),
        field_value(final(data)@, offset as int, 1) == if val {
            1nat
        } else {
            0nat
        },
{
    set_bit(data, offset, val);
    proof {
        let s = bits_of(data@).subrange(offset as int, offset as int + 1);
        lemma_value_of_singleton(s);
    }
}

/// A boolean field: the one-bit specifier. False stands for a clear bit and
/// true for a set one, so every boolean fits and no write fails.
impl Specifier for bool {
    type U = bool;

    open spec fn spec_bits() -> u64 {
        1
    }

    open spec fn u_val(v: bool) -> u64 {
        if v {
            1
        } else {
            0
        }
    }

    proof fn bits_in_range() {
    }

    fn bits() -> u64 {
        1
    }

    fn set(data: &mut Vec<u8>, offset: usize, val: bool) -> Result<(), RangeError> {
        proof {
            vstd::arithmetic::power2::lemma2_to64();
        }
        set_data_checked(data, offset, if val { 1 } else { 0 }, 1)
    }

    fn get(data: &Vec<u8>, offset: usize) -> bool {
        proof {
            vstd::arithmetic::power2::lemma2_to64();
        }
        get_data(data, offset, 1) == 1
    }
}

} // verus!
