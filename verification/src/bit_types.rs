//! The sixty-four fixed-width field types `B1` through `B64`.
//!
//! `Bn` names a field of exactly `n` bits. Each implements
//! [`Specifier`](crate::specifier::Specifier) by delegating to the bit codec
//! with its width; the checked set rejects any value of `n` or more bits
//! before a byte is written. The natural representation of each width
//! follows the registry rule [`crate::specifier::natural_width`]: `u8` up to
//! 8 bits, `u16` up to 16, `u32` up to 32, and `u64` beyond; a read is
//! narrowed to it without loss, a written value is widened from it.

use crate::codec::{get_data, set_data_checked};
use crate::errors::RangeError;
use crate::specifier::Specifier;
use vstd::arithmetic::power2::lemma2_to64;
use vstd::prelude::*;

verus! {

/// A 1-bit field; its natural representation is `u8`.
pub struct B1;

impl Specifier for B1 {
    type U = u8;

    open spec fn spec_bits() -> u64 {
        1
    }

    open spec fn u_val(v: u8) -> u64 {
        v as u64
    }

    proof fn bits_in_range() {
    }

    fn bits() -> u64 {
        1
    }

    fn set(data: &mut Vec<u8>, offset: usize, val: u8) -> Result<(), RangeError> {
        set_data_checked(data, offset, val as u64, 1)
    }

    fn get(data: &Vec<u8>, offset: usize) -> u8 {
        proof {
            lemma2_to64();
        }
        get_data(data, offset, 1) as u8
    }
}

/// A 2-bit field; its natural representation is `u8`.
pub struct B2;

impl Specifier for B2 {
    type U = u8;

    open spec fn spec_bits() -> u64 {
        2
    }

    open spec fn u_val(v: u8) -> u64 {
        v as u64
    }

    proof fn bits_in_range() {
    }

    fn bits() -> u64 {
        2
    }

    fn set(data: &mut Vec<u8>, offset: usize, val: u8) -> Result<(), RangeError> {
        set_data_checked(data, offset, val as u64, 2)
    }

    fn get(data: &Vec<u8>, offset: usize) -> u8 {
        proof {
            lemma2_to64();
        }
        get_data(data, offset, 2) as u8
    }
}

/// A 3-bit field; its natural representation is `u8`.
pub struct B3;

impl Specifier for B3 {
    type U = u8;

    open spec fn spec_bits() -> u64 {
        3
    }

    open spec fn u_val(v: u8) -> u64 {
        v as u64
    }

    proof fn bits_in_range() {
    }

    fn bits() -> u64 {
        3
    }

    fn set(data: &mut Vec<u8>, offset: usize, val: u8) -> Result<(), RangeError> {
        set_data_checked(data, offset, val as u64, 3)
    }

    fn get(data: &Vec<u8>, offset: usize) -> u8 {
        proof {
            lemma2_to64();
        }
        get_data(data, offset, 3) as u8
    }
}

/// A 4-bit field; its natural representation is `u8`.
pub struct B4;

impl Specifier for B4 {
    type U = u8;

    open spec fn spec_bits() -> u64 {
        4
    }

    open spec fn u_val(v: u8) -> u64 {
        v as u64
    }

    proof fn bits_in_range() {
    }

    fn bits() -> u64 {
        4
    }

    fn set(data: &mut Vec<u8>, offset: usize, val: u8) -> Result<(), RangeError> {
        set_data_checked(data, offset, val as u64, 4)
    }

    fn get(data: &Vec<u8>, offset: usize) -> u8 {
        proof {
            lemma2_to64();
        }
        get_data(data, offset, 4) as u8
    }
}

/// A 5-bit field; its natural representation is `u8`.
pub struct B5;

impl Specifier for B5 {
    type U = u8;

    open spec fn spec_bits() -> u64 {
        5
    }

    open spec fn u_val(v: u8) -> u64 {
        v as u64
    }

    proof fn bits_in_range() {
    }

    fn bits() -> u64 {
        5
    }

    fn set(data: &mut Vec<u8>, offset: usize, val: u8) -> Result<(), RangeError> {
        set_data_checked(data, offset, val as u64, 5)
    }

    fn get(data: &Vec<u8>, offset: usize) -> u8 {
        proof {
            lemma2_to64();
        }
        get_data(data, offset, 5) as u8
    }
}

/// A 6-bit field; its natural representation is `u8`.
pub struct B6;

impl Specifier for B6 {
    type U = u8;

    open spec fn spec_bits() -> u64 {
        6
    }

    open spec fn u_val(v: u8) -> u64 {
        v as u64
    }

    proof fn bits_in_range() {
    }

    fn bits() -> u64 {
        6
    }

    fn set(data: &mut Vec<u8>, offset: usize, val: u8) -> Result<(), RangeError> {
        set_data_checked(data, offset, val as u64, 6)
    }

    fn get(data: &Vec<u8>, offset: usize) -> u8 {
        proof {
            lemma2_to64();
        }
        get_data(data, offset, 6) as u8
    }
}

/// A 7-bit field; its natural representation is `u8`.
pub struct B7;

impl Specifier for B7 {
    type U = u8;

    open spec fn spec_bits() -> u64 {
        7
    }

    open spec fn u_val(v: u8) -> u64 {
        v as u64
    }

    proof fn bits_in_range() {
    }

    fn bits() -> u64 {
        7
    }

    fn set(data: &mut Vec<u8>, offset: usize, val: u8) -> Result<(), RangeError> {
        set_data_checked(data, offset, val as u64, 7)
    }

    fn get(data: &Vec<u8>, offset: usize) -> u8 {
        proof {
            lemma2_to64();
        }
        get_data(data, offset, 7) as u8
    }
}

/// A 8-bit field; its natural representation is `u8`.
pub struct B8;

impl Specifier for B8 {
    type U = u8;

    open spec fn spec_bits() -> u64 {
        8
    }

    open spec fn u_val(v: u8) -> u64 {
        v as u64
    }

    proof fn bits_in_range() {
    }

    fn bits() -> u64 {
        8
    }

    fn set(data: &mut Vec<u8>, offset: usize, val: u8) -> Result<(), RangeError> {
        set_data_checked(data, offset, val as u64, 8)
    }

    fn get(data: &Vec<u8>, offset: usize) -> u8 {
        proof {
            lemma2_to64();
        }
        get_data(data, offset, 8) as u8
    }
}

/// A 9-bit field; its natural representation is `u16`.
pub struct B9;

impl Specifier for B9 {
    type U = u16;

    open spec fn spec_bits() -> u64 {
        9
    }

    open spec fn u_val(v: u16) -> u64 {
        v as u64
    }

    proof fn bits_in_range() {
    }

    fn bits() -> u64 {
        9
    }

    fn set(data: &mut Vec<u8>, offset: usize, val: u16) -> Result<(), RangeError> {
        set_data_checked(data, offset, val as u64, 9)
    }

    fn get(data: &Vec<u8>, offset: usize) -> u16 {
        proof {
            lemma2_to64();
        }
        get_data(data, offset, 9) as u16
    }
}

/// A 10-bit field; its natural representation is `u16`.
pub struct B10;

impl Specifier for B10 {
    type U = u16;

    open spec fn spec_bits() -> u64 {
        10
    }

    open spec fn u_val(v: u16) -> u64 {
        v as u64
    }

    proof fn bits_in_range() {
    }

    fn bits() -> u64 {
        10
    }

    fn set(data: &mut Vec<u8>, offset: usize, val: u16) -> Result<(), RangeError> {
        set_data_checked(data, offset, val as u64, 10)
    }

    fn get(data: &Vec<u8>, offset: usize) -> u16 {
        proof {
            lemma2_to64();
        }
        get_data(data, offset, 10) as u16
    }
}

/// A 11-bit field; its natural representation is `u16`.
pub struct B11;

impl Specifier for B11 {
    type U = u16;

    open spec fn spec_bits() -> u64 {
        11
    }

    open spec fn u_val(v: u16) -> u64 {
        v as u64
    }

    proof fn bits_in_range() {
    }

    fn bits() -> u64 {
        11
    }

    fn set(data: &mut Vec<u8>, offset: usize, val: u16) -> Result<(), RangeError> {
        set_data_checked(data, offset, val as u64, 11)
    }

    fn get(data: &Vec<u8>, offset: usize) -> u16 {
        proof {
            lemma2_to64();
        }
        get_data(data, offset, 11) as u16
    }
}

/// A 12-bit field; its natural representation is `u16`.
pub struct B12;

impl Specifier for B12 {
    type U = u16;

    open spec fn spec_bits() -> u64 {
        12
    }

    open spec fn u_val(v: u16) -> u64 {
        v as u64
    }

    proof fn bits_in_range() {
    }

    fn bits() -> u64 {
        12
    }

    fn set(data: &mut Vec<u8>, offset: usize, val: u16) -> Result<(), RangeError> {
        set_data_checked(data, offset, val as u64, 12)
    }

    fn get(data: &Vec<u8>, offset: usize) -> u16 {
        proof {
            lemma2_to64();
        }
        get_data(data, offset, 12) as u16
    }
}

/// A 13-bit field; its natural representation is `u16`.
pub struct B13;

impl Specifier for B13 {
    type U = u16;

    open spec fn spec_bits() -> u64 {
        13
    }

    open spec fn u_val(v: u16) -> u64 {
        v as u64
    }

    proof fn bits_in_range() {
    }

    fn bits() -> u64 {
        13
    }

    fn set(data: &mut Vec<u8>, offset: usize, val: u16) -> Result<(), RangeError> {
        set_data_checked(data, offset, val as u64, 13)
    }

    fn get(data: &Vec<u8>, offset: usize) -> u16 {
        proof {
            lemma2_to64();
        }
        get_data(data, offset, 13) as u16
    }
}

/// A 14-bit field; its natural representation is `u16`.
pub struct B14;

impl Specifier for B14 {
    type U = u16;

    open spec fn spec_bits() -> u64 {
        14
    }

    open spec fn u_val(v: u16) -> u64 {
        v as u64
    }

    proof fn bits_in_range() {
    }

    fn bits() -> u64 {
        14
    }

    fn set(data: &mut Vec<u8>, offset: usize, val: u16) -> Result<(), RangeError> {
        set_data_checked(data, offset, val as u64, 14)
    }

    fn get(data: &Vec<u8>, offset: usize) -> u16 {
        proof {
            lemma2_to64();
        }
        get_data(data, offset, 14) as u16
    }
}

/// A 15-bit field; its natural representation is `u16`.
pub struct B15;

impl Specifier for B15 {
    type U = u16;

    open spec fn spec_bits() -> u64 {
        15
    }

    open spec fn u_val(v: u16) -> u64 {
        v as u64
    }

    proof fn bits_in_range() {
    }

    fn bits() -> u64 {
        15
    }

    fn set(data: &mut Vec<u8>, offset: usize, val: u16) -> Result<(), RangeError> {
        set_data_checked(data, offset, val as u64, 15)
    }

    fn get(data: &Vec<u8>, offset: usize) -> u16 {
        proof {
            lemma2_to64();
        }
        get_data(data, offset, 15) as u16
    }
}

/// A 16-bit field; its natural representation is `u16`.
pub struct B16;

impl Specifier for B16 {
    type U = u16;

    open spec fn spec_bits() -> u64 {
        16
    }

    open spec fn u_val(v: u16) -> u64 {
        v as u64
    }

    proof fn bits_in_range() {
    }

    fn bits() -> u64 {
        16
    }

    fn set(data: &mut Vec<u8>, offset: usize, val: u16) -> Result<(), RangeError> {
        set_data_checked(data, offset, val as u64, 16)
    }

    fn get(data: &Vec<u8>, offset: usize) -> u16 {
        proof {
            lemma2_to64();
        }
        get_data(data, offset, 16) as u16
    }
}

/// A 17-bit field; its natural representation is `u32`.
pub struct B17;

impl Specifier for B17 {
    type U = u32;

    open spec fn spec_bits() -> u64 {
        17
    }

    open spec fn u_val(v: u32) -> u64 {
        v as u64
    }

    proof fn bits_in_range() {
    }

    fn bits() -> u64 {
        17
    }

    fn set(data: &mut Vec<u8>, offset: usize, val: u32) -> Result<(), RangeError> {
        set_data_checked(data, offset, val as u64, 17)
    }

    fn get(data: &Vec<u8>, offset: usize) -> u32 {
        proof {
            lemma2_to64();
        }
        get_data(data, offset, 17) as u32
    }
}

/// A 18-bit field; its natural representation is `u32`.
pub struct B18;

impl Specifier for B18 {
    type U = u32;

    open spec fn spec_bits() -> u64 {
        18
    }

    open spec fn u_val(v: u32) -> u64 {
        v as u64
    }

    proof fn bits_in_range() {
    }

    fn bits() -> u64 {
        18
    }

    fn set(data: &mut Vec<u8>, offset: usize, val: u32) -> Result<(), RangeError> {
        set_data_checked(data, offset, val as u64, 18)
    }

    fn get(data: &Vec<u8>, offset: usize) -> u32 {
        proof {
            lemma2_to64();
        }
        get_data(data, offset, 18) as u32
    }
}

/// A 19-bit field; its natural representation is `u32`.
pub struct B19;

impl Specifier for B19 {
    type U = u32;

    open spec fn spec_bits() -> u64 {
        19
    }

    open spec fn u_val(v: u32) -> u64 {
        v as u64
    }

    proof fn bits_in_range() {
    }

    fn bits() -> u64 {
        19
    }

    fn set(data: &mut Vec<u8>, offset: usize, val: u32) -> Result<(), RangeError> {
        set_data_checked(data, offset, val as u64, 19)
    }

    fn get(data: &Vec<u8>, offset: usize) -> u32 {
        proof {
            lemma2_to64();
        }
        get_data(data, offset, 19) as u32
    }
}

/// A 20-bit field; its natural representation is `u32`.
pub struct B20;

impl Specifier for B20 {
    type U = u32;

    open spec fn spec_bits() -> u64 {
        20
    }

    open spec fn u_val(v: u32) -> u64 {
        v as u64
    }

    proof fn bits_in_range() {
    }

    fn bits() -> u64 {
        20
    }

    fn set(data: &mut Vec<u8>, offset: usize, val: u32) -> Result<(), RangeError> {
        set_data_checked(data, offset, val as u64, 20)
    }

    fn get(data: &Vec<u8>, offset: usize) -> u32 {
        proof {
            lemma2_to64();
        }
        get_data(data, offset, 20) as u32
    }
}

/// A 21-bit field; its natural representation is `u32`.
pub struct B21;

impl Specifier for B21 {
    type U = u32;

    open spec fn spec_bits() -> u64 {
        21
    }

    open spec fn u_val(v: u32) -> u64 {
        v as u64
    }

    proof fn bits_in_range() {
    }

    fn bits() -> u64 {
        21
    }

    fn set(data: &mut Vec<u8>, offset: usize, val: u32) -> Result<(), RangeError> {
        set_data_checked(data, offset, val as u64, 21)
    }

    fn get(data: &Vec<u8>, offset: usize) -> u32 {
        proof {
            lemma2_to64();
        }
        get_data(data, offset, 21) as u32
    }
}

/// A 22-bit field; its natural representation is `u32`.
pub struct B22;

impl Specifier for B22 {
    type U = u32;

    open spec fn spec_bits() -> u64 {
        22
    }

    open spec fn u_val(v: u32) -> u64 {
        v as u64
    }

    proof fn bits_in_range() {
    }

    fn bits() -> u64 {
        22
    }

    fn set(data: &mut Vec<u8>, offset: usize, val: u32) -> Result<(), RangeError> {
        set_data_checked(data, offset, val as u64, 22)
    }

    fn get(data: &Vec<u8>, offset: usize) -> u32 {
        proof {
            lemma2_to64();
        }
        get_data(data, offset, 22) as u32
    }
}

/// A 23-bit field; its natural representation is `u32`.
pub struct B23;

impl Specifier for B23 {
    type U = u32;

    open spec fn spec_bits() -> u64 {
        23
    }

    open spec fn u_val(v: u32) -> u64 {
        v as u64
    }

    proof fn bits_in_range() {
    }

    fn bits() -> u64 {
        23
    }

    fn set(data: &mut Vec<u8>, offset: usize, val: u32) -> Result<(), RangeError> {
        set_data_checked(data, offset, val as u64, 23)
    }

    fn get(data: &Vec<u8>, offset: usize) -> u32 {
        proof {
            lemma2_to64();
        }
        get_data(data, offset, 23) as u32
    }
}

/// A 24-bit field; its natural representation is `u32`.
pub struct B24;

impl Specifier for B24 {
    type U = u32;

    open spec fn spec_bits() -> u64 {
        24
    }

    open spec fn u_val(v: u32) -> u64 {
        v as u64
    }

    proof fn bits_in_range() {
    }

    fn bits() -> u64 {
        24
    }

    fn set(data: &mut Vec<u8>, offset: usize, val: u32) -> Result<(), RangeError> {
        set_data_checked(data, offset, val as u64, 24)
    }

    fn get(data: &Vec<u8>, offset: usize) -> u32 {
        proof {
            lemma2_to64();
        }
        get_data(data, offset, 24) as u32
    }
}

/// A 25-bit field; its natural representation is `u32`.
pub struct B25;

impl Specifier for B25 {
    type U = u32;

    open spec fn spec_bits() -> u64 {
        25
    }

    open spec fn u_val(v: u32) -> u64 {
        v as u64
    }

    proof fn bits_in_range() {
    }

    fn bits() -> u64 {
        25
    }

    fn set(data: &mut Vec<u8>, offset: usize, val: u32) -> Result<(), RangeError> {
        set_data_checked(data, offset, val as u64, 25)
    }

    fn get(data: &Vec<u8>, offset: usize) -> u32 {
        proof {
            lemma2_to64();
        }
        get_data(data, offset, 25) as u32
    }
}

/// A 26-bit field; its natural representation is `u32`.
pub struct B26;

impl Specifier for B26 {
    type U = u32;

    open spec fn spec_bits() -> u64 {
        26
    }

    open spec fn u_val(v: u32) -> u64 {
        v as u64
    }

    proof fn bits_in_range() {
    }

    fn bits() -> u64 {
        26
    }

    fn set(data: &mut Vec<u8>, offset: usize, val: u32) -> Result<(), RangeError> {
        set_data_checked(data, offset, val as u64, 26)
    }

    fn get(data: &Vec<u8>, offset: usize) -> u32 {
        proof {
            lemma2_to64();
        }
        get_data(data, offset, 26) as u32
    }
}

/// A 27-bit field; its natural representation is `u32`.
pub struct B27;

impl Specifier for B27 {
    type U = u32;

    open spec fn spec_bits() -> u64 {
        27
    }

    open spec fn u_val(v: u32) -> u64 {
        v as u64
    }

    proof fn bits_in_range() {
    }

    fn bits() -> u64 {
        27
    }

    fn set(data: &mut Vec<u8>, offset: usize, val: u32) -> Result<(), RangeError> {
        set_data_checked(data, offset, val as u64, 27)
    }

    fn get(data: &Vec<u8>, offset: usize) -> u32 {
        proof {
            lemma2_to64();
        }
        get_data(data, offset, 27) as u32
    }
}

/// A 28-bit field; its natural representation is `u32`.
pub struct B28;

impl Specifier for B28 {
    type U = u32;

    open spec fn spec_bits() -> u64 {
        28
    }

    open spec fn u_val(v: u32) -> u64 {
        v as u64
    }

    proof fn bits_in_range() {
    }

    fn bits() -> u64 {
        28
    }

    fn set(data: &mut Vec<u8>, offset: usize, val: u32) -> Result<(), RangeError> {
        set_data_checked(data, offset, val as u64, 28)
    }

    fn get(data: &Vec<u8>, offset: usize) -> u32 {
        proof {
            lemma2_to64();
        }
        get_data(data, offset, 28) as u32
    }
}

/// A 29-bit field; its natural representation is `u32`.
pub struct B29;

impl Specifier for B29 {
    type U = u32;

    open spec fn spec_bits() -> u64 {
        29
    }

    open spec fn u_val(v: u32) -> u64 {
        v as u64
    }

    proof fn bits_in_range() {
    }

    fn bits() -> u64 {
        29
    }

    fn set(data: &mut Vec<u8>, offset: usize, val: u32) -> Result<(), RangeError> {
        set_data_checked(data, offset, val as u64, 29)
    }

    fn get(data: &Vec<u8>, offset: usize) -> u32 {
        proof {
            lemma2_to64();
        }
        get_data(data, offset, 29) as u32
    }
}

/// A 30-bit field; its natural representation is `u32`.
pub struct B30;

impl Specifier for B30 {
    type U = u32;

    open spec fn spec_bits() -> u64 {
        30
    }

    open spec fn u_val(v: u32) -> u64 {
        v as u64
    }

    proof fn bits_in_range() {
    }

    fn bits() -> u64 {
        30
    }

    fn set(data: &mut Vec<u8>, offset: usize, val: u32) -> Result<(), RangeError> {
        set_data_checked(data, offset, val as u64, 30)
    }

    fn get(data: &Vec<u8>, offset: usize) -> u32 {
        proof {
            lemma2_to64();
        }
        get_data(data, offset, 30) as u32
    }
}

/// A 31-bit field; its natural representation is `u32`.
pub struct B31;

impl Specifier for B31 {
    type U = u32;

    open spec fn spec_bits() -> u64 {
        31
    }

    open spec fn u_val(v: u32) -> u64 {
        v as u64
    }

    proof fn bits_in_range() {
    }

    fn bits() -> u64 {
        31
    }

    fn set(data: &mut Vec<u8>, offset: usize, val: u32) -> Result<(), RangeError> {
        set_data_checked(data, offset, val as u64, 31)
    }

    fn get(data: &Vec<u8>, offset: usize) -> u32 {
        proof {
            lemma2_to64();
        }
        get_data(data, offset, 31) as u32
    }
}

/// A 32-bit field; its natural representation is `u32`.
pub struct B32;

impl Specifier for B32 {
    type U = u32;

    open spec fn spec_bits() -> u64 {
        32
    }

    open spec fn u_val(v: u32) -> u64 {
        v as u64
    }

    proof fn bits_in_range() {
    }

    fn bits() -> u64 {
        32
    }

    fn set(data: &mut Vec<u8>, offset: usize, val: u32) -> Result<(), RangeError> {
        set_data_checked(data, offset, val as u64, 32)
    }

    fn get(data: &Vec<u8>, offset: usize) -> u32 {
        proof {
            lemma2_to64();
        }
        get_data(data, offset, 32) as u32
    }
}

/// A 33-bit field; its natural representation is `u64`.
pub struct B33;

impl Specifier for B33 {
    type U = u64;

    open spec fn spec_bits() -> u64 {
        33
    }

    open spec fn u_val(v: u64) -> u64 {
        v
    }

    proof fn bits_in_range() {
    }

    fn bits() -> u64 {
        33
    }

    fn set(data: &mut Vec<u8>, offset: usize, val: u64) -> Result<(), RangeError> {
        set_data_checked(data, offset, val, 33)
    }

    fn get(data: &Vec<u8>, offset: usize) -> u64 {
        get_data(data, offset, 33)
    }
}

/// A 34-bit field; its natural representation is `u64`.
pub struct B34;

impl Specifier for B34 {
    type U = u64;

    open spec fn spec_bits() -> u64 {
        34
    }

    open spec fn u_val(v: u64) -> u64 {
        v
    }

    proof fn bits_in_range() {
    }

    fn bits() -> u64 {
        34
    }

    fn set(data: &mut Vec<u8>, offset: usize, val: u64) -> Result<(), RangeError> {
        set_data_checked(data, offset, val, 34)
    }

    fn get(data: &Vec<u8>, offset: usize) -> u64 {
        get_data(data, offset, 34)
    }
}

/// A 35-bit field; its natural representation is `u64`.
pub struct B35;

impl Specifier for B35 {
    type U = u64;

    open spec fn spec_bits() -> u64 {
        35
    }

    open spec fn u_val(v: u64) -> u64 {
        v
    }

    proof fn bits_in_range() {
    }

    fn bits() -> u64 {
        35
    }

    fn set(data: &mut Vec<u8>, offset: usize, val: u64) -> Result<(), RangeError> {
        set_data_checked(data, offset, val, 35)
    }

    fn get(data: &Vec<u8>, offset: usize) -> u64 {
        get_data(data, offset, 35)
    }
}

/// A 36-bit field; its natural representation is `u64`.
pub struct B36;

impl Specifier for B36 {
    type U = u64;

    open spec fn spec_bits() -> u64 {
        36
    }

    open spec fn u_val(v: u64) -> u64 {
        v
    }

    proof fn bits_in_range() {
    }

    fn bits() -> u64 {
        36
    }

    fn set(data: &mut Vec<u8>, offset: usize, val: u64) -> Result<(), RangeError> {
        set_data_checked(data, offset, val, 36)
    }

    fn get(data: &Vec<u8>, offset: usize) -> u64 {
        get_data(data, offset, 36)
    }
}

/// A 37-bit field; its natural representation is `u64`.
pub struct B37;

impl Specifier for B37 {
    type U = u64;

    open spec fn spec_bits() -> u64 {
        37
    }

    open spec fn u_val(v: u64) -> u64 {
        v
    }

    proof fn bits_in_range() {
    }

    fn bits() -> u64 {
        37
    }

    fn set(data: &mut Vec<u8>, offset: usize, val: u64) -> Result<(), RangeError> {
        set_data_checked(data, offset, val, 37)
    }

    fn get(data: &Vec<u8>, offset: usize) -> u64 {
        get_data(data, offset, 37)
    }
}

/// A 38-bit field; its natural representation is `u64`.
pub struct B38;

impl Specifier for B38 {
    type U = u64;

    open spec fn spec_bits() -> u64 {
        38
    }

    open spec fn u_val(v: u64) -> u64 {
        v
    }

    proof fn bits_in_range() {
    }

    fn bits() -> u64 {
        38
    }

    fn set(data: &mut Vec<u8>, offset: usize, val: u64) -> Result<(), RangeError> {
        set_data_checked(data, offset, val, 38)
    }

    fn get(data: &Vec<u8>, offset: usize) -> u64 {
        get_data(data, offset, 38)
    }
}

/// A 39-bit field; its natural representation is `u64`.
pub struct B39;

impl Specifier for B39 {
    type U = u64;

    open spec fn spec_bits() -> u64 {
        39
    }

    open spec fn u_val(v: u64) -> u64 {
        v
    }

    proof fn bits_in_range() {
    }

    fn bits() -> u64 {
        39
    }

    fn set(data: &mut Vec<u8>, offset: usize, val: u64) -> Result<(), RangeError> {
        set_data_checked(data, offset, val, 39)
    }

    fn get(data: &Vec<u8>, offset: usize) -> u64 {
        get_data(data, offset, 39)
    }
}

/// A 40-bit field; its natural representation is `u64`.
pub struct B40;

impl Specifier for B40 {
    type U = u64;

    open spec fn spec_bits() -> u64 {
        40
    }

    open spec fn u_val(v: u64) -> u64 {
        v
    }

    proof fn bits_in_range() {
    }

    fn bits() -> u64 {
        40
    }

    fn set(data: &mut Vec<u8>, offset: usize, val: u64) -> Result<(), RangeError> {
        set_data_checked(data, offset, val, 40)
    }

    fn get(data: &Vec<u8>, offset: usize) -> u64 {
        get_data(data, offset, 40)
    }
}

/// A 41-bit field; its natural representation is `u64`.
pub struct B41;

impl Specifier for B41 {
    type U = u64;

    open spec fn spec_bits() -> u64 {
        41
    }

    open spec fn u_val(v: u64) -> u64 {
        v
    }

    proof fn bits_in_range() {
    }

    fn bits() -> u64 {
        41
    }

    fn set(data: &mut Vec<u8>, offset: usize, val: u64) -> Result<(), RangeError> {
        set_data_checked(data, offset, val, 41)
    }

    fn get(data: &Vec<u8>, offset: usize) -> u64 {
        get_data(data, offset, 41)
    }
}

/// A 42-bit field; its natural representation is `u64`.
pub struct B42;

impl Specifier for B42 {
    type U = u64;

    open spec fn spec_bits() -> u64 {
        42
    }

    open spec fn u_val(v: u64) -> u64 {
        v
    }

    proof fn bits_in_range() {
    }

    fn bits() -> u64 {
        42
    }

    fn set(data: &mut Vec<u8>, offset: usize, val: u64) -> Result<(), RangeError> {
        set_data_checked(data, offset, val, 42)
    }

    fn get(data: &Vec<u8>, offset: usize) -> u64 {
        get_data(data, offset, 42)
    }
}

/// A 43-bit field; its natural representation is `u64`.
pub struct B43;

impl Specifier for B43 {
    type U = u64;

    open spec fn spec_bits() -> u64 {
        43
    }

    open spec fn u_val(v: u64) -> u64 {
        v
    }

    proof fn bits_in_range() {
    }

    fn bits() -> u64 {
        43
    }

    fn set(data: &mut Vec<u8>, offset: usize, val: u64) -> Result<(), RangeError> {
        set_data_checked(data, offset, val, 43)
    }

    fn get(data: &Vec<u8>, offset: usize) -> u64 {
        get_data(data, offset, 43)
    }
}

/// A 44-bit field; its natural representation is `u64`.
pub struct B44;

impl Specifier for B44 {
    type U = u64;

    open spec fn spec_bits() -> u64 {
        44
    }

    open spec fn u_val(v: u64) -> u64 {
        v
    }

    proof fn bits_in_range() {
    }

    fn bits() -> u64 {
        44
    }

    fn set(data: &mut Vec<u8>, offset: usize, val: u64) -> Result<(), RangeError> {
        set_data_checked(data, offset, val, 44)
    }

    fn get(data: &Vec<u8>, offset: usize) -> u64 {
        get_data(data, offset, 44)
    }
}

/// A 45-bit field; its natural representation is `u64`.
pub struct B45;

impl Specifier for B45 {
    type U = u64;

    open spec fn spec_bits() -> u64 {
        45
    }

    open spec fn u_val(v: u64) -> u64 {
        v
    }

    proof fn bits_in_range() {
    }

    fn bits() -> u64 {
        45
    }

    fn set(data: &mut Vec<u8>, offset: usize, val: u64) -> Result<(), RangeError> {
        set_data_checked(data, offset, val, 45)
    }

    fn get(data: &Vec<u8>, offset: usize) -> u64 {
        get_data(data, offset, 45)
    }
}

/// A 46-bit field; its natural representation is `u64`.
pub struct B46;

impl Specifier for B46 {
    type U = u64;

    open spec fn spec_bits() -> u64 {
        46
    }

    open spec fn u_val(v: u64) -> u64 {
        v
    }

    proof fn bits_in_range() {
    }

    fn bits() -> u64 {
        46
    }

    fn set(data: &mut Vec<u8>, offset: usize, val: u64) -> Result<(), RangeError> {
        set_data_checked(data, offset, val, 46)
    }

    fn get(data: &Vec<u8>, offset: usize) -> u64 {
        get_data(data, offset, 46)
    }
}

/// A 47-bit field; its natural representation is `u64`.
pub struct B47;

impl Specifier for B47 {
    type U = u64;

    open spec fn spec_bits() -> u64 {
        47
    }

    open spec fn u_val(v: u64) -> u64 {
        v
    }

    proof fn bits_in_range() {
    }

    fn bits() -> u64 {
        47
    }

    fn set(data: &mut Vec<u8>, offset: usize, val: u64) -> Result<(), RangeError> {
        set_data_checked(data, offset, val, 47)
    }

    fn get(data: &Vec<u8>, offset: usize) -> u64 {
        get_data(data, offset, 47)
    }
}

/// A 48-bit field; its natural representation is `u64`.
pub struct B48;

impl Specifier for B48 {
    type U = u64;

    open spec fn spec_bits() -> u64 {
        48
    }

    open spec fn u_val(v: u64) -> u64 {
        v
    }

    proof fn bits_in_range() {
    }

    fn bits() -> u64 {
        48
    }

    fn set(data: &mut Vec<u8>, offset: usize, val: u64) -> Result<(), RangeError> {
        set_data_checked(data, offset, val, 48)
    }

    fn get(data: &Vec<u8>, offset: usize) -> u64 {
        get_data(data, offset, 48)
    }
}

/// A 49-bit field; its natural representation is `u64`.
pub struct B49;

impl Specifier for B49 {
    type U = u64;

    open spec fn spec_bits() -> u64 {
        49
    }

    open spec fn u_val(v: u64) -> u64 {
        v
    }

    proof fn bits_in_range() {
    }

    fn bits() -> u64 {
        49
    }

    fn set(data: &mut Vec<u8>, offset: usize, val: u64) -> Result<(), RangeError> {
        set_data_checked(data, offset, val, 49)
    }

    fn get(data: &Vec<u8>, offset: usize) -> u64 {
        get_data(data, offset, 49)
    }
}

/// A 50-bit field; its natural representation is `u64`.
pub struct B50;

impl Specifier for B50 {
    type U = u64;

    open spec fn spec_bits() -> u64 {
        50
    }

    open spec fn u_val(v: u64) -> u64 {
        v
    }

    proof fn bits_in_range() {
    }

    fn bits() -> u64 {
        50
    }

    fn set(data: &mut Vec<u8>, offset: usize, val: u64) -> Result<(), RangeError> {
        set_data_checked(data, offset, val, 50)
    }

    fn get(data: &Vec<u8>, offset: usize) -> u64 {
        get_data(data, offset, 50)
    }
}

/// A 51-bit field; its natural representation is `u64`.
pub struct B51;

impl Specifier for B51 {
    type U = u64;

    open spec fn spec_bits() -> u64 {
        51
    }

    open spec fn u_val(v: u64) -> u64 {
        v
    }

    proof fn bits_in_range() {
    }

    fn bits() -> u64 {
        51
    }

    fn set(data: &mut Vec<u8>, offset: usize, val: u64) -> Result<(), RangeError> {
        set_data_checked(data, offset, val, 51)
    }

    fn get(data: &Vec<u8>, offset: usize) -> u64 {
        get_data(data, offset, 51)
    }
}

/// A 52-bit field; its natural representation is `u64`.
pub struct B52;

impl Specifier for B52 {
    type U = u64;

    open spec fn spec_bits() -> u64 {
        52
    }

    open spec fn u_val(v: u64) -> u64 {
        v
    }

    proof fn bits_in_range() {
    }

    fn bits() -> u64 {
        52
    }

    fn set(data: &mut Vec<u8>, offset: usize, val: u64) -> Result<(), RangeError> {
        set_data_checked(data, offset, val, 52)
    }

    fn get(data: &Vec<u8>, offset: usize) -> u64 {
        get_data(data, offset, 52)
    }
}

/// A 53-bit field; its natural representation is `u64`.
pub struct B53;

impl Specifier for B53 {
    type U = u64;

    open spec fn spec_bits() -> u64 {
        53
    }

    open spec fn u_val(v: u64) -> u64 {
        v
    }

    proof fn bits_in_range() {
    }

    fn bits() -> u64 {
        53
    }

    fn set(data: &mut Vec<u8>, offset: usize, val: u64) -> Result<(), RangeError> {
        set_data_checked(data, offset, val, 53)
    }

    fn get(data: &Vec<u8>, offset: usize) -> u64 {
        get_data(data, offset, 53)
    }
}

/// A 54-bit field; its natural representation is `u64`.
pub struct B54;

impl Specifier for B54 {
    type U = u64;

    open spec fn spec_bits() -> u64 {
        54
    }

    open spec fn u_val(v: u64) -> u64 {
        v
    }

    proof fn bits_in_range() {
    }

    fn bits() -> u64 {
        54
    }

    fn set(data: &mut Vec<u8>, offset: usize, val: u64) -> Result<(), RangeError> {
        set_data_checked(data, offset, val, 54)
    }

    fn get(data: &Vec<u8>, offset: usize) -> u64 {
        get_data(data, offset, 54)
    }
}

/// A 55-bit field; its natural representation is `u64`.
pub struct B55;

impl Specifier for B55 {
    type U = u64;

    open spec fn spec_bits() -> u64 {
        55
    }

    open spec fn u_val(v: u64) -> u64 {
        v
    }

    proof fn bits_in_range() {
    }

    fn bits() -> u64 {
        55
    }

    fn set(data: &mut Vec<u8>, offset: usize, val: u64) -> Result<(), RangeError> {
        set_data_checked(data, offset, val, 55)
    }

    fn get(data: &Vec<u8>, offset: usize) -> u64 {
        get_data(data, offset, 55)
    }
}

/// A 56-bit field; its natural representation is `u64`.
pub struct B56;

impl Specifier for B56 {
    type U = u64;

    open spec fn spec_bits() -> u64 {
        56
    }

    open spec fn u_val(v: u64) -> u64 {
        v
    }

    proof fn bits_in_range() {
    }

    fn bits() -> u64 {
        56
    }

    fn set(data: &mut Vec<u8>, offset: usize, val: u64) -> Result<(), RangeError> {
        set_data_checked(data, offset, val, 56)
    }

    fn get(data: &Vec<u8>, offset: usize) -> u64 {
        get_data(data, offset, 56)
    }
}

/// A 57-bit field; its natural representation is `u64`.
pub struct B57;

impl Specifier for B57 {
    type U = u64;

    open spec fn spec_bits() -> u64 {
        57
    }

    open spec fn u_val(v: u64) -> u64 {
        v
    }

    proof fn bits_in_range() {
    }

    fn bits() -> u64 {
        57
    }

    fn set(data: &mut Vec<u8>, offset: usize, val: u64) -> Result<(), RangeError> {
        set_data_checked(data, offset, val, 57)
    }

    fn get(data: &Vec<u8>, offset: usize) -> u64 {
        get_data(data, offset, 57)
    }
}

/// A 58-bit field; its natural representation is `u64`.
pub struct B58;

impl Specifier for B58 {
    type U = u64;

    open spec fn spec_bits() -> u64 {
        58
    }

    open spec fn u_val(v: u64) -> u64 {
        v
    }

    proof fn bits_in_range() {
    }

    fn bits() -> u64 {
        58
    }

    fn set(data: &mut Vec<u8>, offset: usize, val: u64) -> Result<(), RangeError> {
        set_data_checked(data, offset, val, 58)
    }

    fn get(data: &Vec<u8>, offset: usize) -> u64 {
        get_data(data, offset, 58)
    }
}

/// A 59-bit field; its natural representation is `u64`.
pub struct B59;

impl Specifier for B59 {
    type U = u64;

    open spec fn spec_bits() -> u64 {
        59
    }

    open spec fn u_val(v: u64) -> u64 {
        v
    }

    proof fn bits_in_range() {
    }

    fn bits() -> u64 {
        59
    }

    fn set(data: &mut Vec<u8>, offset: usize, val: u64) -> Result<(), RangeError> {
        set_data_checked(data, offset, val, 59)
    }

    fn get(data: &Vec<u8>, offset: usize) -> u64 {
        get_data(data, offset, 59)
    }
}

/// A 60-bit field; its natural representation is `u64`.
pub struct B60;

impl Specifier for B60 {
    type U = u64;

    open spec fn spec_bits() -> u64 {
        60
    }

    open spec fn u_val(v: u64) -> u64 {
        v
    }

    proof fn bits_in_range() {
    }

    fn bits() -> u64 {
        60
    }

    fn set(data: &mut Vec<u8>, offset: usize, val: u64) -> Result<(), RangeError> {
        set_data_checked(data, offset, val, 60)
    }

    fn get(data: &Vec<u8>, offset: usize) -> u64 {
        get_data(data, offset, 60)
    }
}

/// A 61-bit field; its natural representation is `u64`.
pub struct B61;

impl Specifier for B61 {
    type U = u64;

    open spec fn spec_bits() -> u64 {
        61
    }

    open spec fn u_val(v: u64) -> u64 {
        v
    }

    proof fn bits_in_range() {
    }

    fn bits() -> u64 {
        61
    }

    fn set(data: &mut Vec<u8>, offset: usize, val: u64) -> Result<(), RangeError> {
        set_data_checked(data, offset, val, 61)
    }

    fn get(data: &Vec<u8>, offset: usize) -> u64 {
        get_data(data, offset, 61)
    }
}

/// A 62-bit field; its natural representation is `u64`.
pub struct B62;

impl Specifier for B62 {
    type U = u64;

    open spec fn spec_bits() -> u64 {
        62
    }

    open spec fn u_val(v: u64) -> u64 {
        v
    }

    proof fn bits_in_range() {
    }

    fn bits() -> u64 {
        62
    }

    fn set(data: &mut Vec<u8>, offset: usize, val: u64) -> Result<(), RangeError> {
        set_data_checked(data, offset, val, 62)
    }

    fn get(data: &Vec<u8>, offset: usize) -> u64 {
        get_data(data, offset, 62)
    }
}

/// A 63-bit field; its natural representation is `u64`.
pub struct B63;

impl Specifier for B63 {
    type U = u64;

    open spec fn spec_bits() -> u64 {
        63
    }

    open spec fn u_val(v: u64) -> u64 {
        v
    }

    proof fn bits_in_range() {
    }

    fn bits() -> u64 {
        63
    }

    fn set(data: &mut Vec<u8>, offset: usize, val: u64) -> Result<(), RangeError> {
        set_data_checked(data, offset, val, 63)
    }

    fn get(data: &Vec<u8>, offset: usize) -> u64 {
        get_data(data, offset, 63)
    }
}

/// A 64-bit field; its natural representation is `u64`.
pub struct B64;

impl Specifier for B64 {
    type U = u64;

    open spec fn spec_bits() -> u64 {
        64
    }

    open spec fn u_val(v: u64) -> u64 {
        v
    }

    proof fn bits_in_range() {
    }

    fn bits() -> u64 {
        64
    }

    fn set(data: &mut Vec<u8>, offset: usize, val: u64) -> Result<(), RangeError> {
        set_data_checked(data, offset, val, 64)
    }

    fn get(data: &Vec<u8>, offset: usize) -> u64 {
        get_data(data, offset, 64)
    }
}

} // verus!
