//! A worked example: a four-byte record with fields `a` (1 bit), `b`
//! (3 bits), `c` (4 bits) and `d` (24 bits).
//!
//! The widths sum to 32 bits, so the record occupies exactly four bytes:
//! `a` is bit 0 of byte 0, `b` bits 1 to 3, `c` bits 4 to 7, and `d` fills
//! bytes 1 to 3. Each accessor exposes the field's natural unsigned type and
//! each setter rejects an oversized value without touching the buffer.

use crate::bit_types::{B1, B24, B3, B4};
use crate::bits::{bits_of, field_value};
use crate::codec::lemma_field_isolation;
use crate::errors::RangeError;
use crate::specifier::Specifier;
use vstd::arithmetic::power2::lemma2_to64;
use vstd::prelude::*;

verus! {

/// Bit offset of field `a`.
pub const OFFSET_A: usize = 0;

/// Bit offset of field `b`.
pub const OFFSET_B: usize = 1;

/// Bit offset of field `c`.
pub const OFFSET_C: usize = 4;

/// Bit offset of field `d`.
pub const OFFSET_D: usize = 8;

/// A packed record of four fields in four bytes.
pub struct MyFourBytes {
    data: Vec<u8>,
}

impl MyFourBytes {
    /// The raw bytes of the record.
    pub closed spec fn bytes(self) -> Seq<u8> {
        self.data@
    }

    /// Validity: the buffer holds exactly four bytes.
    pub closed spec fn wf(self) -> bool {
        self.data@.len() == 4
    }

    /// The value of field `a`: 1 bit at offset 0.
    pub open spec fn spec_a(self) -> nat {
        field_value(self.bytes(), OFFSET_A as int, 1)
    }

    /// The value of field `b`: 3 bits at offset 1.
    pub open spec fn spec_b(self) -> nat {
        field_value(self.bytes(), OFFSET_B as int, 3)
    }

    /// The value of field `c`: 4 bits at offset 4.
    pub open spec fn spec_c(self) -> nat {
        field_value(self.bytes(), OFFSET_C as int, 4)
    }

    /// The value of field `d`: 24 bits at offset 8.
    pub open spec fn spec_d(self) -> nat {
        field_value(self.bytes(), OFFSET_D as int, 24)
    }

    /// A fresh record with every bit — so every field — zero.
    pub fn new() -> (r: MyFourBytes)
        ensures
            r.wf(),
            r.bytes() =~= seq![0u8, 0u8, 0u8, 0u8],
            r.spec_a() == 0 && r.spec_b() == 0 && r.spec_c() == 0 && r.spec_d() == 0,
    {
        let mut data: Vec<u8> = Vec::new();
        data.push(0);
        data.push(0);
        data.push(0);
        data.push(0);
        let r = MyFourBytes { data };
        proof {
            crate::bits::lemma_u8_zero_bits();
            lemma_zero_fields(r.bytes());
        }
        r
    }

    /// Reads `a`, narrowed to its natural type.
    pub fn get_a(&self) -> (r: u8)
        requires
            self.wf(),
        ensures
            r == self.spec_a(),
            r < 2,
    {
        proof {
            lemma2_to64();
        }
        B1::get(&self.data, OFFSET_A)
    }

    /// Writes `a` when the value fits its 1 bit; rejects it untouched
    /// otherwise. The other three fields keep their values either way.
    pub fn set_a(&mut self, val: u8) -> (r: Result<(), RangeError>)
        requires
            old(self).wf(),
        ensures
            final(self).wf(),
            r is Ok <==> val < 2,
            r is Ok ==> final(self).spec_a() == val,
            r is Err ==> final(self).bytes() == old(self).bytes(),
            final(self).spec_b() == old(self).spec_b(),
            final(self).spec_c() == old(self).spec_c(),
            final(self).spec_d() == old(self).spec_d(),
    {
        proof {
            lemma2_to64();
        }
        let r = B1::set(&mut self.data, OFFSET_A, val);
        proof {
            if r is Ok {
                lemma_field_isolation(old(self).bytes(), self.bytes(), 0, 1, 1, 3);
                lemma_field_isolation(old(self).bytes(), self.bytes(), 0, 1, 4, 4);
                lemma_field_isolation(old(self).bytes(), self.bytes(), 0, 1, 8, 24);
            }
        }
        r
    }

    /// Reads `b`, narrowed to its natural type.
    pub fn get_b(&self) -> (r: u8)
        requires
            self.wf(),
        ensures
            r == self.spec_b(),
            r < 8,
    {
        proof {
            lemma2_to64();
        }
        B3::get(&self.data, OFFSET_B)
    }

    /// Writes `b` when the value fits its 3 bits; rejects it untouched
    /// otherwise. The other three fields keep their values either way.
    pub fn set_b(&mut self, val: u8) -> (r: Result<(), RangeError>)
        requires
            old(self).wf(),
        ensures
            final(self).wf(),
            r is Ok <==> val < 8,
            r is Ok ==> final(self).spec_b() == val,
            r is Err ==> final(self).bytes() == old(self).bytes(),
            final(self).spec_a() == old(self).spec_a(),
            final(self).spec_c() == old(self).spec_c(),
            final(self).spec_d() == old(self).spec_d(),
    {
        proof {
            lemma2_to64();
        }
        let r = B3::set(&mut self.data, OFFSET_B, val);
        proof {
            if r is Ok {
                lemma_field_isolation(old(self).bytes(), self.bytes(), 1, 3, 0, 1);
                lemma_field_isolation(old(self).bytes(), self.bytes(), 1, 3, 4, 4);
                lemma_field_isolation(old(self).bytes(), self.bytes(), 1, 3, 8, 24);
            }
        }
        r
    }

    /// Reads `c`, narrowed to its natural type.
    pub fn get_c(&self) -> (r: u8)
        requires
            self.wf(),
        ensures
            r == self.spec_c(),
            r < 16,
    {
        proof {
            lemma2_to64();
        }
        B4::get(&self.data, OFFSET_C)
    }

    /// Writes `c` when the value fits its 4 bits; rejects it untouched
    /// otherwise. The other three fields keep their values either way.
    pub fn set_c(&mut self, val: u8) -> (r: Result<(), RangeError>)
        requires
            old(self).wf(),
        ensures
            final(self).wf(),
            r is Ok <==> val < 16,
            r is Ok ==> final(self).spec_c() == val,
            r is Err ==> final(self).bytes() == old(self).bytes(),
            final(self).spec_a() == old(self).spec_a(),
            final(self).spec_b() == old(self).spec_b(),
            final(self).spec_d() == old(self).spec_d(),
    {
        proof {
            lemma2_to64();
        }
        let r = B4::set(&mut self.data, OFFSET_C, val);
        proof {
            if r is Ok {
                lemma_field_isolation(old(self).bytes(), self.bytes(), 4, 4, 0, 1);
                lemma_field_isolation(old(self).bytes(), self.bytes(), 4, 4, 1, 3);
                lemma_field_isolation(old(self).bytes(), self.bytes(), 4, 4, 8, 24);
            }
        }
        r
    }

    /// Reads `d`, narrowed to its natural type.
    pub fn get_d(&self) -> (r: u32)
        requires
            self.wf(),
        ensures
            r == self.spec_d(),
            r < 0x1000000,
    {
        proof {
            lemma2_to64();
        }
        B24::get(&self.data, OFFSET_D)
    }

    /// Writes `d` when the value fits its 24 bits; rejects it untouched
    /// otherwise. The other three fields keep their values either way.
    pub fn set_d(&mut self, val: u32) -> (r: Result<(), RangeError>)
        requires
            old(self).wf(),
        ensures
            final(self).wf(),
            r is Ok <==> val < 0x1000000,
            r is Ok ==> final(self).spec_d() == val,
            r is Err ==> final(self).bytes() == old(self).bytes(),
            final(self).spec_a() == old(self).spec_a(),
            final(self).spec_b() == old(self).spec_b(),
            final(self).spec_c() == old(self).spec_c(),
    {
        proof {
            lemma2_to64();
        }
        let r = B24::set(&mut self.data, OFFSET_D, val);
        proof {
            if r is Ok {
                lemma_field_isolation(old(self).bytes(), self.bytes(), 8, 24, 0, 1);
                lemma_field_isolation(old(self).bytes(), self.bytes(), 8, 24, 1, 3);
                lemma_field_isolation(old(self).bytes(), self.bytes(), 8, 24, 4, 4);
            }
        }
        r
    }

    /// The raw bytes: the packed representation is exactly this buffer.
    pub fn data(&self) -> (r: &Vec<u8>)
        ensures
            r@ == self.bytes(),
    {
        &self.data
    }
}

/// Every field of an all-zero buffer reads as zero.
proof fn lemma_zero_fields(bytes: Seq<u8>)
    requires
        bytes.len() == 4,
        forall|i: int| 0 <= i < 4 ==> bytes[i] == 0,
    ensures
        field_value(bytes, 0, 1) == 0,
        field_value(bytes, 1, 3) == 0,
        field_value(bytes, 4, 4) == 0,
        field_value(bytes, 8, 24) == 0,
{
    crate::bits::lemma_u8_zero_bits();
    crate::bits::lemma_value_of_zero(bits_of(bytes).subrange(0, 1));
    crate::bits::lemma_value_of_zero(bits_of(bytes).subrange(1, 4));
    crate::bits::lemma_value_of_zero(bits_of(bytes).subrange(4, 8));
    crate::bits::lemma_value_of_zero(bits_of(bytes).subrange(8, 32));
}

} // verus!
