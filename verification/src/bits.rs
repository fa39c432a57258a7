//! The mathematical model of bit-packed storage.
//!
//! A byte buffer is viewed as one flat sequence of bits, least significant
//! bit of byte 0 first: bit `i` of the buffer is bit `i % 8` of byte
//! `i / 8`. A run of bits denotes the unsigned integer whose bit 0 is the
//! first bit of the run. Every contract in this crate is stated over these
//! spec functions.

use vstd::arithmetic::div_mod::lemma_mod_breakdown;
use vstd::arithmetic::power2::{
    lemma2_to64, lemma_pow2_pos, lemma_pow2_unfold, pow2,
};
use vstd::prelude::*;

verus! {

/// True when bit `i` (counting from the least significant end) of byte `b`
/// is set.
pub open spec fn u8_bit(b: u8, i: u8) -> bool {
    (b >> i) & 1 == 1
}

/// True when bit `i` (counting from the least significant end) of `v` is
/// set.
pub open spec fn u64_bit(v: u64, i: u64) -> bool {
    (v >> i) & 1 == 1
}

/// The bits of a byte buffer as one flat sequence: bit `i` of the buffer is
/// bit `i % 8` of byte `i / 8`.
pub open spec fn bits_of(data: Seq<u8>) -> Seq<bool> {
    Seq::new(data.len() * 8, |i: int| u8_bit(data[i / 8], (i % 8) as u8))
}

/// The unsigned integer a bit sequence denotes, first bit least significant.
pub open spec fn value_of(s: Seq<bool>) -> nat
    decreases s.len(),
{
    if s.len() == 0 {
        0
    } else {
        (if s[0] {
            1nat
        } else {
            0nat
        }) + 2 * value_of(s.skip(1))
    }
}

/// The low `width` bits of `v`, least significant first.
pub open spec fn u64_bits(v: u64, width: nat) -> Seq<bool> {
    Seq::new(width, |i: int| u64_bit(v, i as u64))
}

/// The value stored in the `width` bits that start at bit `offset` of the
/// buffer.
pub open spec fn field_value(data: Seq<u8>, offset: int, width: int) -> nat
    recommends
        0 <= offset,
        0 <= width,
        offset + width <= data.len() * 8,
{
    value_of(bits_of(data).subrange(offset, offset + width))
}

/// A zero byte has no bit set.
pub proof fn lemma_u8_zero_bits()
    by (bit_vector)
    ensures
        forall|j: u8| j < 8 ==> !u8_bit(0u8, j),
{
}

/// A run of clear bits denotes zero.
pub proof fn lemma_value_of_zero(s: Seq<bool>)
    requires
        forall|i: int| 0 <= i < s.len() ==> !s[i],
    ensures
        value_of(s) == 0,
    decreases s.len(),
{
    if s.len() > 0 {
        lemma_value_of_zero(s.skip(1));
    }
}

/// A single bit denotes 1 when set and 0 when clear.
pub proof fn lemma_value_of_singleton(s: Seq<bool>)
    requires
        s.len() == 1,
    ensures
        value_of(s) == if s[0] {
            1nat
        } else {
            0nat
        },
{
    assert(s.skip(1) =~= Seq::<bool>::empty());
    assert(value_of(Seq::<bool>::empty()) == 0);
}

/// Bit `i + 1` of `v` is bit `i` of `v >> 1`, and bit 0 is the parity.
proof fn lemma_u64_bit_shr(v: u64)
    by (bit_vector)
    ensures
        u64_bit(v, 0) == (v % 2 == 1),
        forall|i: u64| i < 63 ==> u64_bit(v, (i + 1) as u64) == u64_bit(v >> 1u64, i),
{
}

/// The low `width` bits of `v` denote `v % 2^width`.
pub proof fn lemma_value_of_u64_bits(v: u64, width: nat)
    requires
        width <= 64,
    ensures
        value_of(u64_bits(v, width)) == v as nat % pow2(width),
    decreases width,
{
    lemma_u64_bit_shr(v);
    if width == 0 {
        assert(pow2(0) == 1) by {
            lemma2_to64();
        }
    } else {
        assert(u64_bits(v, width).skip(1) =~= u64_bits(v >> 1u64, (width - 1) as nat));
        lemma_value_of_u64_bits(v >> 1u64, (width - 1) as nat);
        assert(v >> 1u64 == v / 2) by (bit_vector);
        lemma_pow2_pos((width - 1) as nat);
        lemma_mod_breakdown(v as int, 2, pow2((width - 1) as nat) as int);
        lemma_pow2_unfold(width);
    }
}

/// For `v` below `2^width`, the low `width` bits of `v` denote `v` itself.
pub proof fn lemma_value_of_u64_bits_exact(v: u64, width: nat)
    requires
        width <= 64,
        v < pow2(width),
    ensures
        value_of(u64_bits(v, width)) == v,
{
    lemma_value_of_u64_bits(v, width);
    lemma_pow2_pos(width);
    vstd::arithmetic::div_mod::lemma_small_mod(v as nat, pow2(width));
}

} // verus!
