//! The bit codec: reads and writes a `width`-bit unsigned value at an
//! arbitrary bit offset of a byte buffer.
//!
//! Both operations work bit by bit, so a field may straddle byte boundaries
//! freely; no individual byte alignment is assumed. [`set_data`] deposits the
//! low `width` bits of the value and proves that every other bit of the
//! buffer keeps its old value, which is the non-interference guarantee the
//! packed record relies on. The round-trip and isolation laws stand at the
//! end of the module as public proof functions.

use crate::bits::{
    bits_of, field_value, lemma_value_of_u64_bits, lemma_value_of_u64_bits_exact, u64_bit, u64_bits,
    u8_bit, value_of,
};
use crate::errors::RangeError;
use vstd::arithmetic::div_mod::lemma_fundamental_div_mod;
use vstd::arithmetic::power2::{lemma2_to64, pow2};
use vstd::bits::{lemma_u64_pow2_no_overflow, lemma_u64_shl_is_mul};
use vstd::prelude::*;

verus! {

/// `1u64 << w` is the mathematical power `2^w`.
pub proof fn lemma_shl_is_pow2(w: u64)
    requires
        w < 64,
    ensures
        (1u64 << w) == pow2(w as nat),
{
    lemma_u64_pow2_no_overflow(w as nat);
    lemma_u64_shl_is_mul(1u64, w);
}

/// Setting or clearing one bit of a byte changes that bit and no other.
proof fn lemma_u8_set_bit(bv_old: u8, bv_new: u8, off: u8, b: bool)
    by (bit_vector)
    requires
        off < 8,
        bv_new == if b {
            bv_old | (1u8 << off)
        } else {
            bv_old & !(1u8 << off)
        },
    ensures
        u8_bit(bv_new, off) == b,
        forall|j: u8| j < 8 && j != off ==> u8_bit(bv_new, j) == u8_bit(bv_old, j),
{
}

/// Or-ing in one bit of a word sets that bit and no other, and a word below
/// `2^k` stays below `2^(k+1)` once bit `k` is or-ed in.
proof fn lemma_u64_or_bit(bv_old: u64, bv_new: u64, k: u64)
    by (bit_vector)
    requires
        k < 64,
        bv_new == bv_old | (1u64 << k),
    ensures
        u64_bit(bv_new, k),
        forall|j: u64| j < 64 && j != k ==> u64_bit(bv_new, j) == u64_bit(bv_old, j),
        k < 63 && bv_old < (1u64 << k) ==> bv_new < (1u64 << ((k + 1) as u64)),
{
}

/// One shifted left grows with the shift.
proof fn lemma_u64_shl_one_grows(k: u64)
    by (bit_vector)
    requires
        k < 63,
    ensures
        (1u64 << k) <= (1u64 << ((k + 1) as u64)),
{
}

/// A word below `2^k` has bit `k` clear.
proof fn lemma_u64_below_shl_bit_clear(bv: u64, k: u64)
    by (bit_vector)
    requires
        k < 64,
        bv < (1u64 << k),
    ensures
        !u64_bit(bv, k),
{
}

/// Zero has no bit set.
proof fn lemma_u64_zero_bits()
    by (bit_vector)
    ensures
        forall|j: u64| j < 64 ==> !u64_bit(0u64, j),
{
}

/// Reads bit `i` of the buffer.
pub fn get_bit(data: &Vec<u8>, i: usize) -> (r: bool)
    requires
        i < data@.len() * 8,
    ensures
        r == bits_of(data@)[i as int],
{
    proof {
        assert(i / 8 < data@.len()) by (nonlinear_arith)
            requires
                i < data@.len() * 8,
        ;
    }
    let byte: u8 = data[i / 8];
    (byte >> ((i % 8) as u8)) & 1 == 1
}

/// Writes bit `i` of the buffer, leaving every other bit unchanged.
pub fn set_bit(data: &mut Vec<u8>, i: usize, b: bool)
    requires
        i < old(data)@.len() * 8,
    ensures
        final(data)@.len() == old(data)@.len(),
        bits_of(final(data)@) == bits_of(old(data)@).update(i as int, b),
{
    proof {
        assert(i / 8 < data@.len()) by (nonlinear_arith)
            requires
                i < data@.len() * 8,
        ;
    }
    let idx: usize = i / 8;
    let off: u8 = (i % 8) as u8;
    let old_byte: u8 = data[idx];
    let new_byte: u8 = if b {
        old_byte | (1u8 << off)
    } else {
        old_byte & !(1u8 << off)
    };
    data.set(idx, new_byte);
    proof {
        lemma_u8_set_bit(old_byte, new_byte, off, b);
        let pre = old(data)@;
        let post = data@;
        assert forall|p: int|
            0 <= p < post.len() * 8 implies bits_of(post)[p] == bits_of(pre).update(
            i as int,
            b,
        )[p] by {
            lemma_fundamental_div_mod(p, 8);
            lemma_fundamental_div_mod(i as int, 8);
            if p / 8 == idx as int {
                if p == i {
                    assert(u8_bit(new_byte, off) == b);
                } else {
                    assert((p % 8) as u8 != off);
                }
            }
        }
        assert(bits_of(post) =~= bits_of(pre).update(i as int, b));
    }
}

/// Reads the `val_bits`-bit unsigned value stored at bit `offset`,
/// right-justified: bit 0 of the result is bit `offset` of the buffer.
pub fn get_data(data: &Vec<u8>, offset: usize, val_bits: usize) -> (r: u64)
    requires
        val_bits <= 64,
        offset + val_bits <= data@.len() * 8,
        offset + val_bits <= usize::MAX,
    ensures
        r as nat == field_value(data@, offset as int, val_bits as int),
        r < pow2(val_bits as nat),
        forall|k: u64| k < val_bits ==> u64_bit(r, k) == bits_of(data@)[offset + k],
{
    let mut res: u64 = 0;
    let mut k: usize = 0;
    proof {
        lemma_u64_zero_bits();
        assert(1u64 << 0u64 == 1) by (bit_vector);
    }
    while k < val_bits
        invariant
            k <= val_bits <= 64,
            offset + val_bits <= data@.len() * 8,
            offset + val_bits <= usize::MAX,
            forall|j: u64| j < k ==> u64_bit(res, j) == bits_of(data@)[offset + j],
            k < 64 ==> res < (1u64 << (k as u64)),
        decreases val_bits - k,
    {
        if get_bit(data, offset + k) {
            let bv_old: u64 = res;
            res = res | (1u64 << (k as u64));
            proof {
                lemma_u64_or_bit(bv_old, res, k as u64);
            }
        } else {
            proof {
                lemma_u64_below_shl_bit_clear(res, k as u64);
                if k < 63 {
                    lemma_u64_shl_one_grows(k as u64);
                }
            }
        }
        k += 1;
    }
    proof {
        assert(bits_of(data@).subrange(offset as int, offset + val_bits) =~= u64_bits(
            res,
            val_bits as nat,
        ));
        if val_bits < 64 {
            lemma_shl_is_pow2(val_bits as u64);
        } else {
            lemma2_to64();
        }
        lemma_value_of_u64_bits_exact(res, val_bits as nat);
    }
    res
}

/// Writes the low `val_bits` bits of `val` at bit `offset`, leaving every
/// other bit of the buffer unchanged.
pub fn set_data(data: &mut Vec<u8>, offset: usize, val: u64, val_bits: usize)
    requires
        val_bits <= 64,
        offset + val_bits <= old(data)@.len() * 8,
        offset + val_bits <= usize::MAX,
    ensures
        final(data)@.len() == old(data)@.len(),
        forall|k: u64| k < val_bits ==> bits_of(final(data)@)[offset + k] == u64_bit(val, k),
        forall|i: int|
            0 <= i < old(data)@.len() * 8 && !(offset <= i < offset + val_bits) ==> bits_of(
                final(data)@,
            )[i] == bits_of(old(data)@)[i],
        field_value(final(data)@, offset as int, val_bits as int) == val as nat % pow2(
            val_bits as nat,
        ),
{
    let mut k: usize = 0;
    while k < val_bits
        invariant
            k <= val_bits <= 64,
            offset + val_bits <= old(data)@.len() * 8,
            offset + val_bits <= usize::MAX,
            data@.len() == old(data)@.len(),
            forall|j: u64| j < k ==> bits_of(data@)[offset + j] == u64_bit(val, j),
            forall|i: int|
                0 <= i < old(data)@.len() * 8 && !(offset <= i < offset + k) ==> bits_of(data@)[i]
                    == bits_of(old(data)@)[i],
        decreases val_bits - k,
    {
        let b: bool = (val >> (k as u64)) & 1 == 1;
        set_bit(data, offset + k, b);
        k += 1;
    }
    proof {
        assert(bits_of(data@).subrange(offset as int, offset + val_bits) =~= u64_bits(
            val,
            val_bits as nat,
        ));
        lemma_value_of_u64_bits(val, val_bits as nat);
    }
}

/// A word with nothing above the low `w` bits lies below `2^w`, and the
/// other way round.
proof fn lemma_u64_shr_zero_iff(v: u64, w: u64)
    by (bit_vector)
    requires
        w < 64,
    ensures
        (v >> w == 0) <==> (v < (1u64 << w)),
{
}

/// Writes `val` into the `val_bits`-bit field at `offset` when `val` fits
/// the width, and rejects it before any byte is touched when it does not:
/// truncation here would silently corrupt the field, so an oversized value
/// is an error, never a partial write.
pub fn set_data_checked(data: &mut Vec<u8>, offset: usize, val: u64, val_bits: usize) -> (r: Result<
    (),
    RangeError,
>)
    requires
        val_bits <= 64,
        offset + val_bits <= old(data)@.len() * 8,
        offset + val_bits <= usize::MAX,
    ensures
        final(data)@.len() == old(data)@.len(),
        r is Ok <==> (val as nat) < pow2(val_bits as nat),
        r is Ok ==> forall|k: u64|
            k < val_bits ==> bits_of(final(data)@)[offset + k] == u64_bit(val, k),
        r is Ok ==> forall|i: int|
            0 <= i < old(data)@.len() * 8 && !(offset <= i < offset + val_bits) ==> bits_of(
                final(data)@,
            )[i] == bits_of(old(data)@)[i],
        r is Ok ==> field_value(final(data)@, offset as int, val_bits as int) == val,
        r is Err ==> final(data)@ == old(data)@,
{
    if val_bits < 64 {
        proof {
            lemma_u64_shr_zero_iff(val, val_bits as u64);
            lemma_shl_is_pow2(val_bits as u64);
        }
        if (val >> (val_bits as u64)) != 0 {
            return Err(RangeError);
        }
    } else {
        proof {
            lemma2_to64();
        }
    }
    set_data(data, offset, val, val_bits);
    proof {
        vstd::arithmetic::power2::lemma_pow2_pos(val_bits as nat);
        vstd::arithmetic::div_mod::lemma_small_mod(val as nat, pow2(val_bits as nat));
    }
    Ok(())
}

/// Round-trip law: after a write of `val` (below `2^width`) to the bit range
/// `[offset, offset + width)` — the bit-level effect [`set_data`] ensures —
/// the value stored in that range is `val` itself.
pub proof fn lemma_set_then_get(post: Seq<u8>, offset: int, width: int, val: u64)
    requires
        0 <= offset,
        0 <= width <= 64,
        offset + width <= post.len() * 8,
        val < pow2(width as nat),
        forall|k: u64| k < width ==> bits_of(post)[offset + k] == u64_bit(val, k),
    ensures
        field_value(post, offset, width) == val,
{
    assert(bits_of(post).subrange(offset, offset + width) =~= u64_bits(val, width as nat));
    lemma_value_of_u64_bits_exact(val, width as nat);
}

/// Isolation law: a write that only touches the bit range
/// `[offset_a, offset_a + width_a)` leaves the value of every disjoint field
/// `(offset_b, width_b)` unchanged.
pub proof fn lemma_field_isolation(
    pre: Seq<u8>,
    post: Seq<u8>,
    offset_a: int,
    width_a: int,
    offset_b: int,
    width_b: int,
)
    requires
        post.len() == pre.len(),
        0 <= offset_a,
        0 <= width_a,
        0 <= offset_b,
        0 <= width_b,
        offset_b + width_b <= pre.len() * 8,
        offset_a + width_a <= offset_b || offset_b + width_b <= offset_a,
        forall|i: int|
            0 <= i < pre.len() * 8 && !(offset_a <= i < offset_a + width_a) ==> bits_of(post)[i]
                == bits_of(pre)[i],
    ensures
        field_value(post, offset_b, width_b) == field_value(pre, offset_b, width_b),
{
    assert(bits_of(post).subrange(offset_b, offset_b + width_b) =~= bits_of(pre).subrange(
        offset_b,
        offset_b + width_b,
    ));
}

} // verus!
