//! The enum codec: enum-valued fields on top of the bit codec.
//!
//! An enum field stores a variant's discriminant in a field exactly wide
//! enough for the variant count, which must therefore be an exact power of
//! two — no silent rounding up. Discriminants follow C-style auto-increment:
//! an explicit discriminant resets the running value, an omitted one is the
//! previous value plus one. A validated [`EnumSpec`] carries a decode table
//! from stored bit pattern back to variant index, built once at schema
//! definition time.

use crate::bits::{bits_of, field_value};
use crate::codec::{get_data, lemma_shl_is_pow2, set_data};
use crate::errors::{DecodeError, StructuralError};
use vstd::arithmetic::div_mod::lemma_small_mod;
use vstd::arithmetic::power2::{lemma2_to64, lemma_pow2_pos, pow2};
use vstd::prelude::*;
use vstd::set_lib::{lemma_int_range, lemma_len_subset, set_int_range};

verus! {

/// The discriminant the declaration order gives variant `i`: an explicit
/// value stands as written, an omitted one is the previous variant's value
/// plus one, and an omitted first variant starts at zero.
pub open spec fn spec_discriminant(decls: Seq<Option<u64>>, i: int) -> int
    recommends
        0 <= i < decls.len(),
    decreases i,
{
    match decls[i] {
        Some(d) => d as int,
        None => if i <= 0 {
            0
        } else {
            spec_discriminant(decls, i - 1) + 1
        },
    }
}

/// True when some exponent up to 64 makes `2^w == count`.
pub open spec fn is_power_of_two(count: usize) -> bool {
    exists|w: nat| w <= 64 && pow2(w) == count
}

/// A validated enum schema: the variant count, the exact field width for it,
/// each variant's discriminant, and the decode table mapping a stored
/// discriminant back to its variant's index.
pub struct EnumSpec {
    /// Number of declared variants; an exact power of two.
    pub variant_count: usize,
    /// Field width in bits, with `2^bit_width == variant_count`.
    pub bit_width: usize,
    /// Discriminant of each variant, in declaration order.
    pub discriminants: Vec<u64>,
    /// For each value a field of `bit_width` bits can store, the index of
    /// the variant whose discriminant it is, if any.
    pub table: Vec<Option<usize>>,
}

impl EnumSpec {
    /// Validity: the width exactly fits the variant count, every
    /// discriminant lies in `[0, variant_count)`, no two variants share one,
    /// and the decode table inverts the discriminant list.
    pub open spec fn wf(self) -> bool {
        &&& self.bit_width <= 64
        &&& pow2(self.bit_width as nat) == self.variant_count
        &&& self.discriminants@.len() == self.variant_count
        &&& forall|i: int|
            0 <= i < self.discriminants@.len() ==> (#[trigger] self.discriminants@[i] as nat)
                < self.variant_count
        &&& forall|i: int, j: int|
            0 <= i < j < self.discriminants@.len() ==> self.discriminants@[i]
                != self.discriminants@[j]
        &&& self.table@.len() == self.variant_count
        &&& forall|d: int|
            0 <= d < self.table@.len() ==> ((#[trigger] self.table@[d]) matches Some(i) ==> 0 <= i
                < self.discriminants@.len() && self.discriminants@[i as int] == d)
        &&& forall|d: int, i: int|
            #![trigger self.table@[d], self.discriminants@[i]]
            0 <= d < self.table@.len() && self.table@[d] is None && 0 <= i
                < self.discriminants@.len() ==> self.discriminants@[i] != d
    }

    /// The discriminant written for variant `variant`; it always fits the
    /// field, so encoding never fails.
    pub fn encode(&self, variant: usize) -> (r: u64)
        requires
            self.wf(),
            variant < self.variant_count,
        ensures
            r == self.discriminants@[variant as int],
            (r as nat) < pow2(self.bit_width as nat),
    {
        self.discriminants[variant]
    }

    /// The variant whose discriminant a stored value is, found through the
    /// decode table; a value that is no variant's discriminant would report
    /// a decode error rather than be coerced to some variant, but under a
    /// validated schema every storable value is claimed
    /// ([`lemma_decode_total`]), so the read is owed to succeed.
    pub fn decode(&self, raw: u64) -> (r: Result<usize, DecodeError>)
        requires
            self.wf(),
            (raw as nat) < pow2(self.bit_width as nat),
        ensures
            r is Ok,
            match r {
                Ok(i) => i < self.discriminants@.len() && self.discriminants@[i as int] == raw,
                Err(_) => forall|i: int|
                    0 <= i < self.discriminants@.len() ==> #[trigger] self.discriminants@[i]
                        != raw,
            },
    {
        proof {
            lemma_decode_total(*self, raw);
        }
        match self.table[raw as usize] {
            Some(i) => Ok(i),
            None => Err(DecodeError),
        }
    }
}

/// Decode is total for a validated schema: `variant_count` distinct
/// discriminants, all below `variant_count`, leave no value below it
/// unclaimed, so every pattern a field of `bit_width` bits can store is some
/// variant's discriminant. A decode error can only mean the buffer was
/// written under a different schema.
pub proof fn lemma_decode_total(es: EnumSpec, raw: u64)
    requires
        es.wf(),
        (raw as nat) < es.variant_count,
    ensures
        exists|i: int| 0 <= i < es.discriminants@.len() && es.discriminants@[i] == raw,
{
    let s = es.discriminants@;
    let n = s.len() as int;
    let t = Seq::new(s.len(), |i: int| s[i] as int);
    assert(t.no_duplicates());
    t.unique_seq_to_set();
    if !(exists|i: int| 0 <= i < s.len() && s[i] == raw) {
        let range = set_int_range(0, n);
        lemma_int_range(0, n);
        let reduced = range.remove(raw as int);
        assert forall|x: int| t.to_set().contains(x) implies reduced.contains(x) by {
            let i = choose|i: int| 0 <= i < t.len() && t[i] == x;
            assert(s[i] as int == x);
        }
        lemma_len_subset(t.to_set(), reduced);
        assert(range.contains(raw as int));
        assert(reduced.len() == n - 1);
        assert(false);
    }
}

/// Scans the discriminant list for a value, front to back. The decode table
/// of a validated schema gives the same answer without the scan; this form
/// also works on a bare discriminant list.
pub fn find_variant(discriminants: &Vec<u64>, raw: u64) -> (r: Option<usize>)
    ensures
        match r {
            Some(i) => i < discriminants@.len() && discriminants@[i as int] == raw && forall|j: int|
                0 <= j < i ==> #[trigger] discriminants@[j] != raw,
            None => forall|j: int|
                0 <= j < discriminants@.len() ==> #[trigger] discriminants@[j] != raw,
        },
{
    let n: usize = discriminants.len();
    let mut i: usize = 0;
    while i < n
        invariant
            i <= n == discriminants@.len(),
            forall|j: int| 0 <= j < i ==> #[trigger] discriminants@[j] != raw,
        decreases n - i,
    {
        if discriminants[i] == raw {
            return Some(i);
        }
        i += 1;
    }
    None
}

/// The field width for a variant count: the exponent with `2^width ==
/// count`. A count that is not an exact power of two is a structural error;
/// no width is silently rounded up to cover it.
pub fn width_for_variant_count(count: usize) -> (r: Result<usize, StructuralError>)
    ensures
        match r {
            Ok(w) => w <= 64 && pow2(w as nat) == count,
            Err(e) => e == StructuralError::VariantCountNotPowerOfTwo && !is_power_of_two(count),
        },
{
    let mut w: usize = 0;
    while w < 64
        invariant
            w <= 64,
            forall|v: nat| v < w ==> pow2(v) != count,
        decreases 64 - w,
    {
        proof {
            lemma_shl_is_pow2(w as u64);
        }
        if (1u64 << (w as u64)) == (count as u64) {
            return Ok(w);
        }
        w += 1;
    }
    proof {
        lemma2_to64();
        assert(forall|v: nat| v <= 64 ==> pow2(v) != count);
    }
    Err(StructuralError::VariantCountNotPowerOfTwo)
}

/// Assigns a discriminant to every variant by the auto-increment rule. A
/// running value that would not fit 64 bits is out of every valid range, so
/// it is reported as a range fault of the discriminants.
pub fn assign_discriminants(decls: &Vec<Option<u64>>) -> (r: Result<Vec<u64>, StructuralError>)
    ensures
        match r {
            Ok(ds) => ds@.len() == decls@.len() && forall|i: int|
                0 <= i < decls@.len() ==> #[trigger] ds@[i] == spec_discriminant(decls@, i),
            Err(e) => e == StructuralError::DiscriminantOutOfRange && exists|i: int|
                0 <= i < decls@.len() && #[trigger] spec_discriminant(decls@, i) > u64::MAX,
        },
{
    let n: usize = decls.len();
    let mut ds: Vec<u64> = Vec::new();
    let mut i: usize = 0;
    while i < n
        invariant
            i <= n == decls@.len(),
            ds@.len() == i,
            forall|j: int| 0 <= j < i ==> #[trigger] ds@[j] == spec_discriminant(decls@, j),
        decreases n - i,
    {
        let d: u64 = match decls[i] {
            Some(d) => d,
            None => {
                if i == 0 {
                    0
                } else {
                    let prev: u64 = ds[i - 1];
                    if prev == u64::MAX {
                        proof {
                            assert(spec_discriminant(decls@, i as int) == spec_discriminant(
                                decls@,
                                i as int - 1,
                            ) + 1);
                        }
                        return Err(StructuralError::DiscriminantOutOfRange);
                    }
                    prev + 1
                }
            },
        };
        ds.push(d);
        i += 1;
    }
    Ok(ds)
}

/// Builds a validated [`EnumSpec`] from a variant declaration list: each
/// entry is the variant's explicit discriminant, or nothing where the
/// declaration omits it. Rejects, in this order of discovery, a variant
/// count that is not an exact power of two, a discriminant outside
/// `[0, variant_count)`, and a discriminant two variants share.
pub fn build_enum_spec(decls: &Vec<Option<u64>>) -> (r: Result<EnumSpec, StructuralError>)
    ensures
        match r {
            Ok(es) => {
                &&& es.wf()
                &&& es.variant_count == decls@.len()
                &&& es.discriminants@.len() == decls@.len()
                &&& forall|i: int|
                    0 <= i < decls@.len() ==> #[trigger] es.discriminants@[i] == spec_discriminant(
                        decls@,
                        i,
                    )
            },
            Err(e) => {
                ||| e == StructuralError::VariantCountNotPowerOfTwo && !is_power_of_two(
                    decls@.len() as usize,
                )
                ||| e == StructuralError::DiscriminantOutOfRange && exists|i: int|
                    0 <= i < decls@.len() && !(0 <= #[trigger] spec_discriminant(decls@, i)
                        < decls@.len())
                ||| e == StructuralError::DuplicateDiscriminant && exists|i: int, j: int|
                    0 <= i < j < decls@.len() && spec_discriminant(decls@, i)
                        == spec_discriminant(decls@, j)
            },
        },
{
    let count: usize = decls.len();
    let bit_width: usize = match width_for_variant_count(count) {
        Ok(w) => w,
        Err(e) => {
            return Err(e);
        },
    };
    let discriminants: Vec<u64> = match assign_discriminants(decls) {
        Ok(ds) => ds,
        Err(e) => {
            return Err(e);
        },
    };
    let mut i: usize = 0;
    while i < count
        invariant
            i <= count == decls@.len(),
            discriminants@.len() == count,
            forall|j: int|
                0 <= j < count ==> #[trigger] discriminants@[j] == spec_discriminant(decls@, j),
            forall|j: int|
                0 <= j < i ==> (#[trigger] discriminants@[j] as nat) < count,
        decreases count - i,
    {
        if discriminants[i] >= count as u64 {
            return Err(StructuralError::DiscriminantOutOfRange);
        }
        i += 1;
    }
    let mut table: Vec<Option<usize>> = Vec::new();
    let mut d: usize = 0;
    while d < count
        invariant
            d <= count,
            table@.len() == d,
            forall|e: int| 0 <= e < d ==> #[trigger] table@[e] is None,
        decreases count - d,
    {
        table.push(None);
        d += 1;
    }
    let mut i: usize = 0;
    while i < count
        invariant
            i <= count == decls@.len(),
            discriminants@.len() == count,
            table@.len() == count,
            forall|j: int|
                0 <= j < count ==> #[trigger] discriminants@[j] == spec_discriminant(decls@, j),
            forall|j: int| 0 <= j < count ==> (#[trigger] discriminants@[j] as nat) < count,
            forall|j: int, k: int| 0 <= j < k < i ==> discriminants@[j] != discriminants@[k],
            forall|e: int|
                0 <= e < count ==> ((#[trigger] table@[e]) matches Some(v) ==> 0 <= v < i
                    && discriminants@[v as int] == e),
            forall|e: int, v: int|
                #![trigger table@[e], discriminants@[v]]
                0 <= e < count && table@[e] is None && 0 <= v < i ==> discriminants@[v] != e,
        decreases count - i,
    {
        let disc: u64 = discriminants[i];
        let slot: usize = disc as usize;
        if table[slot].is_some() {
            return Err(StructuralError::DuplicateDiscriminant);
        }
        table.set(slot, Some(i));
        i += 1;
    }
    Ok(EnumSpec { variant_count: count, bit_width, discriminants, table })
}

/// Reads the enum field at bit `offset`: the stored discriminant, mapped
/// back to its variant's index. A stored value that matches no variant would
/// mean the buffer is inconsistent with the schema — a fatal decode error,
/// never a coercion — but a validated schema claims every storable value, so
/// the read is owed to succeed.
pub fn enum_get(data: &Vec<u8>, offset: usize, es: &EnumSpec) -> (r: Result<usize, DecodeError>)
    requires
        es.wf(),
        offset + es.bit_width <= data@.len() * 8,
        offset + es.bit_width <= usize::MAX,
    ensures
        r is Ok,
        match r {
            Ok(i) => i < es.discriminants@.len() && es.discriminants@[i as int] as nat
                == field_value(data@, offset as int, es.bit_width as int),
            Err(_) => forall|i: int|
                0 <= i < es.discriminants@.len() ==> (#[trigger] es.discriminants@[i] as nat)
                    != field_value(data@, offset as int, es.bit_width as int),
        },
{
    let raw: u64 = get_data(data, offset, es.bit_width);
    es.decode(raw)
}

/// Writes variant `variant` of the enum into the field at bit `offset`: its
/// discriminant always fits the width, so the write cannot fail, and every
/// bit outside the field keeps its value.
pub fn enum_set(data: &mut Vec<u8>, offset: usize, es: &EnumSpec, variant: usize)
    requires
        es.wf(),
        variant < es.variant_count,
        offset + es.bit_width <= old(data)@.len() * 8,
        offset + es.bit_width <= usize::MAX,
    ensures
        final(data)@.len() == old(data)@.len(),
        field_value(final(data)@, offset as int, es.bit_width as int) == es.discriminants@[variant as int] as nat,
        forall|i: int|
            0 <= i < old(data)@.len() * 8 && !(offset <= i < offset + es.bit_width) ==> bits_of(
                final(data)@,
            )[i] == bits_of(old(data)@)[i],
{
    let raw: u64 = es.encode(variant);
    set_data(data, offset, raw, es.bit_width);
    proof {
        lemma_pow2_pos(es.bit_width as nat);
        lemma_small_mod(raw as nat, pow2(es.bit_width as nat));
    }
}

} // verus!
