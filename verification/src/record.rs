//! The packed record: a zero-initialized byte buffer plus per-field get and
//! set operations bound to the offsets a validated layout computed.
//!
//! The buffer is the sole storage — a field is a view of its bit range, so
//! there is exactly one source of truth for every bit. A set rejects a value
//! wider than its field before any byte is written: truncating would corrupt
//! the value, writing unmasked would corrupt the neighbours. Raw reads and
//! writes see the stored bits of any field; the typed operations decode
//! booleans and enum variants per the field's kind.

use crate::bits::{bits_of, field_value, lemma_u8_zero_bits, lemma_value_of_zero};
use crate::codec::{get_data, lemma_field_isolation, set_data_checked};
use crate::enums::enum_set;
use crate::errors::{DecodeError, RangeError};
use crate::layout::{FieldKind, Layout};
use crate::specifier::{get_bool, set_bool};
use vstd::arithmetic::div_mod::lemma_fundamental_div_mod;
use vstd::arithmetic::power2::pow2;
use vstd::prelude::*;

verus! {

/// A packed record: a validated layout and the byte buffer its fields live
/// in, sized to exactly the layout's total bit count.
pub struct PackedRecord {
    layout: Layout,
    data: Vec<u8>,
}

impl PackedRecord {
    /// The layout the record was built with.
    pub closed spec fn spec_layout(self) -> Layout {
        self.layout
    }

    /// The raw bytes of the record.
    pub closed spec fn bytes(self) -> Seq<u8> {
        self.data@
    }

    /// Validity: the layout is well formed, its enum schemas are valid, and
    /// the buffer holds exactly the layout's total bit count.
    pub closed spec fn wf(self) -> bool {
        &&& self.layout.wf()
        &&& self.layout.enums_wf()
        &&& self.data@.len() * 8 == self.layout.total_bits
    }

    /// The value stored in field `i`'s bit range.
    pub closed spec fn spec_field(self, i: int) -> nat {
        field_value(
            self.data@,
            self.layout.offsets@[i] as int,
            self.layout.fields@[i].bit_width as int,
        )
    }

    /// Field `i`'s bit range lies inside the buffer and inside the machine's
    /// address range.
    proof fn lemma_field_fits(self, i: int)
        requires
            self.wf(),
            0 <= i < self.layout.fields@.len(),
        ensures
            self.layout.offsets@[i] + self.layout.fields@[i].bit_width <= self.data@.len() * 8,
            self.layout.offsets@[i] + self.layout.fields@[i].bit_width <= usize::MAX,
    {
        self.layout.lemma_field_in_bounds(i);
    }

    /// Builds a record over the layout with every bit zero, so every field
    /// reads as zero (false, or the variant with discriminant zero).
    pub fn new(layout: Layout) -> (r: PackedRecord)
        requires
            layout.wf(),
            layout.enums_wf(),
        ensures
            r.wf(),
            r.spec_layout() == layout,
            r.bytes().len() * 8 == layout.total_bits,
            forall|b: int| 0 <= b < r.bytes().len() ==> r.bytes()[b] == 0,
            forall|i: int| 0 <= i < layout.fields@.len() ==> r.spec_field(i) == 0,
    {
        let nbytes: usize = layout.total_bits / 8;
        proof {
            lemma_fundamental_div_mod(layout.total_bits as int, 8);
        }
        let mut data: Vec<u8> = Vec::new();
        let mut b: usize = 0;
        while b < nbytes
            invariant
                b <= nbytes,
                data@.len() == b,
                forall|j: int| 0 <= j < b ==> data@[j] == 0,
            decreases nbytes - b,
        {
            data.push(0);
            b += 1;
        }
        let r = PackedRecord { layout, data };
        proof {
            lemma_u8_zero_bits();
            assert forall|i: int|
                0 <= i < r.layout.fields@.len() implies r.spec_field(i) == 0 by {
                r.lemma_field_fits(i);
                let off = r.layout.offsets@[i] as int;
                let w = r.layout.fields@[i].bit_width as int;
                lemma_value_of_zero(bits_of(r.data@).subrange(off, off + w));
            }
        }
        r
    }

    /// Number of fields.
    pub fn num_fields(&self) -> (r: usize)
        ensures
            r == self.spec_layout().fields@.len(),
    {
        self.layout.num_fields()
    }

    /// Reads the raw bits of field `i`, right-justified: the stored value,
    /// whatever the field's kind.
    pub fn get_field(&self, i: usize) -> (r: u64)
        requires
            self.wf(),
            i < self.spec_layout().fields@.len(),
        ensures
            r as nat == self.spec_field(i as int),
            r < pow2(self.spec_layout().fields@[i as int].bit_width as nat),
    {
        proof {
            self.lemma_field_fits(i as int);
        }
        get_data(&self.data, self.layout.offset(i), self.layout.width(i))
    }

    /// Writes `val` into field `i` when it fits the field's width; an
    /// oversized value is rejected before any byte changes, so no write ever
    /// corrupts a neighbouring field. Every other field keeps its value.
    pub fn set_field(&mut self, i: usize, val: u64) -> (r: Result<(), RangeError>)
        requires
            old(self).wf(),
            i < old(self).spec_layout().fields@.len(),
        ensures
            final(self).wf(),
            final(self).spec_layout() == old(self).spec_layout(),
            r is Ok <==> (val as nat) < pow2(
                old(self).spec_layout().fields@[i as int].bit_width as nat,
            ),
            r is Ok ==> final(self).spec_field(i as int) == val,
            forall|j: int|
                0 <= j < old(self).spec_layout().fields@.len() && j != i ==> #[trigger] final(self).spec_field(j) == old(self).spec_field(j),
            r is Err ==> final(self).bytes() == old(self).bytes(),
    {
        proof {
            self.lemma_field_fits(i as int);
        }
        let off: usize = self.layout.offset(i);
        let w: usize = self.layout.width(i);
        let r = set_data_checked(&mut self.data, off, val, w);
        proof {
            if r is Ok {
                assert forall|j: int|
                    0 <= j < self.layout.fields@.len() && j != i implies self.spec_field(j) == old(
                    self,
                ).spec_field(j) by {
                    old(self).lemma_field_fits(j);
                    if j < i {
                        self.layout.lemma_fields_disjoint(j, i as int);
                    } else {
                        self.layout.lemma_fields_disjoint(i as int, j);
                    }
                    lemma_field_isolation(
                        old(self).data@,
                        self.data@,
                        off as int,
                        w as int,
                        self.layout.offsets@[j] as int,
                        self.layout.fields@[j].bit_width as int,
                    );
                }
            }
        }
        r
    }

    /// Reads a boolean field.
    pub fn get_bool_field(&self, i: usize) -> (r: bool)
        requires
            self.wf(),
            i < self.spec_layout().fields@.len(),
            self.spec_layout().fields@[i as int].kind is Bool,
        ensures
            r == (self.spec_field(i as int) == 1),
    {
        proof {
            self.lemma_field_fits(i as int);
        }
        get_bool(&self.data, self.layout.offset(i))
    }

    /// Writes a boolean field: true sets the bit, false clears it. A
    /// boolean always fits its one-bit field, so the write cannot fail, and
    /// every other field keeps its value.
    pub fn set_bool_field(&mut self, i: usize, val: bool)
        requires
            old(self).wf(),
            i < old(self).spec_layout().fields@.len(),
            old(self).spec_layout().fields@[i as int].kind is Bool,
        ensures
            final(self).wf(),
            final(self).spec_layout() == old(self).spec_layout(),
            final(self).spec_field(i as int) == if val {
                1nat
            } else {
                0nat
            },
            forall|j: int|
                0 <= j < old(self).spec_layout().fields@.len() && j != i ==> #[trigger] final(self).spec_field(j) == old(self).spec_field(j),
    {
        proof {
            self.lemma_field_fits(i as int);
        }
        let off: usize = self.layout.offset(i);
        set_bool(&mut self.data, off, val);
        proof {
            assert forall|j: int|
                0 <= j < self.layout.fields@.len() && j != i implies self.spec_field(j) == old(
                self,
            ).spec_field(j) by {
                old(self).lemma_field_fits(j);
                if j < i {
                    self.layout.lemma_fields_disjoint(j, i as int);
                } else {
                    self.layout.lemma_fields_disjoint(i as int, j);
                }
                lemma_field_isolation(
                    old(self).data@,
                    self.data@,
                    off as int,
                    1,
                    self.layout.offsets@[j] as int,
                    self.layout.fields@[j].bit_width as int,
                );
            }
        }
    }

    /// Reads an enum field: the stored discriminant mapped back to its
    /// variant's index. A stored pattern that is no variant's discriminant
    /// would be a fatal decode error — the buffer disagreeing with the
    /// schema — never a coercion to some variant; a validated schema claims
    /// every storable pattern, so the read is owed to succeed.
    pub fn get_enum_field(&self, i: usize) -> (r: Result<usize, DecodeError>)
        requires
            self.wf(),
            i < self.spec_layout().fields@.len(),
            self.spec_layout().fields@[i as int].kind is Enum,
        ensures
            r is Ok,
            self.spec_layout().fields@[i as int].kind matches FieldKind::Enum(es) ==> match r {
                Ok(v) => v < es.discriminants@.len() && es.discriminants@[v as int] as nat
                    == self.spec_field(i as int),
                Err(_) => forall|v: int|
                    0 <= v < es.discriminants@.len() ==> (#[trigger] es.discriminants@[v] as nat)
                        != self.spec_field(i as int),
            },
    {
        proof {
            self.lemma_field_fits(i as int);
        }
        let off: usize = self.layout.offset(i);
        let w: usize = self.layout.width(i);
        let raw: u64 = get_data(&self.data, off, w);
        match &self.layout.fields[i].kind {
            FieldKind::Enum(es) => es.decode(raw),
            _ => {
                proof {
                    assert(false);
                }
                Err(DecodeError)
            },
        }
    }

    /// Writes an enum field from a variant index. A validated schema's
    /// discriminant always fits the field, so the write cannot fail, and
    /// every other field keeps its value.
    pub fn set_enum_field(&mut self, i: usize, variant: usize)
        requires
            old(self).wf(),
            i < old(self).spec_layout().fields@.len(),
            old(self).spec_layout().fields@[i as int].kind matches FieldKind::Enum(es) && variant
                < es.variant_count,
        ensures
            final(self).wf(),
            final(self).spec_layout() == old(self).spec_layout(),
            old(self).spec_layout().fields@[i as int].kind matches FieldKind::Enum(es) ==> final(self).spec_field(i as int) == es.discriminants@[variant as int] as nat,
            forall|j: int|
                0 <= j < old(self).spec_layout().fields@.len() && j != i ==> #[trigger] final(self).spec_field(j) == old(self).spec_field(j),
    {
        proof {
            self.lemma_field_fits(i as int);
        }
        let off: usize = self.layout.offset(i);
        let w: usize = self.layout.width(i);
        match &self.layout.fields[i].kind {
            FieldKind::Enum(es) => {
                enum_set(&mut self.data, off, es, variant);
            },
            _ => {
                proof {
                    assert(false);
                }
            },
        }
        proof {
            assert forall|j: int|
                0 <= j < self.layout.fields@.len() && j != i implies self.spec_field(j) == old(
                self,
            ).spec_field(j) by {
                old(self).lemma_field_fits(j);
                if j < i {
                    self.layout.lemma_fields_disjoint(j, i as int);
                } else {
                    self.layout.lemma_fields_disjoint(i as int, j);
                }
                lemma_field_isolation(
                    old(self).data@,
                    self.data@,
                    off as int,
                    w as int,
                    self.layout.offsets@[j] as int,
                    self.layout.fields@[j].bit_width as int,
                );
            }
        }
    }

    /// The raw bytes, for inspection or persistence: the packed
    /// representation is exactly this buffer.
    pub fn data(&self) -> (r: &Vec<u8>)
        ensures
            r@ == self.bytes(),
    {
        &self.data
    }
}

} // verus!
