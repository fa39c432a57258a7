//! The layout validator: from an ordered field list to bit offsets.
//!
//! Fields are packed back to back with no padding: field 0 starts at bit 0,
//! and every later field starts where the previous one ends, so a field may
//! straddle byte boundaries. The one alignment rule is global: the widths
//! must sum to a whole number of bytes. The check runs once, when the layout
//! is computed, before any record instance exists.

use crate::enums::EnumSpec;
use crate::errors::StructuralError;
use vstd::prelude::*;

verus! {

/// The kind of value a field holds.
pub enum FieldKind {
    /// A plain unsigned integer of the field's width.
    Unsigned,
    /// A boolean: the one-bit special case.
    Bool,
    /// An enum-valued field with the given schema.
    Enum(EnumSpec),
}

/// One field of a packed record: its name, its width in bits, and the kind
/// of value it holds. Order within a record is significant and fixed when
/// the layout is computed.
pub struct FieldSpec {
    /// The field's name; the core addresses fields by index, names are
    /// carried for the layer that surfaces them.
    pub name: String,
    /// The field's width in bits, between 1 and 64.
    pub bit_width: usize,
    /// The kind of value the field holds.
    pub kind: FieldKind,
}

impl FieldSpec {
    /// The width matches the kind: a boolean field is one bit, and an enum
    /// field is exactly as wide as its schema.
    pub open spec fn width_matches_kind(self) -> bool {
        match self.kind {
            FieldKind::Unsigned => true,
            FieldKind::Bool => self.bit_width == 1,
            FieldKind::Enum(es) => self.bit_width == es.bit_width,
        }
    }

    /// An enum-kind field carries a valid schema. This is ghost knowledge a
    /// caller has from building the schema; the validator cannot re-check it.
    pub open spec fn enum_kind_wf(self) -> bool {
        match self.kind {
            FieldKind::Unsigned => true,
            FieldKind::Bool => true,
            FieldKind::Enum(es) => es.wf(),
        }
    }
}

/// The widths of a field list, in order.
pub open spec fn widths_of(fields: Seq<FieldSpec>) -> Seq<usize> {
    fields.map_values(|f: FieldSpec| f.bit_width)
}

/// The sum of a width list.
pub open spec fn sum_widths(widths: Seq<usize>) -> int
    decreases widths.len(),
{
    if widths.len() == 0 {
        0
    } else {
        sum_widths(widths.drop_last()) + widths.last()
    }
}

/// A longer prefix of a width list never sums to less.
pub proof fn lemma_sum_widths_monotonic(widths: Seq<usize>, i: int, j: int)
    requires
        0 <= i <= j <= widths.len(),
    ensures
        sum_widths(widths.take(i)) <= sum_widths(widths.take(j)),
    decreases j - i,
{
    if i < j {
        lemma_sum_widths_monotonic(widths, i, j - 1);
        assert(widths.take(j).drop_last() =~= widths.take(j - 1));
    }
}

/// Extending a prefix by one field adds that field's width to the sum.
pub proof fn lemma_sum_widths_step(widths: Seq<usize>, i: int)
    requires
        0 <= i < widths.len(),
    ensures
        sum_widths(widths.take(i + 1)) == sum_widths(widths.take(i)) + widths[i],
{
    assert(widths.take(i + 1).drop_last() =~= widths.take(i));
}

/// A computed layout: the field list, each field's bit offset, and the total
/// size in bits. [`compute_layout`] is the one way to a well-formed value.
pub struct Layout {
    /// The fields, in packing order.
    pub fields: Vec<FieldSpec>,
    /// Bit offset of each field: offset 0 for field 0, and each later offset
    /// is the previous offset plus the previous width.
    pub offsets: Vec<usize>,
    /// Total size in bits: the sum of the widths, a multiple of 8.
    pub total_bits: usize,
}

impl Layout {
    /// Validity: every width lies in 1..=64 and matches its kind, offsets
    /// are the cumulative width sums, and the total is their byte-aligned
    /// sum.
    pub open spec fn wf(self) -> bool {
        &&& self.offsets@.len() == self.fields@.len()
        &&& forall|i: int|
            0 <= i < self.fields@.len() ==> 1 <= (#[trigger] self.fields@[i]).bit_width <= 64
        &&& forall|i: int|
            0 <= i < self.fields@.len() ==> (#[trigger] self.fields@[i]).width_matches_kind()
        &&& forall|i: int|
            0 <= i < self.offsets@.len() ==> #[trigger] self.offsets@[i] as int == sum_widths(
                widths_of(self.fields@).take(i),
            )
        &&& self.total_bits as int == sum_widths(widths_of(self.fields@))
        &&& self.total_bits % 8 == 0
    }

    /// Every enum-kind field carries a valid schema.
    pub open spec fn enums_wf(self) -> bool {
        forall|i: int| 0 <= i < self.fields@.len() ==> (#[trigger] self.fields@[i]).enum_kind_wf()
    }

    /// Number of fields.
    pub fn num_fields(&self) -> (r: usize)
        ensures
            r == self.fields@.len(),
    {
        self.fields.len()
    }

    /// Width in bits of field `i`.
    pub fn width(&self, i: usize) -> (r: usize)
        requires
            i < self.fields@.len(),
        ensures
            r == self.fields@[i as int].bit_width,
    {
        self.fields[i].bit_width
    }

    /// Bit offset of field `i`.
    pub fn offset(&self, i: usize) -> (r: usize)
        requires
            i < self.offsets@.len(),
        ensures
            r == self.offsets@[i as int],
    {
        self.offsets[i]
    }

    /// Every field lies inside the record's total size.
    pub proof fn lemma_field_in_bounds(self, i: int)
        requires
            self.wf(),
            0 <= i < self.fields@.len(),
        ensures
            self.offsets@[i] + self.fields@[i].bit_width <= self.total_bits,
    {
        let ws = widths_of(self.fields@);
        lemma_sum_widths_step(ws, i);
        lemma_sum_widths_monotonic(ws, i + 1, ws.len() as int);
        assert(ws.take(ws.len() as int) =~= ws);
    }

    /// Fields in layout order occupy disjoint bit ranges: an earlier field
    /// ends at or before where a later one starts.
    pub proof fn lemma_fields_disjoint(self, i: int, j: int)
        requires
            self.wf(),
            0 <= i < j < self.fields@.len(),
        ensures
            self.offsets@[i] + self.fields@[i].bit_width <= self.offsets@[j],
    {
        let ws = widths_of(self.fields@);
        lemma_sum_widths_step(ws, i);
        lemma_sum_widths_monotonic(ws, i + 1, j);
    }
}

/// True when every width lies in 1..=64.
pub open spec fn widths_in_range(fields: Seq<FieldSpec>) -> bool {
    forall|i: int| 0 <= i < fields.len() ==> 1 <= (#[trigger] fields[i]).bit_width <= 64
}

/// True when every width matches its field's kind.
pub open spec fn kinds_match(fields: Seq<FieldSpec>) -> bool {
    forall|i: int| 0 <= i < fields.len() ==> (#[trigger] fields[i]).width_matches_kind()
}

/// Computes cumulative bit offsets and the total bit size for an ordered
/// field list, validating the layout: every width must lie in 1..=64 and
/// match its kind, the total must fit the machine and must be a multiple of
/// 8 bits. A failed check prevents any record instance from existing.
pub fn compute_layout(fields: Vec<FieldSpec>) -> (r: Result<Layout, StructuralError>)
    ensures
        r is Ok <==> widths_in_range(fields@) && kinds_match(fields@) && sum_widths(
            widths_of(fields@),
        ) <= usize::MAX && sum_widths(widths_of(fields@)) % 8 == 0,
        r matches Ok(l) ==> l.wf() && l.fields@ == fields@ && l.total_bits as int == sum_widths(
            widths_of(fields@),
        ),
        r matches Err(e) ==> {
            ||| e == StructuralError::WidthOutOfRange && !widths_in_range(fields@)
            ||| e == StructuralError::KindWidthMismatch && widths_in_range(fields@)
                && !kinds_match(fields@)
            ||| e == StructuralError::TotalSizeTooLarge && widths_in_range(fields@) && kinds_match(
                fields@,
            ) && sum_widths(widths_of(fields@)) > usize::MAX
            ||| e == StructuralError::TotalSizeNotByteAligned && widths_in_range(fields@)
                && kinds_match(fields@) && sum_widths(widths_of(fields@)) <= usize::MAX
                && sum_widths(widths_of(fields@)) % 8 != 0
        },
{
    let n: usize = fields.len();
    let mut i: usize = 0;
    while i < n
        invariant
            i <= n == fields@.len(),
            forall|j: int| 0 <= j < i ==> 1 <= (#[trigger] fields@[j]).bit_width <= 64,
        decreases n - i,
    {
        let w: usize = fields[i].bit_width;
        if w < 1 || w > 64 {
            return Err(StructuralError::WidthOutOfRange);
        }
        i += 1;
    }
    let mut i: usize = 0;
    while i < n
        invariant
            i <= n == fields@.len(),
            widths_in_range(fields@),
            forall|j: int| 0 <= j < i ==> (#[trigger] fields@[j]).width_matches_kind(),
        decreases n - i,
    {
        let ok: bool = match &fields[i].kind {
            FieldKind::Unsigned => true,
            FieldKind::Bool => fields[i].bit_width == 1,
            FieldKind::Enum(es) => fields[i].bit_width == es.bit_width,
        };
        if !ok {
            return Err(StructuralError::KindWidthMismatch);
        }
        i += 1;
    }
    let ghost ws = widths_of(fields@);
    let mut offsets: Vec<usize> = Vec::new();
    let mut total: usize = 0;
    let mut i: usize = 0;
    while i < n
        invariant
            i <= n == fields@.len(),
            widths_in_range(fields@),
            kinds_match(fields@),
            ws == widths_of(fields@),
            offsets@.len() == i,
            forall|j: int| 0 <= j < i ==> #[trigger] offsets@[j] as int == sum_widths(ws.take(j)),
            total as int == sum_widths(ws.take(i as int)),
        decreases n - i,
    {
        let w: usize = fields[i].bit_width;
        offsets.push(total);
        proof {
            lemma_sum_widths_step(ws, i as int);
        }
        if w > usize::MAX - total {
            proof {
                assert(ws[i as int] == w);
                lemma_sum_widths_monotonic(ws, i as int + 1, ws.len() as int);
                assert(ws.take(ws.len() as int) =~= ws);
            }
            return Err(StructuralError::TotalSizeTooLarge);
        }
        total = total + w;
        i += 1;
    }
    proof {
        assert(ws.take(n as int) =~= ws);
    }
    if total % 8 != 0 {
        return Err(StructuralError::TotalSizeNotByteAligned);
    }
    Ok(Layout { fields, offsets, total_bits: total })
}

} // verus!
