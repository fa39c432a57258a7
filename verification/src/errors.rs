//! The error taxonomy.
//!
//! Structural errors are detected once, when a schema is defined, and prevent
//! the schema from ever producing an instance. Range errors and decode errors
//! are per-call: a range error rejects an oversized value before any byte is
//! written, and a decode error reports a stored bit pattern that matches no
//! declared enum variant.

use vstd::prelude::*;

verus! {

/// A fault in a schema definition, found before any instance exists.
#[derive(Clone, Copy, Debug, PartialEq, Eq, Structural)]
pub enum StructuralError {
    /// A field width lies outside 1..=64.
    WidthOutOfRange,
    /// The widths of a record's fields do not sum to a multiple of 8 bits.
    TotalSizeNotByteAligned,
    /// The widths of a record's fields sum past the machine's address range.
    TotalSizeTooLarge,
    /// A field's width does not match its kind: a boolean field is one bit,
    /// and an enum field is exactly as wide as its schema dictates.
    KindWidthMismatch,
    /// An enum's variant count is not an exact power of two.
    VariantCountNotPowerOfTwo,
    /// An enum discriminant falls outside `[0, variant_count)`.
    DiscriminantOutOfRange,
    /// Two enum variants share one discriminant.
    DuplicateDiscriminant,
}

/// A value handed to a set operation does not fit the field's bit width.
/// It is reported before any byte of the buffer is touched.
#[derive(Clone, Copy, Debug, PartialEq, Eq, Structural)]
pub struct RangeError;

/// A stored bit pattern matches no declared enum variant: the buffer's
/// contents are inconsistent with its schema.
#[derive(Clone, Copy, Debug, PartialEq, Eq, Structural)]
pub struct DecodeError;

} // verus!
