//! A NaN-boxing value representation.
//!
//! Typed, tagged data is encoded into the 64-bit storage format of an
//! IEEE-754 double-precision float, using the otherwise unused bit patterns
//! of quiet-NaN payloads. A single 64-bit slot can then hold either a genuine
//! float or a tagged value, and the two are always distinguishable: every
//! encodable value stays distinct from every valid float, including the
//! canonical NaN pattern itself, the infinities and both zeros.
//!
//! Three schemes share the slot:
//! - [`cell`]: sign bit set, a 3-bit tag and a 48-bit (pointer-width) payload;
//! - [`uint`]: sign bit clear, an unsigned payload in the bits below the
//!   NaN marker;
//! - [`nanval`]: an independent general-purpose union of a float with a
//!   16-bit tag and a 32-bit payload.

use vstd::prelude::*;

pub mod cons;
pub mod raw;
pub mod cell;
pub mod uint;
pub mod nanval;

pub use raw::IntoRawBits64;
use crate::cons::NAN_BITS;

verus! {

/// The classification every scheme rests on: a 64-bit pattern counts as a
/// float exactly when its NaN bits are not all set, or when it is the
/// canonical NaN pattern itself.
pub open spec fn is_float_bits(v: u64) -> bool {
    v & NAN_BITS != NAN_BITS || v == NAN_BITS
}

/// A 64-bit pattern counts as a NaN-tagged value exactly when it does not
/// count as a float.
pub open spec fn is_nanval_bits(v: u64) -> bool {
    !is_float_bits(v)
}

/// Checks if the given value is a valid 64-bit float.
///
/// There are exactly two cases where this is true:
/// - The value's bits masked with [`NAN_BITS`] are NOT [`NAN_BITS`].
/// - The value's bits EXACTLY match [`NAN_BITS`].
pub fn is_float<V: IntoRawBits64>(value: V) -> (r: bool)
    ensures
        r == is_float_bits(value.raw_bits()),
{
    let bits = value.as_raw_bits_64();
    bits & NAN_BITS != NAN_BITS || bits == NAN_BITS
}

/// Checks if the given value is a NaN-tagged value.
///
/// Calls [`is_float`] and negates the result.
pub fn is_nanval<V: IntoRawBits64>(value: V) -> (r: bool)
    ensures
        r == is_nanval_bits(value.raw_bits()),
{
    !is_float(value)
}

/// Every 64-bit pattern is classified as exactly one of float and
/// NaN-tagged value: there is no third case and no overlap.
pub proof fn lemma_classification_total(v: u64)
    ensures
        is_float_bits(v) <==> !is_nanval_bits(v),
{
}

/// How the cell, uint and float classifications partition the word space:
/// a cell and a uint pattern can never coincide; every NaN-tagged value is
/// exactly one of the two; and a float pattern is neither, with the single
/// exception of the canonical NaN pattern, which is preserved as a float
/// even though it sits in the uint-marked space.
pub proof fn lemma_scheme_partition(v: u64)
    ensures
        !(crate::cell::is_cell_bits(v) && crate::uint::is_uint_bits(v)),
        is_nanval_bits(v) ==> (crate::cell::is_cell_bits(v) <==> !crate::uint::is_uint_bits(v)),
        is_float_bits(v) && v != NAN_BITS ==> !crate::cell::is_cell_bits(v)
            && !crate::uint::is_uint_bits(v),
        crate::uint::is_uint_bits(NAN_BITS) && !crate::cell::is_cell_bits(NAN_BITS),
{
    assert({
        &&& !(crate::cell::is_cell_bits(v) && crate::uint::is_uint_bits(v))
        &&& is_nanval_bits(v) ==> (crate::cell::is_cell_bits(v) <==> !crate::uint::is_uint_bits(
            v,
        ))
        &&& is_float_bits(v) && v != NAN_BITS ==> !crate::cell::is_cell_bits(v)
            && !crate::uint::is_uint_bits(v)
        &&& crate::uint::is_uint_bits(NAN_BITS) && !crate::cell::is_cell_bits(NAN_BITS)
    }) by (bit_vector);
}

} // verus!
