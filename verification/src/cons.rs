//! Shared constants for NaN-tagging: the bit masks every scheme builds on.

use vstd::prelude::*;

verus! {

/// The maximum integer that can be losslessly stored in a 64-bit float: `2^53 - 1`.
pub const MAX_INT: u64 = 9007199254740991;

/// The sign bit of a 64-bit float; set on every cell-value.
pub const SIGN_BIT: u64 = 0x8000000000000000;

/// When all of these bits are set, the value is Not-A-Number.
pub const NAN_BITS: u64 = 0x7FF8000000000000;

/// The bit pattern of positive infinity.
pub const POS_INF_BITS: u64 = 0x7FF0000000000000;

/// The bit pattern of negative infinity.
pub const NEG_INF_BITS: u64 = 0xFFF0000000000000;

/// The bit pattern of negative zero.
pub const NEG_ZERO_BITS: u64 = 0x8000000000000000;

} // verus!
