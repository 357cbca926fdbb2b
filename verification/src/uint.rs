//! Handling of values marked as a 'uint' (`!SIGN_BIT | NAN_BITS`): unsigned
//! integers held in the 51 bits below the NaN marker.

use vstd::prelude::*;
use crate::cons::{SIGN_BIT, NAN_BITS};
use crate::raw::IntoRawBits64;

verus! {

/// Indicates that the value is a uint; the sign bit is **not** set.
pub const UINT_MARKER_BITS: u64 = NAN_BITS;

/// Masks the bits ([`UINT_MARKER_BITS`]) that indicate that the value is a uint.
pub const UINT_MARKER_MASK: u64 = SIGN_BIT | NAN_BITS;

/// Masks the bits that actually hold the data of the uint.
pub const UINT_DATA_BITS: u64 = !UINT_MARKER_MASK;

/// A 64-bit pattern is a uint exactly when all NaN bits are set and the
/// sign bit is clear.
pub open spec fn is_uint_bits(v: u64) -> bool {
    v & UINT_MARKER_MASK == UINT_MARKER_BITS
}

/// The 52-bit data field of a uint-marked pattern.
pub open spec fn uint_data_field(v: u64) -> u64 {
    v & UINT_DATA_BITS
}

/// Returns whether the given value is a uint.
pub fn is_uint<V: IntoRawBits64>(value: V) -> (r: bool)
    ensures
        r == is_uint_bits(value.raw_bits()),
{
    (value.as_raw_bits_64() & UINT_MARKER_MASK) == UINT_MARKER_BITS
}

/// Returns whether the given value is *not* a uint.
pub fn is_not_uint<V: IntoRawBits64>(value: V) -> (r: bool)
    ensures
        r == !is_uint_bits(value.raw_bits()),
{
    (value.as_raw_bits_64() & UINT_MARKER_MASK) != UINT_MARKER_BITS
}

/// Unwraps the data of the given value as `u64`, without checking if it is a uint.
pub fn unwrap_uint_unchecked<V: IntoRawBits64>(value: V) -> (r: u64)
    ensures
        r == uint_data_field(value.raw_bits()),
{
    value.as_raw_bits_64() & UINT_DATA_BITS
}

/// Unwraps the data of the given value as `u64`, if it is a uint.
pub fn unwrap_uint<V: IntoRawBits64>(value: V) -> (r: Option<u64>)
    ensures
        r is Some <==> is_uint_bits(value.raw_bits()),
        r matches Some(data) ==> data == uint_data_field(value.raw_bits()),
{
    if is_uint(value) {
        Some(unwrap_uint_unchecked(value))
    } else {
        None
    }
}

/// Unwraps the data of the given value as a non-zero `u64`, if it is a uint.
///
/// Returns `None` both when the value is not a uint and when its data
/// field is exactly zero.
pub fn unwrap_uint_nonzero<V: IntoRawBits64>(value: V) -> (r: Option<u64>)
    ensures
        r is Some <==> is_uint_bits(value.raw_bits()) && uint_data_field(value.raw_bits()) != 0,
        r matches Some(data) ==> data == uint_data_field(value.raw_bits()) && data != 0,
{
    if is_uint(value) {
        let data = unwrap_uint_unchecked(value);
        if data != 0 {
            Some(data)
        } else {
            None
        }
    } else {
        None
    }
}

} // verus!
