//! A trait through which any value that exposes 64 raw bits can take part in
//! the classification operations of this crate.

use vstd::prelude::*;
use crate::cons::{SIGN_BIT, NAN_BITS, POS_INF_BITS, NEG_INF_BITS};
use crate::{is_float_bits, is_nanval_bits};

verus! {

/// Trait for values that expose a 64-bit pattern, used throughout this crate.
///
/// Implementers provide one primitive, [`IntoRawBits64::as_raw_bits_64`],
/// together with its mathematical view [`IntoRawBits64::raw_bits`]; every
/// derived classification comes for free with an exact contract over that view.
pub trait IntoRawBits64: Sized + Clone + Copy {
    /// The 64-bit pattern that `self` stands for, as seen by specifications.
    spec fn raw_bits(&self) -> u64;

    /// Returns the raw bits that `self` contains.
    fn as_raw_bits_64(&self) -> (r: u64)
        ensures
            r == self.raw_bits(),
    ;

    /// Returns the raw bits that `self` contains, but without the sign bit.
    fn as_raw_bits_64_without_sign(&self) -> (r: u64)
        ensures
            r == self.raw_bits() & !SIGN_BIT,
    {
        self.as_raw_bits_64() & !SIGN_BIT
    }

    /// Checks if the value is a floating point number.
    fn is_float(&self) -> (r: bool)
        ensures
            r == is_float_bits(self.raw_bits()),
    {
        let bits = self.as_raw_bits_64();
        bits & NAN_BITS != NAN_BITS || bits == NAN_BITS
    }

    /// Checks if the value is a NaN-tagged value.
    fn is_nanval(&self) -> (r: bool)
        ensures
            r == is_nanval_bits(self.raw_bits()),
    {
        let bits = self.as_raw_bits_64();
        !(bits & NAN_BITS != NAN_BITS || bits == NAN_BITS)
    }

    /// Checks if the value is exactly the canonical NaN pattern.
    fn is_nan(&self) -> (r: bool)
        ensures
            r == (self.raw_bits() == NAN_BITS),
    {
        self.as_raw_bits_64() == NAN_BITS
    }

    /// Checks if the value is a floating point number representing infinity.
    fn is_infinity(&self) -> (r: bool)
        ensures
            r == (self.raw_bits() & !SIGN_BIT == POS_INF_BITS),
    {
        self.as_raw_bits_64_without_sign() == POS_INF_BITS
    }

    /// Checks if the value is a floating point number representing positive infinity.
    fn is_positive_infinity(&self) -> (r: bool)
        ensures
            r == (self.raw_bits() == POS_INF_BITS),
    {
        self.as_raw_bits_64() == POS_INF_BITS
    }

    /// Checks if the value is a floating point number representing negative infinity.
    fn is_negative_infinity(&self) -> (r: bool)
        ensures
            r == (self.raw_bits() == NEG_INF_BITS),
    {
        self.as_raw_bits_64() == NEG_INF_BITS
    }
}

impl IntoRawBits64 for u64 {
    open spec fn raw_bits(&self) -> u64 {
        *self
    }

    fn as_raw_bits_64(&self) -> (r: u64) {
        *self
    }
}

} // verus!
