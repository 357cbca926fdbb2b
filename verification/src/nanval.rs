//! A general-purpose NaN-tagged union of a float with a 16-bit tag and a
//! 32-bit payload, independent of the cell and uint schemes.
//!
//! Bit layout is as follows:
//! ```text
//! 0111 1111 1111 1000 tttt tttt tttt tttt xxxx xxxx xxxx xxxx xxxx xxxx xxxx xxxx
//! ```
//!
//! - The top 16 bits are the fixed NaN signal pattern.
//! - Tag  `t`, 16 bits; `0` is reserved, so a tagged word is never confused
//!   with an untagged one.
//! - Data `x`, 32 bits.

use vstd::prelude::*;
use vstd::pervasive::arbitrary;

verus! {

/// The fixed pattern of the top 16 bits that marks a tagged word.
pub const NAN_SIGNAL: u64 = 0x7FF8000000000000;

/// Masks the top 16 bits, which hold the NaN signal of a tagged word.
pub const NAN_MASK: u64 = 0xFFFF000000000000;

/// Clears the signal and tag fields, keeping only the data field.
pub const NAN_UNMASK: u64 = 0x00000000FFFFFFFF;

/// How far the 16 tag bits are shifted into the word.
pub const TAG_SHIFT: u64 = 32;

/// Masks the 16 tag bits of a tagged word.
pub const TAG_MASK: u64 = 0x0000FFFF00000000;

/// Masks the 32 data bits of a tagged word.
pub const DAT_MASK: u64 = 0x00000000FFFFFFFF;

/// Clears the 32 data bits of a tagged word.
pub const DAT_UNMASK: u64 = 0xFFFFFFFF00000000;

/// A 64-bit pattern holds a tag and data exactly when its top 16 bits are
/// the NaN signal pattern.
pub open spec fn has_tag_bits(v: u64) -> bool {
    v & NAN_MASK == NAN_SIGNAL
}

/// The 16-bit tag field of a word, shifted back down to its own value.
pub open spec fn tag_field(v: u64) -> u64 {
    (v & TAG_MASK) >> TAG_SHIFT
}

/// The 32-bit data field of a word.
pub open spec fn dat_field(v: u64) -> u64 {
    v & DAT_MASK
}

/// A tag that can round-trip through a non-zero 16-bit value.
pub trait NaNTag: Sized + Clone + Copy {
    /// The tag's 16-bit value, as seen by specifications.
    spec fn tag_spec(&self) -> u16;

    /// Returns the tag as its 16-bit value, which is never zero.
    fn tag_bits(&self) -> (r: u16)
        ensures
            r == self.tag_spec(),
            r != 0,
    ;

    /// Rebuilds the tag from its non-zero 16-bit value.
    fn tag_from_bits(bits: u16) -> (r: Self)
        requires
            bits != 0,
        ensures
            r.tag_spec() == bits,
    ;
}

/// Data that can round-trip through a 32-bit value.
pub trait NaNDat: Sized + Clone + Copy {
    /// The data's 32-bit value, as seen by specifications.
    spec fn dat_spec(&self) -> u32;

    /// Returns the data as its 32-bit value.
    fn dat_bits(&self) -> (r: u32)
        ensures
            r == self.dat_spec(),
    ;

    /// Rebuilds the data from its 32-bit value.
    fn dat_from_bits(bits: u32) -> (r: Self)
        ensures
            r.dat_spec() == bits,
    ;
}

/// A 16-bit tag value that is known to be non-zero.
#[derive(Clone, Copy, Debug, PartialEq, Eq, Structural)]
pub struct Tag16 {
    bits: u16,
}

impl Tag16 {
    #[verifier::type_invariant]
    spec fn inv(self) -> bool {
        self.bits != 0
    }

    /// The tag's numeric value.
    pub closed spec fn value(self) -> u16 {
        self.bits
    }

    /// Wraps a 16-bit tag value; the reserved value zero is refused.
    pub fn new(value: u16) -> (r: Option<Tag16>)
        ensures
            r is Some <==> value != 0,
            r matches Some(tag) ==> tag.value() == value,
    {
        if value != 0 {
            Some(Tag16 { bits: value })
        } else {
            None
        }
    }

    /// Returns the tag's numeric value, which is never zero.
    pub fn get(&self) -> (r: u16)
        ensures
            r == self.value(),
            r != 0,
    {
        proof {
            use_type_invariant(self);
        }
        self.bits
    }
}

impl NaNTag for Tag16 {
    open spec fn tag_spec(&self) -> u16 {
        self.value()
    }

    fn tag_bits(&self) -> (r: u16) {
        proof {
            use_type_invariant(self);
        }
        self.bits
    }

    fn tag_from_bits(bits: u16) -> (r: Self) {
        Tag16 { bits }
    }
}

impl NaNDat for u32 {
    open spec fn dat_spec(&self) -> u32 {
        *self
    }

    fn dat_bits(&self) -> (r: u32) {
        *self
    }

    fn dat_from_bits(bits: u32) -> (r: Self) {
        bits
    }
}

/// A raw NaN-tagged value: a 64-bit word that holds either a float's bits
/// or the NaN signal together with a 16-bit tag and 32-bit data.
///
/// The view of a value is the underlying 64-bit word; every method's
/// contract is stated over that view and the field projections
/// [`has_tag_bits`], [`tag_field`] and [`dat_field`].
#[derive(Clone, Copy)]
pub struct RawNaNVal<TAG, DAT> where TAG: NaNTag, DAT: NaNDat {
    bits: u64,
    marker: Ghost<(TAG, DAT)>,
}

impl<TAG: NaNTag, DAT: NaNDat> View for RawNaNVal<TAG, DAT> {
    type V = u64;

    closed spec fn view(&self) -> u64 {
        self.bits
    }
}

impl<TAG: NaNTag, DAT: NaNDat> RawNaNVal<TAG, DAT> {
    /// Creates a new value from the given float bits, if they do not
    /// collide with the tagged-value space.
    pub fn from_float_bits(bits: u64) -> (r: Option<Self>)
        ensures
            r is Some <==> !has_tag_bits(bits),
            r matches Some(n) ==> n@ == bits,
    {
        let n = RawNaNVal { bits, marker: Ghost(arbitrary()) };
        if n.has_tag() {
            None
        } else {
            Some(n)
        }
    }

    /// Creates a new value from the given float bits without the collision
    /// check; the caller must have ruled the collision out.
    pub fn from_float_bits_unchecked(bits: u64) -> (r: Self)
        requires
            !has_tag_bits(bits),
        ensures
            r@ == bits,
    {
        RawNaNVal { bits, marker: Ghost(arbitrary()) }
    }

    /// Creates a new value from the given tag and no data.
    pub fn from_tag(tag: TAG) -> (r: Self)
        ensures
            r@ == NAN_SIGNAL | ((tag.tag_spec() as u64) << TAG_SHIFT),
            has_tag_bits(r@),
            tag_field(r@) == tag.tag_spec() as u64,
            dat_field(r@) == 0,
    {
        let t: u16 = tag.tag_bits();
        let tv: u64 = ((t as u64) << TAG_SHIFT) & TAG_MASK;
        proof {
            assert({
                &&& ((t as u64) << TAG_SHIFT) & TAG_MASK == ((t as u64) << TAG_SHIFT)
                &&& has_tag_bits(NAN_SIGNAL | ((t as u64) << TAG_SHIFT))
                &&& tag_field(NAN_SIGNAL | ((t as u64) << TAG_SHIFT)) == t as u64
                &&& dat_field(NAN_SIGNAL | ((t as u64) << TAG_SHIFT)) == 0
            }) by (bit_vector);
        }
        RawNaNVal { bits: NAN_SIGNAL | tv, marker: Ghost(arbitrary()) }
    }

    /// Creates a new value from the given tag and data.
    pub fn from_tag_and_data(tag: TAG, dat: DAT) -> (r: Self)
        ensures
            r@ == NAN_SIGNAL | ((tag.tag_spec() as u64) << TAG_SHIFT) | (dat.dat_spec() as u64),
            has_tag_bits(r@),
            tag_field(r@) == tag.tag_spec() as u64,
            dat_field(r@) == dat.dat_spec() as u64,
    {
        let t: u16 = tag.tag_bits();
        let tv: u64 = ((t as u64) << TAG_SHIFT) & TAG_MASK;
        let d: u32 = dat.dat_bits();
        let dv: u64 = (d as u64) & DAT_MASK;
        proof {
            assert({
                &&& ((t as u64) << TAG_SHIFT) & TAG_MASK == ((t as u64) << TAG_SHIFT)
                &&& (d as u64) & DAT_MASK == (d as u64)
                &&& has_tag_bits(NAN_SIGNAL | ((t as u64) << TAG_SHIFT) | (d as u64))
                &&& tag_field(NAN_SIGNAL | ((t as u64) << TAG_SHIFT) | (d as u64)) == t as u64
                &&& dat_field(NAN_SIGNAL | ((t as u64) << TAG_SHIFT) | (d as u64)) == d as u64
            }) by (bit_vector);
        }
        RawNaNVal { bits: NAN_SIGNAL | tv | dv, marker: Ghost(arbitrary()) }
    }

    /// Returns whether `self` holds a tag and data.
    pub fn has_tag(&self) -> (r: bool)
        ensures
            r == has_tag_bits(self@),
    {
        self.bits & NAN_MASK == NAN_SIGNAL
    }

    /// Returns whether `self` holds a float.
    pub fn has_f64(&self) -> (r: bool)
        ensures
            r == !has_tag_bits(self@),
    {
        self.bits & NAN_MASK != NAN_SIGNAL
    }

    /// Returns the tag without checking the word's state; the caller must
    /// have established that a non-zero tag is present.
    pub fn get_tag_unchecked(&self) -> (r: TAG)
        requires
            has_tag_bits(self@),
            tag_field(self@) != 0,
        ensures
            r.tag_spec() as u64 == tag_field(self@),
    {
        let t: u16 = self.unwrap_tag_field();
        TAG::tag_from_bits(t)
    }

    /// Returns the data without checking the word's state; the caller must
    /// have established that a tag is present.
    pub fn get_dat_raw_unchecked(&self) -> (r: DAT)
        requires
            has_tag_bits(self@),
        ensures
            r.dat_spec() as u64 == dat_field(self@),
    {
        proof {
            let v = self.bits;
            assert(v & DAT_MASK <= 0xFFFFFFFF && ((v & DAT_MASK) as u32) as u64 == v & DAT_MASK)
                by (bit_vector);
        }
        let d: u32 = (self.bits & DAT_MASK) as u32;
        DAT::dat_from_bits(d)
    }

    /// Overrides `self`'s tag with the given tag, keeping the data; the
    /// caller must have established that a tag is present.
    pub fn set_tag_unchecked(&mut self, tag: TAG)
        requires
            has_tag_bits(old(self)@),
        ensures
            final(self)@ == (old(self)@ & NAN_UNMASK) | NAN_SIGNAL | ((tag.tag_spec() as u64)
                << TAG_SHIFT),
            has_tag_bits(final(self)@),
            tag_field(final(self)@) == tag.tag_spec() as u64,
            dat_field(final(self)@) == dat_field(old(self)@),
    {
        let t: u16 = tag.tag_bits();
        let tv: u64 = ((t as u64) << TAG_SHIFT) & TAG_MASK;
        proof {
            let v = self.bits;
            assert({
                &&& ((t as u64) << TAG_SHIFT) & TAG_MASK == ((t as u64) << TAG_SHIFT)
                &&& (v & NAN_UNMASK) | NAN_SIGNAL | ((t as u64) << TAG_SHIFT) == (v & NAN_UNMASK)
                    | (NAN_SIGNAL | ((t as u64) << TAG_SHIFT))
                &&& has_tag_bits((v & NAN_UNMASK) | NAN_SIGNAL | ((t as u64) << TAG_SHIFT))
                &&& tag_field((v & NAN_UNMASK) | NAN_SIGNAL | ((t as u64) << TAG_SHIFT)) == t as u64
                &&& dat_field((v & NAN_UNMASK) | NAN_SIGNAL | ((t as u64) << TAG_SHIFT))
                    == dat_field(v)
            }) by (bit_vector);
        }
        self.bits = (self.bits & NAN_UNMASK) | (NAN_SIGNAL | tv);
    }

    /// Overrides `self`'s data with the given data, keeping the tag; the
    /// caller must have established that a tag is present.
    pub fn set_dat_unchecked(&mut self, dat: DAT)
        requires
            has_tag_bits(old(self)@),
        ensures
            final(self)@ == (old(self)@ & DAT_UNMASK) | (dat.dat_spec() as u64),
            has_tag_bits(final(self)@),
            tag_field(final(self)@) == tag_field(old(self)@),
            dat_field(final(self)@) == dat.dat_spec() as u64,
    {
        let d: u32 = dat.dat_bits();
        let dv: u64 = (d as u64) & DAT_MASK;
        proof {
            let v = self.bits;
            assert({
                &&& (d as u64) & DAT_MASK == (d as u64)
                &&& v & NAN_MASK == NAN_SIGNAL ==> has_tag_bits((v & DAT_UNMASK) | (d as u64))
                &&& tag_field((v & DAT_UNMASK) | (d as u64)) == tag_field(v)
                &&& dat_field((v & DAT_UNMASK) | (d as u64)) == d as u64
            }) by (bit_vector);
        }
        self.bits = (self.bits & DAT_UNMASK) | dv;
    }

    /// Overrides `self`'s tag and data with the given values, whatever the
    /// word held before.
    pub fn set_tag_and_dat(&mut self, tag: TAG, dat: DAT)
        ensures
            final(self)@ == NAN_SIGNAL | ((tag.tag_spec() as u64) << TAG_SHIFT) | (dat.dat_spec()
                as u64),
            has_tag_bits(final(self)@),
            tag_field(final(self)@) == tag.tag_spec() as u64,
            dat_field(final(self)@) == dat.dat_spec() as u64,
    {
        let t: u16 = tag.tag_bits();
        let tv: u64 = ((t as u64) << TAG_SHIFT) & TAG_MASK;
        let d: u32 = dat.dat_bits();
        let dv: u64 = (d as u64) & DAT_MASK;
        proof {
            assert({
                &&& ((t as u64) << TAG_SHIFT) & TAG_MASK == ((t as u64) << TAG_SHIFT)
                &&& (d as u64) & DAT_MASK == (d as u64)
                &&& has_tag_bits(NAN_SIGNAL | ((t as u64) << TAG_SHIFT) | (d as u64))
                &&& tag_field(NAN_SIGNAL | ((t as u64) << TAG_SHIFT) | (d as u64)) == t as u64
                &&& dat_field(NAN_SIGNAL | ((t as u64) << TAG_SHIFT) | (d as u64)) == d as u64
            }) by (bit_vector);
        }
        self.bits = NAN_SIGNAL | tv | dv;
    }

    /// Tries to create a copy of `self` with the given data, using the
    /// existing tag; returns nothing when `self` holds a float.
    pub fn with_dat(&self, dat: DAT) -> (r: Option<Self>)
        ensures
            r is Some <==> has_tag_bits(self@),
            r matches Some(n) ==> {
                &&& n@ == (self@ & DAT_UNMASK) | (dat.dat_spec() as u64)
                &&& has_tag_bits(n@)
                &&& tag_field(n@) == tag_field(self@)
                &&& dat_field(n@) == dat.dat_spec() as u64
            },
    {
        if self.has_tag() {
            let mut n = *self;
            n.set_dat_unchecked(dat);
            Some(n)
        } else {
            None
        }
    }

    /// Replaces `self` with the given float bits, whatever the word held
    /// before.
    pub fn set_float_bits(&mut self, bits: u64)
        ensures
            final(self)@ == bits,
    {
        self.bits = bits;
    }

    /// Returns the contained float bits, or nothing when `self` holds a
    /// tag.
    pub fn get_float_bits(&self) -> (r: Option<u64>)
        ensures
            r is Some <==> !has_tag_bits(self@),
            r matches Some(bits) ==> bits == self@,
    {
        if self.has_tag() {
            None
        } else {
            Some(self.bits)
        }
    }

    /// Returns the tag, or nothing when `self` holds a float or the
    /// reserved tag value zero.
    pub fn get_tag(&self) -> (r: Option<TAG>)
        ensures
            r is Some <==> has_tag_bits(self@) && tag_field(self@) != 0,
            r matches Some(tag) ==> tag.tag_spec() as u64 == tag_field(self@),
    {
        if self.has_tag() {
            let bits = self.unwrap_tag_field();
            if bits != 0 {
                Some(TAG::tag_from_bits(bits))
            } else {
                None
            }
        } else {
            None
        }
    }

    /// Returns the data, or nothing when `self` holds a float.
    pub fn get_dat(&self) -> (r: Option<DAT>)
        ensures
            r is Some <==> has_tag_bits(self@),
            r matches Some(dat) ==> dat.dat_spec() as u64 == dat_field(self@),
    {
        if self.has_tag() {
            Some(self.get_dat_raw_unchecked())
        } else {
            None
        }
    }

    /// Returns the tag and data, or nothing when `self` holds a float or
    /// the reserved tag value zero.
    pub fn get_tag_and_dat(&self) -> (r: Option<(TAG, DAT)>)
        ensures
            r is Some <==> has_tag_bits(self@) && tag_field(self@) != 0,
            r matches Some(pair) ==> pair.0.tag_spec() as u64 == tag_field(self@)
                && pair.1.dat_spec() as u64 == dat_field(self@),
    {
        if self.has_tag() {
            let bits = self.unwrap_tag_field();
            if bits != 0 {
                Some((TAG::tag_from_bits(bits), self.get_dat_raw_unchecked()))
            } else {
                None
            }
        } else {
            None
        }
    }

    /// Extracts the 16-bit tag field of the word, shifted back down.
    fn unwrap_tag_field(&self) -> (r: u16)
        ensures
            r as u64 == tag_field(self@),
    {
        proof {
            let v = self.bits;
            assert((v & TAG_MASK) >> TAG_SHIFT <= 0xFFFF && (((v & TAG_MASK) >> TAG_SHIFT) as u16)
                as u64 == (v & TAG_MASK) >> TAG_SHIFT) by (bit_vector);
        }
        ((self.bits & TAG_MASK) >> TAG_SHIFT) as u16
    }
}

/// A word built from a tag never reads back as a float, whatever its tag
/// and data fields hold: the fixed signal pattern alone decides the state.
pub proof fn lemma_tagged_word_never_float(t: u64, d: u64)
    requires
        t <= 0xFFFF,
        d <= 0xFFFFFFFF,
    ensures
        has_tag_bits(NAN_SIGNAL | (t << TAG_SHIFT) | d),
{
    assert(t <= 0xFFFF && d <= 0xFFFFFFFF ==> has_tag_bits(NAN_SIGNAL | (t << TAG_SHIFT) | d))
        by (bit_vector);
}

} // verus!
