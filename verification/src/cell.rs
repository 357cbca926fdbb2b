//! Handling of values marked as a 'cell' (`SIGN_BIT | NAN_BITS`, with 3 'tag' bits).
//!
//! Bit layout is as follows:
//! ```text
//! s111 1111 1111 1ttt xxxx xxxx xxxx xxxx xxxx xxxx xxxx xxxx xxxx xxxx xxxx xxxx
//! ```
//!
//! - Sign `s`; always `1` for a cell-value.
//! - Tag  `t`, 3 bits; `0b000` is undefined.
//! - Data `x`, 48 bits.

use vstd::prelude::*;
use crate::cons::{SIGN_BIT, NAN_BITS};
use crate::raw::IntoRawBits64;

verus! {

/// Indicates that the value is a cell.
pub const CELL_MARKER_BITS: u64 = SIGN_BIT | NAN_BITS;

/// Masks the bits ([`CELL_MARKER_BITS`]) that indicate that the value is a cell.
pub const CELL_MARKER_MASK: u64 = SIGN_BIT | NAN_BITS;

/// Masks out the tag of a [`CELL_MARKER_BITS`]-marked value.
pub const CELL_TAG_BITS: u64 = 0x0007000000000000;

/// Masks out the data of a [`CELL_MARKER_BITS`]-marked value.
pub const CELL_DATA_BITS: u64 = !(CELL_MARKER_BITS | CELL_TAG_BITS);

/// Cell Tag `0b001`.
pub const CELL_TAG_1: u64 = 0x0001000000000000;

/// Cell Tag `0b010`.
pub const CELL_TAG_2: u64 = 0x0002000000000000;

/// Cell Tag `0b011`.
pub const CELL_TAG_3: u64 = 0x0003000000000000;

/// Cell Tag `0b100`.
pub const CELL_TAG_4: u64 = 0x0004000000000000;

/// Cell Tag `0b101`.
pub const CELL_TAG_5: u64 = 0x0005000000000000;

/// Cell Tag `0b110`.
pub const CELL_TAG_6: u64 = 0x0006000000000000;

/// Cell Tag `0b111`.
pub const CELL_TAG_7: u64 = 0x0007000000000000;

/// Represents all possible variants for a cell-value's 3-bit tag.
///
/// Tag `0` is intentionally left undefined, to prevent the value ever
/// accidentally becoming the original/sentinel NaN.
#[derive(Clone, Copy, PartialEq, Eq, Structural, Debug)]
pub enum CellTag {
    /// Tag `0b001`.
    Tag1,
    /// Tag `0b010`.
    Tag2,
    /// Tag `0b011`.
    Tag3,
    /// Tag `0b100`.
    Tag4,
    /// Tag `0b101`.
    Tag5,
    /// Tag `0b110`.
    Tag6,
    /// Tag `0b111`.
    Tag7,
}

/// Whether a 64-bit pattern is exactly one of the seven defined tag
/// patterns, each a 3-bit tag shifted into the tag field.
pub open spec fn is_defined_tag_bits(v: u64) -> bool {
    ||| v == CELL_TAG_1
    ||| v == CELL_TAG_2
    ||| v == CELL_TAG_3
    ||| v == CELL_TAG_4
    ||| v == CELL_TAG_5
    ||| v == CELL_TAG_6
    ||| v == CELL_TAG_7
}

impl CellTag {
    /// The tag's bit pattern, already shifted into the tag field of a cell.
    pub open spec fn as_bits(self) -> u64 {
        match self {
            CellTag::Tag1 => CELL_TAG_1,
            CellTag::Tag2 => CELL_TAG_2,
            CellTag::Tag3 => CELL_TAG_3,
            CellTag::Tag4 => CELL_TAG_4,
            CellTag::Tag5 => CELL_TAG_5,
            CellTag::Tag6 => CELL_TAG_6,
            CellTag::Tag7 => CELL_TAG_7,
        }
    }

    /// Returns the tag's bit pattern, shifted into the tag field of a cell.
    pub fn bits(self) -> (r: u64)
        ensures
            r == self.as_bits(),
    {
        match self {
            CellTag::Tag1 => CELL_TAG_1,
            CellTag::Tag2 => CELL_TAG_2,
            CellTag::Tag3 => CELL_TAG_3,
            CellTag::Tag4 => CELL_TAG_4,
            CellTag::Tag5 => CELL_TAG_5,
            CellTag::Tag6 => CELL_TAG_6,
            CellTag::Tag7 => CELL_TAG_7,
        }
    }

    /// Decodes a tag from its shifted bit pattern; fails on every pattern
    /// that is not exactly one of the seven defined tags, in particular on
    /// the undefined tag `0`.
    pub fn try_from(value: u64) -> (r: Result<CellTag, ()>)
        ensures
            r is Ok <==> is_defined_tag_bits(value),
            r matches Ok(tag) ==> tag.as_bits() == value,
    {
        if value == CELL_TAG_1 {
            Ok(CellTag::Tag1)
        } else if value == CELL_TAG_2 {
            Ok(CellTag::Tag2)
        } else if value == CELL_TAG_3 {
            Ok(CellTag::Tag3)
        } else if value == CELL_TAG_4 {
            Ok(CellTag::Tag4)
        } else if value == CELL_TAG_5 {
            Ok(CellTag::Tag5)
        } else if value == CELL_TAG_6 {
            Ok(CellTag::Tag6)
        } else if value == CELL_TAG_7 {
            Ok(CellTag::Tag7)
        } else {
            Err(())
        }
    }
}

/// A 64-bit pattern is a cell exactly when all NaN bits and the sign bit
/// are set.
pub open spec fn is_cell_bits(v: u64) -> bool {
    v & CELL_MARKER_MASK == CELL_MARKER_BITS
}

/// The tag field of a cell-marked pattern, still in its shifted position.
pub open spec fn cell_tag_field(v: u64) -> u64 {
    v & CELL_TAG_BITS
}

/// The 48-bit data field of a cell-marked pattern.
pub open spec fn cell_data_field(v: u64) -> u64 {
    v & CELL_DATA_BITS
}

/// The marker, tag and data masks are pairwise disjoint and together cover
/// all 64 bits, both under bitwise-or and under bitwise-xor: every bit of a
/// cell word belongs to exactly one of the three fields.
pub proof fn lemma_cell_masks_partition()
    ensures
        CELL_MARKER_BITS & CELL_TAG_BITS == 0,
        CELL_MARKER_BITS & CELL_DATA_BITS == 0,
        CELL_TAG_BITS & CELL_DATA_BITS == 0,
        CELL_MARKER_BITS | CELL_TAG_BITS | CELL_DATA_BITS == u64::MAX,
        CELL_MARKER_BITS ^ CELL_TAG_BITS ^ CELL_DATA_BITS == u64::MAX,
{
    assert(CELL_MARKER_BITS & CELL_TAG_BITS == 0
        && CELL_MARKER_BITS & CELL_DATA_BITS == 0
        && CELL_TAG_BITS & CELL_DATA_BITS == 0
        && CELL_MARKER_BITS | CELL_TAG_BITS | CELL_DATA_BITS == u64::MAX
        && CELL_MARKER_BITS ^ CELL_TAG_BITS ^ CELL_DATA_BITS == u64::MAX) by (bit_vector);
}

/// Every defined tag pattern lies inside the tag field, is non-zero, and
/// is disjoint from the marker and data fields.
pub proof fn lemma_tag_bits_in_field(tag: CellTag)
    ensures
        tag.as_bits() & CELL_TAG_BITS == tag.as_bits(),
        tag.as_bits() != 0,
        is_defined_tag_bits(tag.as_bits()),
{
    assert(CELL_TAG_1 & CELL_TAG_BITS == CELL_TAG_1
        && CELL_TAG_2 & CELL_TAG_BITS == CELL_TAG_2
        && CELL_TAG_3 & CELL_TAG_BITS == CELL_TAG_3
        && CELL_TAG_4 & CELL_TAG_BITS == CELL_TAG_4
        && CELL_TAG_5 & CELL_TAG_BITS == CELL_TAG_5
        && CELL_TAG_6 & CELL_TAG_BITS == CELL_TAG_6
        && CELL_TAG_7 & CELL_TAG_BITS == CELL_TAG_7) by (bit_vector);
}

/// Returns whether the given value is a cell.
pub fn is_cell<V: IntoRawBits64>(value: V) -> (r: bool)
    ensures
        r == is_cell_bits(value.raw_bits()),
{
    (value.as_raw_bits_64() & CELL_MARKER_BITS) == CELL_MARKER_BITS
}

/// Returns whether the given value is *not* a cell.
pub fn is_not_cell<V: IntoRawBits64>(value: V) -> (r: bool)
    ensures
        r == !is_cell_bits(value.raw_bits()),
{
    (value.as_raw_bits_64() & CELL_MARKER_BITS) != CELL_MARKER_BITS
}

/// Returns the tag bits of the given value, without checking if it is a cell.
pub fn unwrap_tag_bits_unchecked<V: IntoRawBits64>(value: V) -> (r: u64)
    ensures
        r == cell_tag_field(value.raw_bits()),
{
    value.as_raw_bits_64() & CELL_TAG_BITS
}

/// Returns the tag bits of the given value, if it is a cell.
pub fn unwrap_tag_bits<V: IntoRawBits64>(value: V) -> (r: Option<u64>)
    ensures
        r is Some <==> is_cell_bits(value.raw_bits()),
        r matches Some(bits) ==> bits == cell_tag_field(value.raw_bits()),
{
    if is_cell(value) {
        Some(value.as_raw_bits_64() & CELL_TAG_BITS)
    } else {
        None
    }
}

/// Returns the tag of the given value, if it is a cell whose tag field
/// holds one of the seven defined tags.
///
/// The undefined tag pattern `0` decodes to nothing, so an all-marker but
/// untagged word is never misread as a tagged cell.
pub fn unwrap_tag<V: IntoRawBits64>(value: V) -> (r: Option<CellTag>)
    ensures
        r is Some <==> is_cell_bits(value.raw_bits())
            && is_defined_tag_bits(cell_tag_field(value.raw_bits())),
        r matches Some(tag) ==> tag.as_bits() == cell_tag_field(value.raw_bits()),
{
    if is_cell(value) {
        match CellTag::try_from(value.as_raw_bits_64() & CELL_TAG_BITS) {
            Ok(tag) => Some(tag),
            Err(()) => None,
        }
    } else {
        None
    }
}

/// Unwraps the cell-data of the given value as `u64`, without checking if it is a cell.
pub fn unwrap_cell_unchecked<V: IntoRawBits64>(value: V) -> (r: u64)
    ensures
        r == cell_data_field(value.raw_bits()),
{
    value.as_raw_bits_64() & CELL_DATA_BITS
}

/// Unwraps the cell-data of the given value as `u64`, if it is a cell.
pub fn unwrap_cell<V: IntoRawBits64>(value: V) -> (r: Option<u64>)
    ensures
        r is Some <==> is_cell_bits(value.raw_bits()),
        r matches Some(data) ==> data == cell_data_field(value.raw_bits()),
{
    if is_cell(value) {
        Some(unwrap_cell_unchecked(value))
    } else {
        None
    }
}

/// Unwraps the cell-data of the given value as a non-zero `u64`, if it is a cell.
///
/// Returns `None` both when the value is not a cell and when its data
/// field is exactly zero.
pub fn unwrap_cell_nonzero<V: IntoRawBits64>(value: V) -> (r: Option<u64>)
    ensures
        r is Some <==> is_cell_bits(value.raw_bits()) && cell_data_field(value.raw_bits()) != 0,
        r matches Some(data) ==> data == cell_data_field(value.raw_bits()) && data != 0,
{
    if is_cell(value) {
        let data = unwrap_cell_unchecked(value);
        if data != 0 {
            Some(data)
        } else {
            None
        }
    } else {
        None
    }
}

/// Unwraps the cell-data of the given value as a pointer-width address, if
/// it is a cell.
///
/// This function cannot check whether the returned address is a valid
/// pointer; only the bit round-trip is guaranteed.
pub fn unwrap_cell_rawptr<V: IntoRawBits64>(value: V) -> (r: Option<u64>)
    ensures
        r is Some <==> is_cell_bits(value.raw_bits()),
        r matches Some(addr) ==> addr == cell_data_field(value.raw_bits()),
{
    if is_cell(value) {
        Some(unwrap_cell_unchecked(value))
    } else {
        None
    }
}

/// Combines the given tag and pointer-width address into a NaN-tagged value.
///
/// If the `ptr` does not fit in the limits imposed by [`CELL_DATA_BITS`],
/// this function returns `None`; a defined tag always fits its field.
///
/// Whenever this function returns a `Some`-wrapped value, that value can be
/// unwrapped via [`unwrap_cell_rawptr`], yielding exactly the address it was
/// created from. Performing any logic or arithmetic operation on the packed
/// word other than the accessors of this module leaves the scheme's domain.
pub fn from_tag_and_pointer(tag: CellTag, ptr: u64) -> (r: Option<u64>)
    ensures
        r is Some <==> ptr & CELL_DATA_BITS == ptr,
        r matches Some(word) ==> {
            &&& word == CELL_MARKER_BITS | tag.as_bits() | ptr
            &&& is_cell_bits(word)
            &&& cell_tag_field(word) == tag.as_bits()
            &&& cell_data_field(word) == ptr
        },
{
    proof {
        lemma_tag_bits_in_field(tag);
    }
    let vtag = tag.bits() & CELL_TAG_BITS;
    let vptr = ptr & CELL_DATA_BITS;
    if vtag != tag.bits() {
        return None;
    }
    if vptr != ptr {
        return None;
    }
    proof {
        let t = tag.as_bits();
        assert((t & CELL_TAG_BITS == t && ptr & CELL_DATA_BITS == ptr) ==> {
            &&& (CELL_MARKER_BITS | t | ptr) & CELL_MARKER_MASK == CELL_MARKER_BITS
            &&& (CELL_MARKER_BITS | t | ptr) & CELL_TAG_BITS == t
            &&& (CELL_MARKER_BITS | t | ptr) & CELL_DATA_BITS == ptr
        }) by (bit_vector);
    }
    Some(CELL_MARKER_BITS | vtag | vptr)
}

/// The round-trip law of the cell scheme: packing any defined tag with any
/// 48-bit address and unpacking the word again yields exactly the original
/// tag bits and the original address, and the word always classifies as a
/// cell.
pub proof fn lemma_cell_roundtrip(tag: CellTag, ptr: u64)
    requires
        ptr & CELL_DATA_BITS == ptr,
    ensures
        is_cell_bits(CELL_MARKER_BITS | tag.as_bits() | ptr),
        cell_tag_field(CELL_MARKER_BITS | tag.as_bits() | ptr) == tag.as_bits(),
        cell_data_field(CELL_MARKER_BITS | tag.as_bits() | ptr) == ptr,
{
    lemma_tag_bits_in_field(tag);
    let t = tag.as_bits();
    assert((t & CELL_TAG_BITS == t && ptr & CELL_DATA_BITS == ptr) ==> {
        &&& (CELL_MARKER_BITS | t | ptr) & CELL_MARKER_MASK == CELL_MARKER_BITS
        &&& (CELL_MARKER_BITS | t | ptr) & CELL_TAG_BITS == t
        &&& (CELL_MARKER_BITS | t | ptr) & CELL_DATA_BITS == ptr
    }) by (bit_vector);
}

} // verus!
