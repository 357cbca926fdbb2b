use nanbox::cell::{
    CELL_MARKER_BITS, CELL_MARKER_MASK, CELL_TAG_BITS, CELL_DATA_BITS, CELL_TAG_1, CELL_TAG_2,
    CELL_TAG_3, CELL_TAG_5, CELL_TAG_7, CellTag, is_cell, is_not_cell, unwrap_tag_bits_unchecked,
    unwrap_tag_bits, unwrap_tag, unwrap_cell_unchecked, unwrap_cell, unwrap_cell_nonzero,
    unwrap_cell_rawptr, from_tag_and_pointer,
};

#[test]
fn test_cell_bits() {
    assert!(CELL_MARKER_BITS != CELL_TAG_BITS);
    assert!(CELL_MARKER_BITS != CELL_DATA_BITS);
    assert!(CELL_TAG_BITS != CELL_DATA_BITS);
    assert!(CELL_MARKER_BITS & CELL_TAG_BITS & CELL_DATA_BITS == 0);
    assert!(CELL_MARKER_BITS | CELL_TAG_BITS | CELL_DATA_BITS == u64::MAX);
    assert!(CELL_MARKER_BITS ^ CELL_TAG_BITS ^ CELL_DATA_BITS == u64::MAX);
}

#[test]
fn test_ptr_roundtrip() {
    let ptr_before: u64 = 0x0000_1234_5678_9ABC;
    let nan = from_tag_and_pointer(CellTag::Tag5, ptr_before).unwrap();
    let ptr_after = unwrap_cell_rawptr(nan).unwrap();
    assert!(ptr_before == ptr_after, "Before {ptr_before:?} == After {ptr_after:?}");
}

#[test]
fn roundtrip_holds_for_every_tag() {
    let tags = [
        CellTag::Tag1,
        CellTag::Tag2,
        CellTag::Tag3,
        CellTag::Tag4,
        CellTag::Tag5,
        CellTag::Tag6,
        CellTag::Tag7,
    ];
    let ptr: u64 = 0x0000_FFFF_FFFF_FFFF;
    for tag in tags {
        let bits = tag.bits();
        let word = from_tag_and_pointer(tag, ptr).unwrap();
        assert!(is_cell(word));
        assert_eq!(unwrap_cell(word), Some(ptr));
        assert_eq!(unwrap_tag_bits(word), Some(bits));
        assert_eq!(unwrap_tag(word), Some(tag));
    }
}

#[test]
fn oversized_pointer_is_refused() {
    // 48 bits of data at most: one bit above the field makes packing fail.
    assert_eq!(from_tag_and_pointer(CellTag::Tag1, 0x0001_0000_0000_0000), None);
    assert_eq!(from_tag_and_pointer(CellTag::Tag7, u64::MAX), None);
    assert!(from_tag_and_pointer(CellTag::Tag1, 0x0000_FFFF_FFFF_FFFF).is_some());
}

#[test]
fn tag_try_from_domain() {
    assert_eq!(CellTag::try_from(0), Err(()));
    assert_eq!(CellTag::try_from(0x0003000000000000), Ok(CellTag::Tag3));
    assert_eq!(CellTag::try_from(CELL_TAG_1), Ok(CellTag::Tag1));
    assert_eq!(CellTag::try_from(CELL_TAG_7), Ok(CellTag::Tag7));
    // A pattern outside the shifted tag field is not a tag.
    assert_eq!(CellTag::try_from(3), Err(()));
    assert_eq!(CellTag::try_from(CELL_TAG_2 | 1), Err(()));
}

#[test]
fn tag_zero_decodes_to_nothing() {
    // All marker bits set, tag field zero: a cell, but no defined tag.
    let word = CELL_MARKER_BITS | 0x0000_0000_0000_00FF;
    assert!(is_cell(word));
    assert_eq!(unwrap_tag_bits(word), Some(0));
    assert_eq!(unwrap_tag(word), None);
}

#[test]
fn non_cells_unwrap_to_nothing() {
    let float_word = 1.5f64.to_bits();
    assert!(is_not_cell(float_word));
    assert_eq!(unwrap_tag_bits(float_word), None);
    assert_eq!(unwrap_tag(float_word), None);
    assert_eq!(unwrap_cell(float_word), None);
    assert_eq!(unwrap_cell_nonzero(float_word), None);
    assert_eq!(unwrap_cell_rawptr(float_word), None);
    // Sign bit clear: uint space, not cell space.
    let uint_word = nanbox::cons::NAN_BITS | 7;
    assert!(!is_cell(uint_word));
    assert_eq!(unwrap_cell(uint_word), None);
}

#[test]
fn unchecked_accessors_mask_any_word() {
    let word = CELL_MARKER_BITS | CELL_TAG_5 | 0x0000_0000_DEAD_BEEF;
    assert_eq!(unwrap_tag_bits_unchecked(word), CELL_TAG_5);
    assert_eq!(unwrap_cell_unchecked(word), 0x0000_0000_DEAD_BEEF);
    // They do not gate on the marker.
    assert_eq!(unwrap_tag_bits_unchecked(CELL_TAG_3), CELL_TAG_3);
    assert_eq!(unwrap_cell_unchecked(0x1234), 0x1234);
}

#[test]
fn zero_data_has_no_nonzero_unwrap() {
    let word = CELL_MARKER_BITS | CELL_TAG_2;
    assert!(is_cell(word));
    assert_eq!(unwrap_cell(word), Some(0));
    assert_eq!(unwrap_cell_nonzero(word), None);
    let word = CELL_MARKER_BITS | CELL_TAG_2 | 9;
    assert_eq!(unwrap_cell_nonzero(word), Some(9));
}

#[test]
fn marker_mask_matches_marker_bits() {
    assert_eq!(CELL_MARKER_MASK, CELL_MARKER_BITS);
    assert_eq!(CELL_MARKER_BITS, 0xFFF8000000000000);
}
