use nanbox::nanval::{NAN_SIGNAL, Tag16, RawNaNVal};

type Val = RawNaNVal<Tag16, u32>;

fn tag(value: u16) -> Tag16 {
    Tag16::new(value).unwrap()
}

#[test]
fn size() {
    assert!(core::mem::size_of::<Val>() == 8);
}

#[test]
fn tag16_refuses_zero() {
    assert!(Tag16::new(0).is_none());
    assert_eq!(Tag16::new(7).unwrap().get(), 7);
    assert_eq!(Tag16::new(0xFFFF).unwrap().get(), 0xFFFF);
}

#[test]
fn float_and_tag_are_exclusive() {
    let tagged = Val::from_tag(tag(5));
    assert!(!tagged.has_f64());
    assert!(tagged.has_tag());

    let float = Val::from_float_bits(1.5f64.to_bits()).unwrap();
    assert!(!float.has_tag());
    assert!(float.has_f64());

    // Bits that already equal the NaN-signal pattern collide with the
    // tagged space and are refused.
    assert!(Val::from_float_bits(NAN_SIGNAL).is_none());
    assert!(Val::from_float_bits(f64::NAN.to_bits()).is_none());
}

#[test]
fn from_tag_carries_tag_and_empty_data() {
    let v = Val::from_tag(tag(0x00AB));
    assert_eq!(v.get_tag().unwrap().get(), 0x00AB);
    assert_eq!(v.get_dat(), Some(0));
    assert_eq!(v.get_float_bits(), None);
}

#[test]
fn from_tag_and_data_round_trips() {
    let v = Val::from_tag_and_data(tag(0x1234), 0xDEADBEEF);
    assert_eq!(v.get_tag().unwrap().get(), 0x1234);
    assert_eq!(v.get_dat(), Some(0xDEADBEEF));
    let (t, d) = v.get_tag_and_dat().unwrap();
    assert_eq!(t.get(), 0x1234);
    assert_eq!(d, 0xDEADBEEF);
}

#[test]
fn with_dat_on_float_fails() {
    let float = Val::from_float_bits(2.5f64.to_bits()).unwrap();
    assert!(float.with_dat(7).is_none());
}

#[test]
fn with_dat_replaces_data_and_keeps_tag() {
    let v = Val::from_tag_and_data(tag(9), 0xAABB);
    let w = v.with_dat(0x1122).unwrap();
    assert_eq!(w.get_tag().unwrap().get(), 9);
    assert_eq!(w.get_dat(), Some(0x1122));
    // The original is untouched.
    assert_eq!(v.get_dat(), Some(0xAABB));
}

#[test]
fn float_accessors_round_trip() {
    let bits = (-3.75f64).to_bits();
    let v = Val::from_float_bits(bits).unwrap();
    assert_eq!(v.get_float_bits(), Some(bits));
    assert_eq!(v.get_tag(), None);
    assert_eq!(v.get_dat(), None);
    assert_eq!(v.get_tag_and_dat(), None);
}

#[test]
fn set_float_bits_overwrites_tagged_word() {
    let mut v = Val::from_tag_and_data(tag(3), 4);
    let bits = 0.5f64.to_bits();
    v.set_float_bits(bits);
    assert!(v.has_f64());
    assert_eq!(v.get_float_bits(), Some(bits));
}

#[test]
fn reserved_zero_tag_region_reads_as_no_tag() {
    // Writing the bare signal pattern makes the word structurally tagged,
    // but its tag field holds the reserved value zero: the tag accessors
    // refuse it while the data accessor still masks the word.
    let mut v = Val::from_tag(tag(1));
    v.set_float_bits(NAN_SIGNAL);
    assert!(v.has_tag());
    assert_eq!(v.get_tag(), None);
    assert_eq!(v.get_tag_and_dat(), None);
    assert_eq!(v.get_dat(), Some(0));
}

#[test]
fn set_tag_unchecked_keeps_data() {
    let mut v = Val::from_tag_and_data(tag(1), 0xC0FFEE);
    v.set_tag_unchecked(tag(2));
    assert_eq!(v.get_tag().unwrap().get(), 2);
    assert_eq!(v.get_dat(), Some(0xC0FFEE));
}

#[test]
fn set_dat_unchecked_keeps_tag() {
    let mut v = Val::from_tag_and_data(tag(4), 1);
    v.set_dat_unchecked(0xFFFFFFFF);
    assert_eq!(v.get_tag().unwrap().get(), 4);
    assert_eq!(v.get_dat(), Some(0xFFFFFFFF));
}

#[test]
fn set_tag_and_dat_overwrites_any_word() {
    let mut v = Val::from_float_bits(1.0f64.to_bits()).unwrap();
    v.set_tag_and_dat(tag(6), 0x55);
    assert!(v.has_tag());
    let (t, d) = v.get_tag_and_dat().unwrap();
    assert_eq!(t.get(), 6);
    assert_eq!(d, 0x55);
}

#[test]
fn unchecked_accessors_on_tagged_word() {
    let v = Val::from_tag_and_data(tag(0x7777), 0x12345678);
    assert_eq!(v.get_tag_unchecked().get(), 0x7777);
    assert_eq!(v.get_dat_raw_unchecked(), 0x12345678);
}
