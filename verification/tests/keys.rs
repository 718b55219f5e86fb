use ctr_camera::keys::{Key, Keys};

#[test]
fn masks_are_the_pad_bits() {
    assert_eq!(Key::A.mask(), 0x1);
    assert_eq!(Key::B.mask(), 0x2);
    assert_eq!(Key::Start.mask(), 0x8);
    assert_eq!(Key::X.mask(), 0x400);
}

#[test]
fn empty_report_holds_no_key() {
    let keys = Keys::empty();
    assert_eq!(keys.bits(), 0);
    for key in [Key::A, Key::B, Key::X, Key::Start] {
        assert!(!keys.intersects(key));
    }
}

#[test]
fn from_bits_keeps_the_bits() {
    assert_eq!(Keys::from_bits(0x40a).bits(), 0x40a);
    assert_eq!(Keys::from_bits(u32::MAX).bits(), u32::MAX);
    assert_eq!(Keys::from_bits(0), Keys::empty());
}

#[test]
fn intersects_reads_one_bit() {
    let keys = Keys::from_bits(0x40a);
    assert!(!keys.intersects(Key::A));
    assert!(keys.intersects(Key::B));
    assert!(keys.intersects(Key::Start));
    assert!(keys.intersects(Key::X));
}

#[test]
fn other_keys_of_the_pad_are_no_menu_key() {
    // SELECT, the directions, the shoulders and Y.
    let keys = Keys::from_bits(0x4 | 0xf0 | 0x300 | 0x800);
    for key in [Key::A, Key::B, Key::X, Key::Start] {
        assert!(!keys.intersects(key));
    }
    assert_ne!(keys, Keys::empty());
}

#[test]
fn with_adds_exactly_one_key() {
    let keys = Keys::empty().with(Key::X);
    assert_eq!(keys.bits(), 0x400);
    assert!(keys.intersects(Key::X));
    assert!(!keys.intersects(Key::A));
    assert!(!keys.intersects(Key::B));
    assert!(!keys.intersects(Key::Start));

    let both = keys.with(Key::A);
    assert_eq!(both.bits(), 0x401);
    assert!(both.intersects(Key::X));
    assert!(both.intersects(Key::A));
}

#[test]
fn with_is_idempotent_and_keeps_foreign_bits() {
    let keys = Keys::from_bits(0x800).with(Key::B).with(Key::B);
    assert_eq!(keys.bits(), 0x802);
}
