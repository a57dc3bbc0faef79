use x2apic::bitfield::{extract, get_bit, insert, set_bit, BitField};

#[test]
fn extract_right_aligns_field() {
    assert_eq!(extract(0x0000_0000_00ab_cd00, BitField::new(8, 16)), 0xcd);
    assert_eq!(extract(0x0000_0000_00ab_cd00, BitField::new(16, 24)), 0xab);
    assert_eq!(extract(u64::MAX, BitField::new(0, 64)), u64::MAX);
    assert_eq!(extract(0xdead_beef_0000_0000, BitField::new(32, 64)), 0xdead_beef);
}

#[test]
fn insert_writes_field_and_keeps_rest() {
    assert_eq!(insert(0xffff_ffff, BitField::new(8, 16), 0x12), 0xffff_12ff);
    assert_eq!(insert(0, BitField::new(32, 64), 0xdead_beef), 0xdead_beef_0000_0000);
    assert_eq!(insert(0x1234, BitField::new(0, 64), 7), 7);
}

#[test]
fn insert_truncates_oversized_value() {
    // 0x1ff does not fit 8 bits: only 0xff lands, neighbours untouched.
    assert_eq!(insert(0, BitField::new(4, 12), 0x1ff), 0xff0);
    let f = BitField::new(18, 20);
    for x in [0u64, 1, 2, 3, 4, 7, 0x55, u64::MAX] {
        let v = insert(0x1234_5678_9abc_def0, f, x);
        assert_eq!(extract(v, f), x % 4);
    }
}

#[test]
fn rewrite_of_extracted_field_is_identity() {
    for v in [0u64, 1, 0x1234_5678_9abc_def0, u64::MAX] {
        for (s, e) in [(0u64, 1u64), (0, 8), (8, 11), (17, 19), (32, 64), (0, 64), (63, 64)] {
            let f = BitField::new(s, e);
            assert_eq!(insert(v, f, extract(v, f)), v);
        }
    }
}

#[test]
fn single_bits() {
    assert!(get_bit(0b1000, 3));
    assert!(!get_bit(0b1000, 2));
    assert_eq!(set_bit(0, 63, true), 1 << 63);
    assert_eq!(set_bit(0xff, 0, false), 0xfe);
    assert_eq!(BitField::single(5), BitField::new(5, 6));
}
