use rv64emu::bitops::{BitRange, bit_range_get, bit_range_set, bit_range_map, sign_ext64, repeat_bit};

#[test]
fn test1() {
    assert_eq!(bit_range_get(0xF0, BitRange(4, 7)), 0xF);
}

#[test]
fn test2() {
    assert_eq!(bit_range_get(0xF000000000000000 as u64, BitRange(60, 63)), 0xF);
}

#[test]
fn test3() {
    assert_eq!(bit_range_get(0xF000000000000000 as u64, BitRange(59, 63)), 0x1E);
}

#[test]
fn test_sign_ext64_1() {
    assert_eq!(0xFFFFFFFFFFFFFFFE, sign_ext64(2, 2));
}

#[test]
fn test_sign_ext64_2() {
    assert_eq!(0xFFFFFFFFFFFF0000, sign_ext64(17, 0x10000));
}

#[test]
fn test_full_width_mask() {
    assert_eq!(BitRange(0, 63).mask(), 0xFFFF_FFFF_FFFF_FFFF);
}

#[test]
fn test_narrow_masks() {
    assert_eq!(BitRange(0, 0).mask(), 1);
    assert_eq!(BitRange(4, 7).mask(), 0xF);
    assert_eq!(BitRange(0, 31).mask(), 0xFFFF_FFFF);
}

#[test]
fn test_bit_range_set() {
    assert_eq!(bit_range_set(0xF, BitRange(4, 7)), 0xF0);
    assert_eq!(bit_range_set(0x3, BitRange(62, 63)), 0xC000_0000_0000_0000);
}

#[test]
fn test_bit_range_map() {
    assert_eq!(bit_range_map(0xF0, BitRange(4, 7), BitRange(0, 3)), 0xF);
    assert_eq!(bit_range_map(0b1010_0000, BitRange(5, 7), BitRange(1, 3)), 0b1010);
}

#[test]
fn test_sign_ext_no_sign_bit() {
    assert_eq!(sign_ext64(8, 0x7F), 0x7F);
    assert_eq!(sign_ext64(64, 0x8000_0000_0000_0000), 0x8000_0000_0000_0000);
}

#[test]
fn test_repeat_bit() {
    assert_eq!(repeat_bit(0, 8), 0);
    assert_eq!(repeat_bit(1, 8), 0xFF);
    assert_eq!(repeat_bit(1, 64), 0xFFFF_FFFF_FFFF_FFFF);
}
