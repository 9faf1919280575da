use r32i::mask::range;
use r32i::mask::range_mask;

#[test]
fn test_mask() {
    assert_eq!(range(4, 7) & 0b00101111000, 0b000001110000);
}

#[test]
fn range_mask_values() {
    assert_eq!(range_mask(0, 1), 0b11);
    assert_eq!(range_mask(0, 3), 0b1111);
    assert_eq!(range_mask(1, 3), 0b1110);
    assert_eq!(range_mask(5, 5), 0b100000);
    assert_eq!(range_mask(7, 7), 0b10000000);
    assert_eq!(range_mask(0, 31), 0xFFFFFFFF);
}
