use rocksdb_rs::math::{
    count_ones_i16, count_ones_i32, count_ones_i64, count_ones_i8, count_ones_u16, count_ones_u32,
    count_ones_u64, count_ones_u8, parity_i16, parity_i32, parity_i64, parity_i8, parity_u16, parity_u32,
    parity_u64, parity_u8, reverse_bits_i16, reverse_bits_i32, reverse_bits_i64, reverse_bits_i8,
    reverse_bits_u16, reverse_bits_u32, reverse_bits_u64, reverse_bits_u8, swap_bytes_i16, swap_bytes_i32,
    swap_bytes_i64, swap_bytes_i8, swap_bytes_u16, swap_bytes_u32, swap_bytes_u64, swap_bytes_u8,
    downward_involution_i16, downward_involution_i32, downward_involution_i64, downward_involution_i8,
    downward_involution_u16, downward_involution_u32, downward_involution_u64, downward_involution_u8,
    floor_log2_i16, floor_log2_i32, floor_log2_i64, floor_log2_i8, floor_log2_u16, floor_log2_u32,
    floor_log2_u64, floor_log2_u8, trailing_zeros_i16, trailing_zeros_i32, trailing_zeros_i64,
    trailing_zeros_i8, trailing_zeros_u16, trailing_zeros_u32, trailing_zeros_u64, trailing_zeros_u8,
};

#[test]
fn test_downward_involution_i8() {
    let result = downward_involution_i8(i8::MAX);
    assert_eq!(downward_involution_i8(result), i8::MAX);

    let result = downward_involution_i8(i8::MIN);
    assert_eq!(downward_involution_i8(result), i8::MIN);
}

#[test]
fn test_downward_involution_i16() {
    let result = downward_involution_i16(i16::MAX);
    assert_eq!(downward_involution_i16(result), i16::MAX);

    let result = downward_involution_i16(i16::MIN);
    assert_eq!(downward_involution_i16(result), i16::MIN);
}

#[test]
fn test_downward_involution_i32() {
    let result = downward_involution_i32(i32::MAX);
    assert_eq!(downward_involution_i32(result), i32::MAX);

    let result = downward_involution_i32(i32::MIN);
    assert_eq!(downward_involution_i32(result), i32::MIN);
}

#[test]
fn test_downward_involution_i64() {
    let result = downward_involution_i64(i64::MAX);
    assert_eq!(downward_involution_i64(result), i64::MAX);

    let result = downward_involution_i64(i64::MIN);
    assert_eq!(downward_involution_i64(result), i64::MIN);
}

#[test]
fn test_downward_involution_u8() {
    let result = downward_involution_u8(u8::MAX);
    assert_eq!(downward_involution_u8(result), u8::MAX);

    let result = downward_involution_u8(u8::MIN);
    assert_eq!(downward_involution_u8(result), u8::MIN);
}

#[test]
fn test_downward_involution_u16() {
    let result = downward_involution_u16(u16::MAX);
    assert_eq!(downward_involution_u16(result), u16::MAX);

    let result = downward_involution_u16(u16::MIN);
    assert_eq!(downward_involution_u16(result), u16::MIN);
}

#[test]
fn test_downward_involution_u32() {
    let result = downward_involution_u32(u32::MAX);
    assert_eq!(downward_involution_u32(result), u32::MAX);

    let result = downward_involution_u32(u32::MIN);
    assert_eq!(downward_involution_u32(result), u32::MIN);
}

#[test]
fn test_downward_involution_u64() {
    let result = downward_involution_u64(u64::MAX);
    assert_eq!(downward_involution_u64(result), u64::MAX);

    let result = downward_involution_u64(u64::MIN);
    assert_eq!(downward_involution_u64(result), u64::MIN);
}

#[test]
fn downward_involution_exact_values() {
    // The lowest bits of the result mix in every higher bit of the same group.
    assert_eq!(downward_involution_u8(0x80), 0xff);
    assert_eq!(downward_involution_u8(0x01), 0x01);
    assert_eq!(downward_involution_u8(0x02), 0x03);
    assert_eq!(downward_involution_u16(0x0100), 0x0101);
    assert_eq!(downward_involution_u64(1u64 << 63), u64::MAX);
}

#[test]
fn downward_involution_round_trips_on_several_inputs() {
    for v in [0u64, 1, 2, 3, 0xdead_beef, 0x0123_4567_89ab_cdef, u64::MAX - 1] {
        assert_eq!(downward_involution_u64(downward_involution_u64(v)), v);
    }
    for v in [-1i8, -2, 5, 100, -100] {
        assert_eq!(downward_involution_i8(downward_involution_i8(v)), v);
    }
    for v in [-1i32, 7, -123_456, 1 << 20] {
        assert_eq!(downward_involution_i32(downward_involution_i32(v)), v);
    }
}

#[test]
fn floor_log2_values() {
    assert_eq!(floor_log2_u8(1), 0);
    assert_eq!(floor_log2_u8(2), 1);
    assert_eq!(floor_log2_u8(3), 1);
    assert_eq!(floor_log2_u8(255), 7);
    assert_eq!(floor_log2_u16(1024), 10);
    assert_eq!(floor_log2_u32(1025), 10);
    assert_eq!(floor_log2_u64(u64::MAX), 63);
    assert_eq!(floor_log2_i8(i8::MAX), 6);
    assert_eq!(floor_log2_i16(i16::MAX), 14);
    assert_eq!(floor_log2_i32(i32::MAX), 30);
    assert_eq!(floor_log2_i64(i64::MAX), 62);
    assert_eq!(floor_log2_i64(1), 0);
}

#[test]
fn trailing_zeros_values() {
    assert_eq!(trailing_zeros_u8(0), 8);
    assert_eq!(trailing_zeros_u16(0), 16);
    assert_eq!(trailing_zeros_u32(0), 32);
    assert_eq!(trailing_zeros_u64(0), 64);
    assert_eq!(trailing_zeros_u8(0b1000), 3);
    assert_eq!(trailing_zeros_u64(1u64 << 40), 40);
    assert_eq!(trailing_zeros_i8(i8::MIN), 7);
    assert_eq!(trailing_zeros_i16(-2), 1);
    assert_eq!(trailing_zeros_i32(0), 32);
    assert_eq!(trailing_zeros_i64(i64::MIN), 63);
}

#[test]
fn count_ones_and_parity_values() {
    assert_eq!(count_ones_u8(0b1011), 3);
    assert_eq!(count_ones_u16(0xffff), 16);
    assert_eq!(count_ones_u32(0), 0);
    assert_eq!(count_ones_u64(u64::MAX), 64);
    assert_eq!(count_ones_i8(-1), 8);
    assert_eq!(count_ones_i16(i16::MIN), 1);
    assert_eq!(count_ones_i32(-2), 31);
    assert_eq!(count_ones_i64(i64::MIN), 1);
    assert_eq!(parity_u8(0), 0);
    assert_eq!(parity_u16(7), 1);
    assert_eq!(parity_u32(0b1100), 0);
    assert_eq!(parity_u64(1u64 << 63), 1);
    assert_eq!(parity_i8(-1), 0);
    assert_eq!(parity_i16(-2), 1);
    assert_eq!(parity_i32(i32::MIN), 1);
    assert_eq!(parity_i64(-1), 0);
}

#[test]
fn swap_bytes_values() {
    assert_eq!(swap_bytes_u8(0xab), 0xab);
    assert_eq!(swap_bytes_u16(0x1234), 0x3412);
    assert_eq!(swap_bytes_u32(0x1234_5678), 0x7856_3412);
    assert_eq!(swap_bytes_u64(0x0102_0304_0506_0708), 0x0807_0605_0403_0201);
    assert_eq!(swap_bytes_i8(-5), -5);
    assert_eq!(swap_bytes_i16(0x0080), i16::MIN);
    assert_eq!(swap_bytes_i32(-2), (-2i32).swap_bytes());
    assert_eq!(swap_bytes_i64(0x0102_0304_0506_0708), 0x0807_0605_0403_0201);
}

#[test]
fn reverse_bits_values() {
    assert_eq!(reverse_bits_u8(0b0000_0001), 0b1000_0000);
    assert_eq!(reverse_bits_u8(0b1101_0000), 0b0000_1011);
    assert_eq!(reverse_bits_u16(1), 0x8000);
    assert_eq!(reverse_bits_u32(1), 0x8000_0000);
    assert_eq!(reverse_bits_u64(0b11), 0xc000_0000_0000_0000);
    assert_eq!(reverse_bits_i8(1), i8::MIN);
    assert_eq!(reverse_bits_i16(-1), -1);
    assert_eq!(reverse_bits_i32(6), (6i32).reverse_bits());
    assert_eq!(reverse_bits_i64(2), 0x4000_0000_0000_0000);
}
