use read_primitives::{ReadU128, ReadU16, ReadU32, ReadU64, ReadUsize};
use read_primitives::native_is_little_endian;
use read_primitives::unsigned::{u128_from_be_bytes, u128_from_le_bytes, u128_from_ne_bytes};
use read_primitives::unsigned::{u16_from_be_bytes, u16_from_le_bytes, u16_from_ne_bytes};
use read_primitives::unsigned::{u32_from_be_bytes, u32_from_le_bytes, u32_from_ne_bytes};
use read_primitives::unsigned::{u64_from_be_bytes, u64_from_le_bytes, u64_from_ne_bytes};
use read_primitives::unsigned::{usize_from_be_bytes, usize_from_le_bytes, usize_from_ne_bytes};
use read_primitives::unsigned::WORD_BYTES;

#[test]
fn read_ne_u16() {
    let bytes = 37u16.to_ne_bytes();
    let number = bytes.as_slice().read_ne_u16().unwrap();
    assert_eq!(37u16, number)
}

#[test]
fn read_le_u16() {
    let bytes = 37u16.to_le_bytes();
    let number = bytes.as_slice().read_le_u16().unwrap();
    assert_eq!(37u16, number)
}

#[test]
fn read_be_u16() {
    let bytes = 37u16.to_be_bytes();
    let number = bytes.as_slice().read_be_u16().unwrap();
    assert_eq!(37u16, number)
}

#[test]
fn read_ne_u32() {
    let bytes = 37u32.to_ne_bytes();
    let number = bytes.as_slice().read_ne_u32().unwrap();
    assert_eq!(37u32, number)
}

#[test]
fn read_le_u32() {
    let bytes = 37u32.to_le_bytes();
    let number = bytes.as_slice().read_le_u32().unwrap();
    assert_eq!(37u32, number)
}

#[test]
fn read_be_u32() {
    let bytes = 37u32.to_be_bytes();
    let number = bytes.as_slice().read_be_u32().unwrap();
    assert_eq!(37u32, number)
}

#[test]
fn read_ne_u64() {
    let bytes = 37u64.to_ne_bytes();
    let number = bytes.as_slice().read_ne_u64().unwrap();
    assert_eq!(37u64, number)
}

#[test]
fn read_le_u64() {
    let bytes = 37u64.to_le_bytes();
    let number = bytes.as_slice().read_le_u64().unwrap();
    assert_eq!(37u64, number)
}

#[test]
fn read_be_u64() {
    let bytes = 37u64.to_be_bytes();
    let number = bytes.as_slice().read_be_u64().unwrap();
    assert_eq!(37u64, number)
}

#[test]
fn read_ne_u128() {
    let bytes = 37u128.to_ne_bytes();
    let number = bytes.as_slice().read_ne_u128().unwrap();
    assert_eq!(37u128, number)
}

#[test]
fn read_le_u128() {
    let bytes = 37u128.to_le_bytes();
    let number = bytes.as_slice().read_le_u128().unwrap();
    assert_eq!(37u128, number)
}

#[test]
fn read_be_u128() {
    let bytes = 37u128.to_be_bytes();
    let number = bytes.as_slice().read_be_u128().unwrap();
    assert_eq!(37u128, number)
}

#[test]
fn read_ne_usize() {
    let bytes = 37usize.to_ne_bytes();
    let number = bytes.as_slice().read_ne_usize().unwrap();
    assert_eq!(37usize, number)
}

#[test]
fn read_le_usize() {
    let bytes = 37usize.to_le_bytes();
    let number = bytes.as_slice().read_le_usize().unwrap();
    assert_eq!(37usize, number)
}

#[test]
fn read_be_usize() {
    let bytes = 37usize.to_be_bytes();
    let number = bytes.as_slice().read_be_usize().unwrap();
    assert_eq!(37usize, number)
}

#[test]
fn u16_extremes_in_every_order() {
    for v in [0u16, 1, 255, 256, u16::MAX - 1, u16::MAX, u16::MAX / 3] {
        assert_eq!(u16_from_ne_bytes(v.to_ne_bytes()), v);
        assert_eq!(u16_from_le_bytes(v.to_le_bytes()), v);
        assert_eq!(u16_from_be_bytes(v.to_be_bytes()), v);
        assert_eq!(v.to_ne_bytes().as_slice().read_ne_u16(), Ok(v));
        assert_eq!(v.to_le_bytes().as_slice().read_le_u16(), Ok(v));
        assert_eq!(v.to_be_bytes().as_slice().read_be_u16(), Ok(v));
    }
}

#[test]
fn u32_extremes_in_every_order() {
    for v in [0u32, 1, 255, 256, u32::MAX - 1, u32::MAX, u32::MAX / 3] {
        assert_eq!(u32_from_ne_bytes(v.to_ne_bytes()), v);
        assert_eq!(u32_from_le_bytes(v.to_le_bytes()), v);
        assert_eq!(u32_from_be_bytes(v.to_be_bytes()), v);
        assert_eq!(v.to_ne_bytes().as_slice().read_ne_u32(), Ok(v));
        assert_eq!(v.to_le_bytes().as_slice().read_le_u32(), Ok(v));
        assert_eq!(v.to_be_bytes().as_slice().read_be_u32(), Ok(v));
    }
}

#[test]
fn u64_extremes_in_every_order() {
    for v in [0u64, 1, 255, 256, u64::MAX - 1, u64::MAX, u64::MAX / 3] {
        assert_eq!(u64_from_ne_bytes(v.to_ne_bytes()), v);
        assert_eq!(u64_from_le_bytes(v.to_le_bytes()), v);
        assert_eq!(u64_from_be_bytes(v.to_be_bytes()), v);
        assert_eq!(v.to_ne_bytes().as_slice().read_ne_u64(), Ok(v));
        assert_eq!(v.to_le_bytes().as_slice().read_le_u64(), Ok(v));
        assert_eq!(v.to_be_bytes().as_slice().read_be_u64(), Ok(v));
    }
}

#[test]
fn u128_extremes_in_every_order() {
    for v in [0u128, 1, 255, 256, u128::MAX - 1, u128::MAX, u128::MAX / 3] {
        assert_eq!(u128_from_ne_bytes(v.to_ne_bytes()), v);
        assert_eq!(u128_from_le_bytes(v.to_le_bytes()), v);
        assert_eq!(u128_from_be_bytes(v.to_be_bytes()), v);
        assert_eq!(v.to_ne_bytes().as_slice().read_ne_u128(), Ok(v));
        assert_eq!(v.to_le_bytes().as_slice().read_le_u128(), Ok(v));
        assert_eq!(v.to_be_bytes().as_slice().read_be_u128(), Ok(v));
    }
}

#[test]
fn usize_extremes_in_every_order() {
    for v in [0usize, 1, 255, 256, usize::MAX - 1, usize::MAX, usize::MAX / 3] {
        assert_eq!(usize_from_ne_bytes(&v.to_ne_bytes()), v);
        assert_eq!(usize_from_le_bytes(&v.to_le_bytes()), v);
        assert_eq!(usize_from_be_bytes(&v.to_be_bytes()), v);
        assert_eq!(v.to_ne_bytes().as_slice().read_ne_usize(), Ok(v));
        assert_eq!(v.to_le_bytes().as_slice().read_le_usize(), Ok(v));
        assert_eq!(v.to_be_bytes().as_slice().read_be_usize(), Ok(v));
    }
}

#[test]
fn word_bytes_is_the_size_of_a_usize() {
    assert_eq!(WORD_BYTES, std::mem::size_of::<usize>());
    assert_eq!(WORD_BYTES, std::mem::size_of::<isize>());
}

#[test]
fn u32_formula_least_significant_first() {
    assert_eq!(u32_from_le_bytes([0x01, 0x02, 0x03, 0x04]), 0x0403_0201);
    assert_eq!(u32_from_le_bytes([0x78, 0x56, 0x34, 0x12]), 0x1234_5678);
}

#[test]
fn u32_formula_most_significant_first() {
    assert_eq!(u32_from_be_bytes([0x01, 0x02, 0x03, 0x04]), 0x0102_0304);
    assert_eq!(u32_from_be_bytes([0x12, 0x34, 0x56, 0x78]), 0x1234_5678);
}

#[test]
fn u16_formula_in_both_fixed_orders() {
    assert_eq!(u16_from_le_bytes([0x34, 0x12]), 0x1234);
    assert_eq!(u16_from_be_bytes([0x34, 0x12]), 0x3412);
}

#[test]
fn u64_formula_in_both_fixed_orders() {
    let bytes = [0x01, 0x23, 0x45, 0x67, 0x89, 0xAB, 0xCD, 0xEF];
    assert_eq!(u64_from_be_bytes(bytes), 0x0123_4567_89AB_CDEF);
    assert_eq!(u64_from_le_bytes(bytes), 0xEFCD_AB89_6745_2301);
}

#[test]
fn u128_formula_in_both_fixed_orders() {
    let mut bytes = [0u8; 16];
    bytes[0] = 0x80;
    bytes[15] = 0x01;
    assert_eq!(u128_from_be_bytes(bytes), (0x80u128 << 120) | 1);
    assert_eq!(u128_from_le_bytes(bytes), (1u128 << 120) | 0x80);
}

#[test]
fn native_order_is_one_of_the_fixed_orders() {
    let bytes = [0x12, 0x34, 0x56, 0x78];
    let native = u32_from_ne_bytes(bytes);
    if native_is_little_endian() {
        assert_eq!(native, u32_from_le_bytes(bytes));
        assert_eq!(native, 0x7856_3412);
    } else {
        assert_eq!(native, u32_from_be_bytes(bytes));
        assert_eq!(native, 0x1234_5678);
    }
    assert_eq!(native, u32::from_ne_bytes(bytes));
}

#[test]
fn native_order_probe_agrees_with_the_machine() {
    let little = 1u16.to_ne_bytes() == 1u16.to_le_bytes();
    assert_eq!(native_is_little_endian(), little);
    assert_eq!(u16_from_ne_bytes([0x34, 0x12]), u16::from_ne_bytes([0x34, 0x12]));
    assert_ne!(u16_from_ne_bytes([0x34, 0x12]), u16_from_ne_bytes([0x12, 0x34]));
}
