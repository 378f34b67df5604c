use read_primitives::{ReadU32, ReadU64};

#[test]
fn read_ne_f32() {
    let bytes = 37f32.to_ne_bytes();
    let number = f32::from_bits(bytes.as_slice().read_ne_u32().unwrap());
    assert_eq!(37f32, number)
}

#[test]
fn read_le_f32() {
    let bytes = 37f32.to_le_bytes();
    let number = f32::from_bits(bytes.as_slice().read_le_u32().unwrap());
    assert_eq!(37f32, number)
}

#[test]
fn read_be_f32() {
    let bytes = 37f32.to_be_bytes();
    let number = f32::from_bits(bytes.as_slice().read_be_u32().unwrap());
    assert_eq!(37f32, number)
}

#[test]
fn read_ne_f64() {
    let bytes = 37f64.to_ne_bytes();
    let number = f64::from_bits(bytes.as_slice().read_ne_u64().unwrap());
    assert_eq!(37f64, number)
}

#[test]
fn read_le_f64() {
    let bytes = 37f64.to_le_bytes();
    let number = f64::from_bits(bytes.as_slice().read_le_u64().unwrap());
    assert_eq!(37f64, number)
}

#[test]
fn read_be_f64() {
    let bytes = 37f64.to_be_bytes();
    let number = f64::from_bits(bytes.as_slice().read_be_u64().unwrap());
    assert_eq!(37f64, number)
}

#[test]
fn pi_from_eight_little_endian_bytes() {
    let bytes: [u8; 8] = [24, 45, 68, 84, 251, 33, 9, 64];
    let float = f64::from_bits(bytes.as_slice().read_le_u64().unwrap());
    assert_eq!(std::f64::consts::PI, float)
}

#[test]
fn float_bits_survive_the_round_trip() {
    let nan_with_payload = f64::from_bits(0x7FF8_0000_DEAD_BEEF);
    for v in [0.0f64, -0.0, 1.5, f64::MIN_POSITIVE, f64::INFINITY, f64::NEG_INFINITY, nan_with_payload] {
        let le = v.to_le_bytes().as_slice().read_le_u64().unwrap();
        let be = v.to_be_bytes().as_slice().read_be_u64().unwrap();
        let ne = v.to_ne_bytes().as_slice().read_ne_u64().unwrap();
        assert_eq!(le, v.to_bits());
        assert_eq!(be, v.to_bits());
        assert_eq!(ne, v.to_bits());
    }
    let small_nan = f32::from_bits(0x7FC0_1234);
    for v in [0.0f32, -0.0, 37.0, f32::MAX, small_nan] {
        let le = v.to_le_bytes().as_slice().read_le_u32().unwrap();
        let be = v.to_be_bytes().as_slice().read_be_u32().unwrap();
        let ne = v.to_ne_bytes().as_slice().read_ne_u32().unwrap();
        assert_eq!(le, v.to_bits());
        assert_eq!(be, v.to_bits());
        assert_eq!(ne, v.to_bits());
    }
}
