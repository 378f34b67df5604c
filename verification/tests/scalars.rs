use read_primitives::{bool_from_byte, char_from_ne_bytes};
use read_primitives::{ReadBool, ReadChar, ReadU8, UnexpectedEof};

#[test]
fn read_u8() {
    let bytes = 37u8.to_ne_bytes();
    let byte = bytes.as_slice().read_u8().unwrap();
    assert_eq!(37, byte)
}

#[test]
fn read_u8_of_every_byte_is_that_byte() {
    for b in 0..=255u8 {
        assert_eq!([b].as_slice().read_u8(), Ok(b));
    }
}

#[test]
fn read_u8_of_nothing_fails() {
    let empty: [u8; 0] = [];
    assert_eq!(empty.as_slice().read_u8(), Err(UnexpectedEof));
}

#[test]
fn read_bool_maps_zero_to_false() {
    assert_eq!([0x00u8].as_slice().read_bool(), Ok(false));
    assert!(!bool_from_byte(0x00));
}

#[test]
fn read_bool_maps_every_other_byte_to_true() {
    assert_eq!([0x01u8].as_slice().read_bool(), Ok(true));
    assert_eq!([0xFFu8].as_slice().read_bool(), Ok(true));
    assert_eq!([0x42u8].as_slice().read_bool(), Ok(true));
    for b in 1..=255u8 {
        assert!(bool_from_byte(b));
        assert_eq!([b].as_slice().read_bool(), Ok(true));
    }
}

#[test]
fn read_bool_of_nothing_fails() {
    let empty: [u8; 0] = [];
    assert_eq!(empty.as_slice().read_bool(), Err(UnexpectedEof));
}

#[test]
fn read_char_of_a_scalar_value_is_present() {
    let bytes = 0x0000_0041u32.to_ne_bytes();
    assert_eq!(bytes.as_slice().read_char(), Ok(Some('A')));
    assert_eq!(char_from_ne_bytes(bytes), Some('A'));
    let crab = (0x1F980u32).to_ne_bytes();
    assert_eq!(crab.as_slice().read_char(), Ok(Some('\u{1F980}')));
}

#[test]
fn read_char_of_a_surrogate_is_absent_not_a_failure() {
    let bytes = 0x0000_D800u32.to_ne_bytes();
    assert_eq!(bytes.as_slice().read_char(), Ok(None));
    assert_eq!(char_from_ne_bytes(bytes), None);
}

#[test]
fn read_char_at_the_edges_of_the_scalar_range() {
    assert_eq!(char_from_ne_bytes(0u32.to_ne_bytes()), Some('\0'));
    assert_eq!(char_from_ne_bytes(0xD7FFu32.to_ne_bytes()), Some('\u{D7FF}'));
    assert_eq!(char_from_ne_bytes(0xD800u32.to_ne_bytes()), None);
    assert_eq!(char_from_ne_bytes(0xDFFFu32.to_ne_bytes()), None);
    assert_eq!(char_from_ne_bytes(0xE000u32.to_ne_bytes()), Some('\u{E000}'));
    assert_eq!(char_from_ne_bytes(0x10FFFFu32.to_ne_bytes()), Some('\u{10FFFF}'));
    assert_eq!(char_from_ne_bytes(0x110000u32.to_ne_bytes()), None);
    assert_eq!(char_from_ne_bytes(u32::MAX.to_ne_bytes()), None);
}

#[test]
fn read_char_of_three_bytes_fails() {
    let bytes = [0x41u8, 0, 0];
    assert_eq!(bytes.as_slice().read_char(), Err(UnexpectedEof));
}
