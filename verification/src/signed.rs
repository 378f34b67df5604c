//! Signed integers from bytes, in each byte order: the unsigned reading of the
//! bytes, taken as a two's complement pattern.

use crate::order::{be_value, le_value, native_value, signed_value};
use crate::order::lemma_radix_widths;
use crate::unsigned::{lemma_radix_word, WORD_BYTES};
use crate::unsigned::{u128_from_be_bytes, u128_from_le_bytes, u128_from_ne_bytes};
use crate::unsigned::{u16_from_be_bytes, u16_from_le_bytes, u16_from_ne_bytes};
use crate::unsigned::{u32_from_be_bytes, u32_from_le_bytes, u32_from_ne_bytes};
use crate::unsigned::{u64_from_be_bytes, u64_from_le_bytes, u64_from_ne_bytes};
use crate::unsigned::{usize_from_be_bytes, usize_from_le_bytes, usize_from_ne_bytes};
use vstd::prelude::*;

verus! {

/// The `i16` that shares its bit pattern with `pattern`.
fn i16_of_pattern(pattern: u16) -> (r: i16)
    ensures
        r as int == signed_value(pattern as nat, 2),
{
    proof {
        lemma_radix_widths();
        assert(pattern as i16 as int == (if pattern < 0x8000u16 {
            pattern as int
        } else {
            pattern as int - 0x1_0000
        })) by (bit_vector);
    }
    pattern as i16
}

/// The `i32` that shares its bit pattern with `pattern`.
fn i32_of_pattern(pattern: u32) -> (r: i32)
    ensures
        r as int == signed_value(pattern as nat, 4),
{
    proof {
        lemma_radix_widths();
        assert(pattern as i32 as int == (if pattern < 0x8000_0000u32 {
            pattern as int
        } else {
            pattern as int - 0x1_0000_0000
        })) by (bit_vector);
    }
    pattern as i32
}

/// The `i64` that shares its bit pattern with `pattern`.
fn i64_of_pattern(pattern: u64) -> (r: i64)
    ensures
        r as int == signed_value(pattern as nat, 8),
{
    proof {
        lemma_radix_widths();
        assert(pattern as i64 as int == (if pattern < 0x8000_0000_0000_0000u64 {
            pattern as int
        } else {
            pattern as int - 0x1_0000_0000_0000_0000
        })) by (bit_vector);
    }
    pattern as i64
}

/// The `i128` that shares its bit pattern with `pattern`.
fn i128_of_pattern(pattern: u128) -> (r: i128)
    ensures
        r as int == signed_value(pattern as nat, 16),
{
    proof {
        lemma_radix_widths();
        assert(pattern as i128 as int == (if pattern < 0x8000_0000_0000_0000_0000_0000_0000_0000u128 {
            pattern as int
        } else {
            pattern as int - 0x1_0000_0000_0000_0000_0000_0000_0000_0000
        })) by (bit_vector);
    }
    pattern as i128
}

/// The `isize` that shares its bit pattern with `pattern`.
fn isize_of_pattern(pattern: usize) -> (r: isize)
    ensures
        r as int == signed_value(pattern as nat, WORD_BYTES as nat),
{
    proof {
        lemma_radix_word();
    }
    if pattern <= isize::MAX as usize {
        pattern as isize
    } else {
        (pattern - isize::MAX as usize - 1) as isize + isize::MIN
    }
}

/// Reads two bytes as an `i16` in two's complement, in the machine's own byte order.
pub fn i16_from_ne_bytes(bytes: [u8; 2]) -> (r: i16)
    ensures
        r as int == signed_value(native_value(bytes@), 2),
{
    i16_of_pattern(u16_from_ne_bytes(bytes))
}

/// Reads two bytes as an `i16` in two's complement, least significant byte first.
pub fn i16_from_le_bytes(bytes: [u8; 2]) -> (r: i16)
    ensures
        r as int == signed_value(le_value(bytes@), 2),
{
    i16_of_pattern(u16_from_le_bytes(bytes))
}

/// Reads two bytes as an `i16` in two's complement, most significant byte first.
pub fn i16_from_be_bytes(bytes: [u8; 2]) -> (r: i16)
    ensures
        r as int == signed_value(be_value(bytes@), 2),
{
    i16_of_pattern(u16_from_be_bytes(bytes))
}

/// Reads four bytes as an `i32` in two's complement, in the machine's own byte order.
pub fn i32_from_ne_bytes(bytes: [u8; 4]) -> (r: i32)
    ensures
        r as int == signed_value(native_value(bytes@), 4),
{
    i32_of_pattern(u32_from_ne_bytes(bytes))
}

/// Reads four bytes as an `i32` in two's complement, least significant byte first.
pub fn i32_from_le_bytes(bytes: [u8; 4]) -> (r: i32)
    ensures
        r as int == signed_value(le_value(bytes@), 4),
{
    i32_of_pattern(u32_from_le_bytes(bytes))
}

/// Reads four bytes as an `i32` in two's complement, most significant byte first.
pub fn i32_from_be_bytes(bytes: [u8; 4]) -> (r: i32)
    ensures
        r as int == signed_value(be_value(bytes@), 4),
{
    i32_of_pattern(u32_from_be_bytes(bytes))
}

/// Reads eight bytes as an `i64` in two's complement, in the machine's own byte order.
pub fn i64_from_ne_bytes(bytes: [u8; 8]) -> (r: i64)
    ensures
        r as int == signed_value(native_value(bytes@), 8),
{
    i64_of_pattern(u64_from_ne_bytes(bytes))
}

/// Reads eight bytes as an `i64` in two's complement, least significant byte first.
pub fn i64_from_le_bytes(bytes: [u8; 8]) -> (r: i64)
    ensures
        r as int == signed_value(le_value(bytes@), 8),
{
    i64_of_pattern(u64_from_le_bytes(bytes))
}

/// Reads eight bytes as an `i64` in two's complement, most significant byte first.
pub fn i64_from_be_bytes(bytes: [u8; 8]) -> (r: i64)
    ensures
        r as int == signed_value(be_value(bytes@), 8),
{
    i64_of_pattern(u64_from_be_bytes(bytes))
}

/// Reads sixteen bytes as an `i128` in two's complement, in the machine's own byte order.
pub fn i128_from_ne_bytes(bytes: [u8; 16]) -> (r: i128)
    ensures
        r as int == signed_value(native_value(bytes@), 16),
{
    i128_of_pattern(u128_from_ne_bytes(bytes))
}

/// Reads sixteen bytes as an `i128` in two's complement, least significant byte first.
pub fn i128_from_le_bytes(bytes: [u8; 16]) -> (r: i128)
    ensures
        r as int == signed_value(le_value(bytes@), 16),
{
    i128_of_pattern(u128_from_le_bytes(bytes))
}

/// Reads sixteen bytes as an `i128` in two's complement, most significant byte first.
pub fn i128_from_be_bytes(bytes: [u8; 16]) -> (r: i128)
    ensures
        r as int == signed_value(be_value(bytes@), 16),
{
    i128_of_pattern(u128_from_be_bytes(bytes))
}

/// Reads a machine word of bytes as an `isize` in two's complement, in the machine's own byte order.
pub fn isize_from_ne_bytes(bytes: &[u8]) -> (r: isize)
    requires
        bytes@.len() == WORD_BYTES,
    ensures
        r as int == signed_value(native_value(bytes@), WORD_BYTES as nat),
{
    isize_of_pattern(usize_from_ne_bytes(bytes))
}

/// Reads a machine word of bytes as an `isize` in two's complement, least significant byte first.
pub fn isize_from_le_bytes(bytes: &[u8]) -> (r: isize)
    requires
        bytes@.len() == WORD_BYTES,
    ensures
        r as int == signed_value(le_value(bytes@), WORD_BYTES as nat),
{
    isize_of_pattern(usize_from_le_bytes(bytes))
}

/// Reads a machine word of bytes as an `isize` in two's complement, most significant byte first.
pub fn isize_from_be_bytes(bytes: &[u8]) -> (r: isize)
    requires
        bytes@.len() == WORD_BYTES,
    ensures
        r as int == signed_value(be_value(bytes@), WORD_BYTES as nat),
{
    isize_of_pattern(usize_from_be_bytes(bytes))
}

} // verus!
