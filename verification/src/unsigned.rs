//! Unsigned integers from bytes, in each byte order.

use crate::fold::{fold_be, fold_le, fold_ne};
use crate::order::{be_value, le_value, native_value, radix};
use crate::order::{lemma_be_value_bound, lemma_le_value_bound, lemma_native_value_bound, lemma_radix_widths};
use vstd::prelude::*;

verus! {

/// The number of bytes in a `usize` or an `isize`.
pub const WORD_BYTES: usize = (usize::BITS / 8) as usize;

/// `radix` at the width of a machine word.
pub proof fn lemma_radix_word()
    ensures
        WORD_BYTES == 4 || WORD_BYTES == 8,
        radix(WORD_BYTES as nat) == usize::MAX + 1,
        radix(WORD_BYTES as nat) == 2 * (isize::MAX + 1),
        isize::MIN == -(isize::MAX + 1),
{
    lemma_radix_widths();
    assert(usize::BITS == 32 || usize::BITS == 64);
}

/// Reads two bytes as a `u16`, in the machine's own byte order.
pub fn u16_from_ne_bytes(bytes: [u8; 2]) -> (r: u16)
    ensures
        r as nat == native_value(bytes@),
{
    proof {
        lemma_native_value_bound(bytes@);
        lemma_radix_widths();
    }
    fold_ne(bytes.as_slice()) as u16
}

/// Reads two bytes as a `u16`, least significant byte first.
pub fn u16_from_le_bytes(bytes: [u8; 2]) -> (r: u16)
    ensures
        r as nat == le_value(bytes@),
{
    proof {
        lemma_le_value_bound(bytes@);
        lemma_radix_widths();
    }
    fold_le(bytes.as_slice()) as u16
}

/// Reads two bytes as a `u16`, most significant byte first.
pub fn u16_from_be_bytes(bytes: [u8; 2]) -> (r: u16)
    ensures
        r as nat == be_value(bytes@),
{
    proof {
        lemma_be_value_bound(bytes@);
        lemma_radix_widths();
    }
    fold_be(bytes.as_slice()) as u16
}

/// Reads four bytes as a `u32`, in the machine's own byte order.
pub fn u32_from_ne_bytes(bytes: [u8; 4]) -> (r: u32)
    ensures
        r as nat == native_value(bytes@),
{
    proof {
        lemma_native_value_bound(bytes@);
        lemma_radix_widths();
    }
    fold_ne(bytes.as_slice()) as u32
}

/// Reads four bytes as a `u32`, least significant byte first.
pub fn u32_from_le_bytes(bytes: [u8; 4]) -> (r: u32)
    ensures
        r as nat == le_value(bytes@),
{
    proof {
        lemma_le_value_bound(bytes@);
        lemma_radix_widths();
    }
    fold_le(bytes.as_slice()) as u32
}

/// Reads four bytes as a `u32`, most significant byte first.
pub fn u32_from_be_bytes(bytes: [u8; 4]) -> (r: u32)
    ensures
        r as nat == be_value(bytes@),
{
    proof {
        lemma_be_value_bound(bytes@);
        lemma_radix_widths();
    }
    fold_be(bytes.as_slice()) as u32
}

/// Reads eight bytes as a `u64`, in the machine's own byte order.
pub fn u64_from_ne_bytes(bytes: [u8; 8]) -> (r: u64)
    ensures
        r as nat == native_value(bytes@),
{
    proof {
        lemma_native_value_bound(bytes@);
        lemma_radix_widths();
    }
    fold_ne(bytes.as_slice()) as u64
}

/// Reads eight bytes as a `u64`, least significant byte first.
pub fn u64_from_le_bytes(bytes: [u8; 8]) -> (r: u64)
    ensures
        r as nat == le_value(bytes@),
{
    proof {
        lemma_le_value_bound(bytes@);
        lemma_radix_widths();
    }
    fold_le(bytes.as_slice()) as u64
}

/// Reads eight bytes as a `u64`, most significant byte first.
pub fn u64_from_be_bytes(bytes: [u8; 8]) -> (r: u64)
    ensures
        r as nat == be_value(bytes@),
{
    proof {
        lemma_be_value_bound(bytes@);
        lemma_radix_widths();
    }
    fold_be(bytes.as_slice()) as u64
}

/// Reads sixteen bytes as a `u128`, in the machine's own byte order.
pub fn u128_from_ne_bytes(bytes: [u8; 16]) -> (r: u128)
    ensures
        r as nat == native_value(bytes@),
{
    fold_ne(bytes.as_slice())
}

/// Reads sixteen bytes as a `u128`, least significant byte first.
pub fn u128_from_le_bytes(bytes: [u8; 16]) -> (r: u128)
    ensures
        r as nat == le_value(bytes@),
{
    fold_le(bytes.as_slice())
}

/// Reads sixteen bytes as a `u128`, most significant byte first.
pub fn u128_from_be_bytes(bytes: [u8; 16]) -> (r: u128)
    ensures
        r as nat == be_value(bytes@),
{
    fold_be(bytes.as_slice())
}

/// Reads a machine word of bytes as a `usize`, in the machine's own byte order.
pub fn usize_from_ne_bytes(bytes: &[u8]) -> (r: usize)
    requires
        bytes@.len() == WORD_BYTES,
    ensures
        r as nat == native_value(bytes@),
{
    proof {
        lemma_native_value_bound(bytes@);
        lemma_radix_word();
    }
    fold_ne(bytes) as usize
}

/// Reads a machine word of bytes as a `usize`, least significant byte first.
pub fn usize_from_le_bytes(bytes: &[u8]) -> (r: usize)
    requires
        bytes@.len() == WORD_BYTES,
    ensures
        r as nat == le_value(bytes@),
{
    proof {
        lemma_le_value_bound(bytes@);
        lemma_radix_word();
    }
    fold_le(bytes) as usize
}

/// Reads a machine word of bytes as a `usize`, most significant byte first.
pub fn usize_from_be_bytes(bytes: &[u8]) -> (r: usize)
    requires
        bytes@.len() == WORD_BYTES,
    ensures
        r as nat == be_value(bytes@),
{
    proof {
        lemma_be_value_bound(bytes@);
        lemma_radix_word();
    }
    fold_be(bytes) as usize
}

} // verus!
