//! Reading unsigned integers from a source of bytes: one trait for each type, one
//! method for each byte order.

use crate::order::{be_value, le_value, native_value};
use crate::source::{contents_after, value_if_read, ByteSource};
use crate::unsigned::{u16_from_be_bytes, u16_from_le_bytes, u16_from_ne_bytes};
use crate::unsigned::{u32_from_be_bytes, u32_from_le_bytes, u32_from_ne_bytes};
use crate::unsigned::{u64_from_be_bytes, u64_from_le_bytes, u64_from_ne_bytes};
use crate::unsigned::{u128_from_be_bytes, u128_from_le_bytes, u128_from_ne_bytes};
use crate::unsigned::{usize_from_be_bytes, usize_from_le_bytes, usize_from_ne_bytes};
use crate::unsigned::{lemma_radix_word, WORD_BYTES};
use vstd::prelude::*;

verus! {

/// Reads a `u16` from a source of bytes.
pub trait ReadU16: ByteSource {
    /// Takes two bytes from the source and reads them as a `u16`, in the machine's own byte order.
    fn read_ne_u16(&mut self) -> (r: Result<u16, Self::Error>)
        ensures
            final(self).contents() == contents_after(old(self).contents(), 2),
            old(self).contents() matches Some(held) ==> (r is Ok <==> 2 <= held.len()),
            old(self).contents() matches Some(held) ==> (r matches Ok(v) ==> {
                v as nat == native_value(held.take(2))
            }),
    {
        let mut bytes = [0u8; 2];
        let read = self.read_exact(&mut bytes);
        value_if_read(read, u16_from_ne_bytes(bytes))
    }

    /// Takes two bytes from the source and reads them as a `u16`, least significant byte first.
    fn read_le_u16(&mut self) -> (r: Result<u16, Self::Error>)
        ensures
            final(self).contents() == contents_after(old(self).contents(), 2),
            old(self).contents() matches Some(held) ==> (r is Ok <==> 2 <= held.len()),
            old(self).contents() matches Some(held) ==> (r matches Ok(v) ==> {
                v as nat == le_value(held.take(2))
            }),
    {
        let mut bytes = [0u8; 2];
        let read = self.read_exact(&mut bytes);
        value_if_read(read, u16_from_le_bytes(bytes))
    }

    /// Takes two bytes from the source and reads them as a `u16`, most significant byte first.
    fn read_be_u16(&mut self) -> (r: Result<u16, Self::Error>)
        ensures
            final(self).contents() == contents_after(old(self).contents(), 2),
            old(self).contents() matches Some(held) ==> (r is Ok <==> 2 <= held.len()),
            old(self).contents() matches Some(held) ==> (r matches Ok(v) ==> {
                v as nat == be_value(held.take(2))
            }),
    {
        let mut bytes = [0u8; 2];
        let read = self.read_exact(&mut bytes);
        value_if_read(read, u16_from_be_bytes(bytes))
    }
}

impl<R: ByteSource> ReadU16 for R {}

/// Reads a `u32` from a source of bytes.
pub trait ReadU32: ByteSource {
    /// Takes four bytes from the source and reads them as a `u32`, in the machine's own byte order.
    fn read_ne_u32(&mut self) -> (r: Result<u32, Self::Error>)
        ensures
            final(self).contents() == contents_after(old(self).contents(), 4),
            old(self).contents() matches Some(held) ==> (r is Ok <==> 4 <= held.len()),
            old(self).contents() matches Some(held) ==> (r matches Ok(v) ==> {
                v as nat == native_value(held.take(4))
            }),
    {
        let mut bytes = [0u8; 4];
        let read = self.read_exact(&mut bytes);
        value_if_read(read, u32_from_ne_bytes(bytes))
    }

    /// Takes four bytes from the source and reads them as a `u32`, least significant byte first.
    fn read_le_u32(&mut self) -> (r: Result<u32, Self::Error>)
        ensures
            final(self).contents() == contents_after(old(self).contents(), 4),
            old(self).contents() matches Some(held) ==> (r is Ok <==> 4 <= held.len()),
            old(self).contents() matches Some(held) ==> (r matches Ok(v) ==> {
                v as nat == le_value(held.take(4))
            }),
    {
        let mut bytes = [0u8; 4];
        let read = self.read_exact(&mut bytes);
        value_if_read(read, u32_from_le_bytes(bytes))
    }

    /// Takes four bytes from the source and reads them as a `u32`, most significant byte first.
    fn read_be_u32(&mut self) -> (r: Result<u32, Self::Error>)
        ensures
            final(self).contents() == contents_after(old(self).contents(), 4),
            old(self).contents() matches Some(held) ==> (r is Ok <==> 4 <= held.len()),
            old(self).contents() matches Some(held) ==> (r matches Ok(v) ==> {
                v as nat == be_value(held.take(4))
            }),
    {
        let mut bytes = [0u8; 4];
        let read = self.read_exact(&mut bytes);
        value_if_read(read, u32_from_be_bytes(bytes))
    }
}

impl<R: ByteSource> ReadU32 for R {}

/// Reads a `u64` from a source of bytes.
pub trait ReadU64: ByteSource {
    /// Takes eight bytes from the source and reads them as a `u64`, in the machine's own byte order.
    fn read_ne_u64(&mut self) -> (r: Result<u64, Self::Error>)
        ensures
            final(self).contents() == contents_after(old(self).contents(), 8),
            old(self).contents() matches Some(held) ==> (r is Ok <==> 8 <= held.len()),
            old(self).contents() matches Some(held) ==> (r matches Ok(v) ==> {
                v as nat == native_value(held.take(8))
            }),
    {
        let mut bytes = [0u8; 8];
        let read = self.read_exact(&mut bytes);
        value_if_read(read, u64_from_ne_bytes(bytes))
    }

    /// Takes eight bytes from the source and reads them as a `u64`, least significant byte first.
    fn read_le_u64(&mut self) -> (r: Result<u64, Self::Error>)
        ensures
            final(self).contents() == contents_after(old(self).contents(), 8),
            old(self).contents() matches Some(held) ==> (r is Ok <==> 8 <= held.len()),
            old(self).contents() matches Some(held) ==> (r matches Ok(v) ==> {
                v as nat == le_value(held.take(8))
            }),
    {
        let mut bytes = [0u8; 8];
        let read = self.read_exact(&mut bytes);
        value_if_read(read, u64_from_le_bytes(bytes))
    }

    /// Takes eight bytes from the source and reads them as a `u64`, most significant byte first.
    fn read_be_u64(&mut self) -> (r: Result<u64, Self::Error>)
        ensures
            final(self).contents() == contents_after(old(self).contents(), 8),
            old(self).contents() matches Some(held) ==> (r is Ok <==> 8 <= held.len()),
            old(self).contents() matches Some(held) ==> (r matches Ok(v) ==> {
                v as nat == be_value(held.take(8))
            }),
    {
        let mut bytes = [0u8; 8];
        let read = self.read_exact(&mut bytes);
        value_if_read(read, u64_from_be_bytes(bytes))
    }
}

impl<R: ByteSource> ReadU64 for R {}

/// Reads a `u128` from a source of bytes.
pub trait ReadU128: ByteSource {
    /// Takes sixteen bytes from the source and reads them as a `u128`, in the machine's own byte order.
    fn read_ne_u128(&mut self) -> (r: Result<u128, Self::Error>)
        ensures
            final(self).contents() == contents_after(old(self).contents(), 16),
            old(self).contents() matches Some(held) ==> (r is Ok <==> 16 <= held.len()),
            old(self).contents() matches Some(held) ==> (r matches Ok(v) ==> {
                v as nat == native_value(held.take(16))
            }),
    {
        let mut bytes = [0u8; 16];
        let read = self.read_exact(&mut bytes);
        value_if_read(read, u128_from_ne_bytes(bytes))
    }

    /// Takes sixteen bytes from the source and reads them as a `u128`, least significant byte first.
    fn read_le_u128(&mut self) -> (r: Result<u128, Self::Error>)
        ensures
            final(self).contents() == contents_after(old(self).contents(), 16),
            old(self).contents() matches Some(held) ==> (r is Ok <==> 16 <= held.len()),
            old(self).contents() matches Some(held) ==> (r matches Ok(v) ==> {
                v as nat == le_value(held.take(16))
            }),
    {
        let mut bytes = [0u8; 16];
        let read = self.read_exact(&mut bytes);
        value_if_read(read, u128_from_le_bytes(bytes))
    }

    /// Takes sixteen bytes from the source and reads them as a `u128`, most significant byte first.
    fn read_be_u128(&mut self) -> (r: Result<u128, Self::Error>)
        ensures
            final(self).contents() == contents_after(old(self).contents(), 16),
            old(self).contents() matches Some(held) ==> (r is Ok <==> 16 <= held.len()),
            old(self).contents() matches Some(held) ==> (r matches Ok(v) ==> {
                v as nat == be_value(held.take(16))
            }),
    {
        let mut bytes = [0u8; 16];
        let read = self.read_exact(&mut bytes);
        value_if_read(read, u128_from_be_bytes(bytes))
    }
}

impl<R: ByteSource> ReadU128 for R {}

/// Reads a `usize` from a source of bytes.
pub trait ReadUsize: ByteSource {
    /// Takes a machine word of bytes from the source and reads them as a `usize`,
    /// in the machine's own byte order.
    fn read_ne_usize(&mut self) -> (r: Result<usize, Self::Error>)
        ensures
            final(self).contents() == contents_after(old(self).contents(), WORD_BYTES as nat),
            old(self).contents() matches Some(held) ==> (r is Ok <==> WORD_BYTES <= held.len()),
            old(self).contents() matches Some(held) ==> (r matches Ok(v) ==> v as nat == native_value(
                held.take(WORD_BYTES as int),
            )),
    {
        proof {
            lemma_radix_word();
        }
        let mut room = [0u8; 8];
        let (bytes, _) = room.split_at_mut(WORD_BYTES);
        let read = self.read_exact(bytes);
        value_if_read(read, usize_from_ne_bytes(bytes))
    }

    /// Takes a machine word of bytes from the source and reads them as a `usize`,
    /// least significant byte first.
    fn read_le_usize(&mut self) -> (r: Result<usize, Self::Error>)
        ensures
            final(self).contents() == contents_after(old(self).contents(), WORD_BYTES as nat),
            old(self).contents() matches Some(held) ==> (r is Ok <==> WORD_BYTES <= held.len()),
            old(self).contents() matches Some(held) ==> (r matches Ok(v) ==> v as nat == le_value(
                held.take(WORD_BYTES as int),
            )),
    {
        proof {
            lemma_radix_word();
        }
        let mut room = [0u8; 8];
        let (bytes, _) = room.split_at_mut(WORD_BYTES);
        let read = self.read_exact(bytes);
        value_if_read(read, usize_from_le_bytes(bytes))
    }

    /// Takes a machine word of bytes from the source and reads them as a `usize`,
    /// most significant byte first.
    fn read_be_usize(&mut self) -> (r: Result<usize, Self::Error>)
        ensures
            final(self).contents() == contents_after(old(self).contents(), WORD_BYTES as nat),
            old(self).contents() matches Some(held) ==> (r is Ok <==> WORD_BYTES <= held.len()),
            old(self).contents() matches Some(held) ==> (r matches Ok(v) ==> v as nat == be_value(
                held.take(WORD_BYTES as int),
            )),
    {
        proof {
            lemma_radix_word();
        }
        let mut room = [0u8; 8];
        let (bytes, _) = room.split_at_mut(WORD_BYTES);
        let read = self.read_exact(bytes);
        value_if_read(read, usize_from_be_bytes(bytes))
    }
}

impl<R: ByteSource> ReadUsize for R {}

} // verus!
