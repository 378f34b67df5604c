//! Reading signed integers from a source of bytes: one trait for each type, one
//! method for each byte order.

use crate::order::{be_value, le_value, native_value, signed_value};
use crate::source::{contents_after, value_if_read, ByteSource};
use crate::signed::{i16_from_be_bytes, i16_from_le_bytes, i16_from_ne_bytes};
use crate::signed::{i32_from_be_bytes, i32_from_le_bytes, i32_from_ne_bytes};
use crate::signed::{i64_from_be_bytes, i64_from_le_bytes, i64_from_ne_bytes};
use crate::signed::{i128_from_be_bytes, i128_from_le_bytes, i128_from_ne_bytes};
use crate::signed::{isize_from_be_bytes, isize_from_le_bytes, isize_from_ne_bytes};
use crate::unsigned::{lemma_radix_word, WORD_BYTES};
use vstd::prelude::*;

verus! {

/// Reads an `i16` from a source of bytes.
pub trait ReadI16: ByteSource {
    /// Takes two bytes from the source and reads them as an `i16`, in the machine's own byte order.
    fn read_ne_i16(&mut self) -> (r: Result<i16, Self::Error>)
        ensures
            final(self).contents() == contents_after(old(self).contents(), 2),
            old(self).contents() matches Some(held) ==> (r is Ok <==> 2 <= held.len()),
            old(self).contents() matches Some(held) ==> (r matches Ok(v) ==> {
                v as int == signed_value(native_value(held.take(2)), 2)
            }),
    {
        let mut bytes = [0u8; 2];
        let read = self.read_exact(&mut bytes);
        value_if_read(read, i16_from_ne_bytes(bytes))
    }

    /// Takes two bytes from the source and reads them as an `i16`, least significant byte first.
    fn read_le_i16(&mut self) -> (r: Result<i16, Self::Error>)
        ensures
            final(self).contents() == contents_after(old(self).contents(), 2),
            old(self).contents() matches Some(held) ==> (r is Ok <==> 2 <= held.len()),
            old(self).contents() matches Some(held) ==> (r matches Ok(v) ==> {
                v as int == signed_value(le_value(held.take(2)), 2)
            }),
    {
        let mut bytes = [0u8; 2];
        let read = self.read_exact(&mut bytes);
        value_if_read(read, i16_from_le_bytes(bytes))
    }

    /// Takes two bytes from the source and reads them as an `i16`, most significant byte first.
    fn read_be_i16(&mut self) -> (r: Result<i16, Self::Error>)
        ensures
            final(self).contents() == contents_after(old(self).contents(), 2),
            old(self).contents() matches Some(held) ==> (r is Ok <==> 2 <= held.len()),
            old(self).contents() matches Some(held) ==> (r matches Ok(v) ==> {
                v as int == signed_value(be_value(held.take(2)), 2)
            }),
    {
        let mut bytes = [0u8; 2];
        let read = self.read_exact(&mut bytes);
        value_if_read(read, i16_from_be_bytes(bytes))
    }
}

impl<R: ByteSource> ReadI16 for R {}

/// Reads an `i32` from a source of bytes.
pub trait ReadI32: ByteSource {
    /// Takes four bytes from the source and reads them as an `i32`, in the machine's own byte order.
    fn read_ne_i32(&mut self) -> (r: Result<i32, Self::Error>)
        ensures
            final(self).contents() == contents_after(old(self).contents(), 4),
            old(self).contents() matches Some(held) ==> (r is Ok <==> 4 <= held.len()),
            old(self).contents() matches Some(held) ==> (r matches Ok(v) ==> {
                v as int == signed_value(native_value(held.take(4)), 4)
            }),
    {
        let mut bytes = [0u8; 4];
        let read = self.read_exact(&mut bytes);
        value_if_read(read, i32_from_ne_bytes(bytes))
    }

    /// Takes four bytes from the source and reads them as an `i32`, least significant byte first.
    fn read_le_i32(&mut self) -> (r: Result<i32, Self::Error>)
        ensures
            final(self).contents() == contents_after(old(self).contents(), 4),
            old(self).contents() matches Some(held) ==> (r is Ok <==> 4 <= held.len()),
            old(self).contents() matches Some(held) ==> (r matches Ok(v) ==> {
                v as int == signed_value(le_value(held.take(4)), 4)
            }),
    {
        let mut bytes = [0u8; 4];
        let read = self.read_exact(&mut bytes);
        value_if_read(read, i32_from_le_bytes(bytes))
    }

    /// Takes four bytes from the source and reads them as an `i32`, most significant byte first.
    fn read_be_i32(&mut self) -> (r: Result<i32, Self::Error>)
        ensures
            final(self).contents() == contents_after(old(self).contents(), 4),
            old(self).contents() matches Some(held) ==> (r is Ok <==> 4 <= held.len()),
            old(self).contents() matches Some(held) ==> (r matches Ok(v) ==> {
                v as int == signed_value(be_value(held.take(4)), 4)
            }),
    {
        let mut bytes = [0u8; 4];
        let read = self.read_exact(&mut bytes);
        value_if_read(read, i32_from_be_bytes(bytes))
    }
}

impl<R: ByteSource> ReadI32 for R {}

/// Reads an `i64` from a source of bytes.
pub trait ReadI64: ByteSource {
    /// Takes eight bytes from the source and reads them as an `i64`, in the machine's own byte order.
    fn read_ne_i64(&mut self) -> (r: Result<i64, Self::Error>)
        ensures
            final(self).contents() == contents_after(old(self).contents(), 8),
            old(self).contents() matches Some(held) ==> (r is Ok <==> 8 <= held.len()),
            old(self).contents() matches Some(held) ==> (r matches Ok(v) ==> {
                v as int == signed_value(native_value(held.take(8)), 8)
            }),
    {
        let mut bytes = [0u8; 8];
        let read = self.read_exact(&mut bytes);
        value_if_read(read, i64_from_ne_bytes(bytes))
    }

    /// Takes eight bytes from the source and reads them as an `i64`, least significant byte first.
    fn read_le_i64(&mut self) -> (r: Result<i64, Self::Error>)
        ensures
            final(self).contents() == contents_after(old(self).contents(), 8),
            old(self).contents() matches Some(held) ==> (r is Ok <==> 8 <= held.len()),
            old(self).contents() matches Some(held) ==> (r matches Ok(v) ==> {
                v as int == signed_value(le_value(held.take(8)), 8)
            }),
    {
        let mut bytes = [0u8; 8];
        let read = self.read_exact(&mut bytes);
        value_if_read(read, i64_from_le_bytes(bytes))
    }

    /// Takes eight bytes from the source and reads them as an `i64`, most significant byte first.
    fn read_be_i64(&mut self) -> (r: Result<i64, Self::Error>)
        ensures
            final(self).contents() == contents_after(old(self).contents(), 8),
            old(self).contents() matches Some(held) ==> (r is Ok <==> 8 <= held.len()),
            old(self).contents() matches Some(held) ==> (r matches Ok(v) ==> {
                v as int == signed_value(be_value(held.take(8)), 8)
            }),
    {
        let mut bytes = [0u8; 8];
        let read = self.read_exact(&mut bytes);
        value_if_read(read, i64_from_be_bytes(bytes))
    }
}

impl<R: ByteSource> ReadI64 for R {}

/// Reads an `i128` from a source of bytes.
pub trait ReadI128: ByteSource {
    /// Takes sixteen bytes from the source and reads them as an `i128`, in the machine's own byte order.
    fn read_ne_i128(&mut self) -> (r: Result<i128, Self::Error>)
        ensures
            final(self).contents() == contents_after(old(self).contents(), 16),
            old(self).contents() matches Some(held) ==> (r is Ok <==> 16 <= held.len()),
            old(self).contents() matches Some(held) ==> (r matches Ok(v) ==> {
                v as int == signed_value(native_value(held.take(16)), 16)
            }),
    {
        let mut bytes = [0u8; 16];
        let read = self.read_exact(&mut bytes);
        value_if_read(read, i128_from_ne_bytes(bytes))
    }

    /// Takes sixteen bytes from the source and reads them as an `i128`, least significant byte first.
    fn read_le_i128(&mut self) -> (r: Result<i128, Self::Error>)
        ensures
            final(self).contents() == contents_after(old(self).contents(), 16),
            old(self).contents() matches Some(held) ==> (r is Ok <==> 16 <= held.len()),
            old(self).contents() matches Some(held) ==> (r matches Ok(v) ==> {
                v as int == signed_value(le_value(held.take(16)), 16)
            }),
    {
        let mut bytes = [0u8; 16];
        let read = self.read_exact(&mut bytes);
        value_if_read(read, i128_from_le_bytes(bytes))
    }

    /// Takes sixteen bytes from the source and reads them as an `i128`, most significant byte first.
    fn read_be_i128(&mut self) -> (r: Result<i128, Self::Error>)
        ensures
            final(self).contents() == contents_after(old(self).contents(), 16),
            old(self).contents() matches Some(held) ==> (r is Ok <==> 16 <= held.len()),
            old(self).contents() matches Some(held) ==> (r matches Ok(v) ==> {
                v as int == signed_value(be_value(held.take(16)), 16)
            }),
    {
        let mut bytes = [0u8; 16];
        let read = self.read_exact(&mut bytes);
        value_if_read(read, i128_from_be_bytes(bytes))
    }
}

impl<R: ByteSource> ReadI128 for R {}

/// Reads an `isize` from a source of bytes.
pub trait ReadIsize: ByteSource {
    /// Takes a machine word of bytes from the source and reads them as an `isize`,
    /// in the machine's own byte order.
    fn read_ne_isize(&mut self) -> (r: Result<isize, Self::Error>)
        ensures
            final(self).contents() == contents_after(old(self).contents(), WORD_BYTES as nat),
            old(self).contents() matches Some(held) ==> (r is Ok <==> WORD_BYTES <= held.len()),
            old(self).contents() matches Some(held) ==> (r matches Ok(v) ==> v as int == signed_value(
                native_value(held.take(WORD_BYTES as int)),
                WORD_BYTES as nat,
            )),
    {
        proof {
            lemma_radix_word();
        }
        let mut room = [0u8; 8];
        let (bytes, _) = room.split_at_mut(WORD_BYTES);
        let read = self.read_exact(bytes);
        value_if_read(read, isize_from_ne_bytes(bytes))
    }

    /// Takes a machine word of bytes from the source and reads them as an `isize`,
    /// least significant byte first.
    fn read_le_isize(&mut self) -> (r: Result<isize, Self::Error>)
        ensures
            final(self).contents() == contents_after(old(self).contents(), WORD_BYTES as nat),
            old(self).contents() matches Some(held) ==> (r is Ok <==> WORD_BYTES <= held.len()),
            old(self).contents() matches Some(held) ==> (r matches Ok(v) ==> v as int == signed_value(
                le_value(held.take(WORD_BYTES as int)),
                WORD_BYTES as nat,
            )),
    {
        proof {
            lemma_radix_word();
        }
        let mut room = [0u8; 8];
        let (bytes, _) = room.split_at_mut(WORD_BYTES);
        let read = self.read_exact(bytes);
        value_if_read(read, isize_from_le_bytes(bytes))
    }

    /// Takes a machine word of bytes from the source and reads them as an `isize`,
    /// most significant byte first.
    fn read_be_isize(&mut self) -> (r: Result<isize, Self::Error>)
        ensures
            final(self).contents() == contents_after(old(self).contents(), WORD_BYTES as nat),
            old(self).contents() matches Some(held) ==> (r is Ok <==> WORD_BYTES <= held.len()),
            old(self).contents() matches Some(held) ==> (r matches Ok(v) ==> v as int == signed_value(
                be_value(held.take(WORD_BYTES as int)),
                WORD_BYTES as nat,
            )),
    {
        proof {
            lemma_radix_word();
        }
        let mut room = [0u8; 8];
        let (bytes, _) = room.split_at_mut(WORD_BYTES);
        let read = self.read_exact(bytes);
        value_if_read(read, isize_from_be_bytes(bytes))
    }
}

impl<R: ByteSource> ReadIsize for R {}

} // verus!
