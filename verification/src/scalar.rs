//! The three decoders with one fixed reading: a byte, a boolean and a Unicode
//! scalar value.

use crate::order::native_value;
use crate::source::{contents_after, value_if_read, ByteSource};
use crate::unsigned::u32_from_ne_bytes;
use vstd::prelude::*;

verus! {

/// Whether `code` is a Unicode scalar value: a code point that is no surrogate.
pub open spec fn is_scalar_value(code: nat) -> bool {
    code < 0xD800 || 0xE000 <= code <= 0x10FFFF
}

/// The character with the code `code`, where there is one.
pub open spec fn scalar_of(code: nat) -> Option<char> {
    if is_scalar_value(code) {
        Some(code as char)
    } else {
        None
    }
}

/// The logical value of a byte: zero is `false`, every other byte is `true`.
pub open spec fn truth_of(byte: u8) -> bool {
    byte != 0
}

/// `char::from_u32` of the standard library. Taken on trust: it gives the
/// character whose code is `i` where `i` is a Unicode scalar value, and `None`
/// for a surrogate and for anything above `0x10FFFF`.
pub assume_specification[ char::from_u32 ](i: u32) -> (r: Option<char>)
    ensures
        r == scalar_of(i as nat),
;

/// Reads a byte as a boolean.
pub fn bool_from_byte(byte: u8) -> (r: bool)
    ensures
        r == truth_of(byte),
{
    byte != 0
}

/// Reads four bytes, in the machine's own byte order, as the code of a character.
pub fn char_from_ne_bytes(bytes: [u8; 4]) -> (r: Option<char>)
    ensures
        r == scalar_of(native_value(bytes@)),
{
    char::from_u32(u32_from_ne_bytes(bytes))
}

/// Reads a `u8` from a source of bytes.
pub trait ReadU8: ByteSource {
    /// Takes one byte from the source and returns it as it is.
    fn read_u8(&mut self) -> (r: Result<u8, Self::Error>)
        ensures
            final(self).contents() == contents_after(old(self).contents(), 1),
            old(self).contents() matches Some(held) ==> (r is Ok <==> 1 <= held.len()),
            old(self).contents() matches Some(held) ==> (r matches Ok(v) ==> v == held[0]),
    {
        let mut bytes = [0u8; 1];
        let read = self.read_exact(&mut bytes);
        value_if_read(read, bytes[0])
    }
}

impl<R: ByteSource> ReadU8 for R {}

/// Reads a `bool` from a source of bytes.
pub trait ReadBool: ByteSource {
    /// Takes one byte from the source: zero is `false`, every other byte is `true`.
    fn read_bool(&mut self) -> (r: Result<bool, Self::Error>)
        ensures
            final(self).contents() == contents_after(old(self).contents(), 1),
            old(self).contents() matches Some(held) ==> (r is Ok <==> 1 <= held.len()),
            old(self).contents() matches Some(held) ==> (r matches Ok(v) ==> v == truth_of(held[0])),
    {
        let mut bytes = [0u8; 1];
        let read = self.read_exact(&mut bytes);
        value_if_read(read, bool_from_byte(bytes[0]))
    }
}

impl<R: ByteSource> ReadBool for R {}

/// Reads a `char` from a source of bytes.
pub trait ReadChar: ByteSource {
    /// Takes four bytes from the source and reads them, in the machine's own
    /// byte order, as the code of a character. Four bytes that are no Unicode
    /// scalar value are no failure: the result is then `Ok(None)`.
    fn read_char(&mut self) -> (r: Result<Option<char>, Self::Error>)
        ensures
            final(self).contents() == contents_after(old(self).contents(), 4),
            old(self).contents() matches Some(held) ==> (r is Ok <==> 4 <= held.len()),
            old(self).contents() matches Some(held) ==> (r matches Ok(c) ==> c == scalar_of(
                native_value(held.take(4)),
            )),
    {
        let mut bytes = [0u8; 4];
        let read = self.read_exact(&mut bytes);
        value_if_read(read, char_from_ne_bytes(bytes))
    }
}

impl<R: ByteSource> ReadChar for R {}

} // verus!
