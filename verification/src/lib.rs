//! Typed, byte-order-aware decoding of primitive values from any source of bytes.
//!
//! A source is anything that implements [`ByteSource`]. Every source gains one
//! trait per primitive type, and each trait reads a value of that type in
//! native, little-endian or big-endian byte order.

pub mod fold;
pub mod laws;
pub mod order;
pub mod read_signed;
pub mod read_unsigned;
pub mod scalar;
pub mod signed;
pub mod source;
pub mod unsigned;

pub use fold::native_is_little_endian;
pub use order::{be_bytes, be_value, le_bytes, le_value, native_bytes, native_value, radix};
pub use order::{signed_value, twos_complement};
pub use source::{contents_after, rest_after, value_if_read, ByteSource, UnexpectedEof};
pub use scalar::{bool_from_byte, char_from_ne_bytes, is_scalar_value, scalar_of, truth_of};
pub use scalar::{ReadBool, ReadChar, ReadU8};
pub use read_signed::{ReadI128, ReadI16, ReadI32, ReadI64, ReadIsize};
pub use read_unsigned::{ReadU128, ReadU16, ReadU32, ReadU64, ReadUsize};
