//! Folding a short run of bytes into one number, in each byte order.

use crate::order::{be_value, le_value, native_value};
use crate::order::{lemma_be_value_bound, lemma_le_value_bound, lemma_radix_grows, lemma_radix_widths};
use vstd::prelude::*;

verus! {

/// `u16::from_ne_bytes`, the standard library's reading of two bytes in the
/// machine's own byte order. Taken on trust: the result is the little-endian
/// value of the two bytes on a little-endian machine and their big-endian
/// value on a big-endian one.
#[verifier::external_body]
fn native_pair(bytes: [u8; 2]) -> (r: u16)
    ensures
        r as nat == native_value(bytes@),
{
    u16::from_ne_bytes(bytes)
}

/// Whether the machine that runs the code stores the least significant byte first.
pub fn native_is_little_endian() -> (r: bool)
    ensures
        r <==> vstd::endian::endianness() is Little,
{
    let probe: [u8; 2] = [1, 0];
    proof {
        reveal_with_fuel(le_value, 3);
        reveal_with_fuel(be_value, 3);
        assert(probe@ =~= seq![1u8, 0u8]);
        assert(probe@.drop_first() =~= seq![0u8]);
        assert(probe@.drop_last() =~= seq![1u8]);
        assert(le_value(probe@) == 1);
        assert(be_value(probe@) == 256);
    }
    native_pair(probe) == 1
}

/// Folds up to sixteen bytes into a number, least significant byte first.
pub(crate) fn fold_le(bytes: &[u8]) -> (r: u128)
    requires
        bytes@.len() <= 16,
    ensures
        r == le_value(bytes@),
{
    let mut acc: u128 = 0;
    let mut i: usize = bytes.len();
    assert(bytes@.skip(i as int) =~= Seq::<u8>::empty());
    while i > 0
        invariant
            i <= bytes@.len() <= 16,
            acc == le_value(bytes@.skip(i as int)),
        decreases i,
    {
        i -= 1;
        proof {
            let tail = bytes@.skip(i as int);
            assert(tail.drop_first() =~= bytes@.skip(i + 1));
            lemma_le_value_bound(tail);
            lemma_radix_grows(tail.len(), 16);
            lemma_radix_widths();
        }
        acc = acc * 256 + bytes[i] as u128;
    }
    assert(bytes@.skip(0) =~= bytes@);
    acc
}

/// Folds up to sixteen bytes into a number, most significant byte first.
pub(crate) fn fold_be(bytes: &[u8]) -> (r: u128)
    requires
        bytes@.len() <= 16,
    ensures
        r == be_value(bytes@),
{
    let mut acc: u128 = 0;
    let mut i: usize = 0;
    assert(bytes@.take(0) =~= Seq::<u8>::empty());
    while i < bytes.len()
        invariant
            i <= bytes@.len() <= 16,
            acc == be_value(bytes@.take(i as int)),
        decreases bytes@.len() - i,
    {
        proof {
            let front = bytes@.take(i + 1);
            assert(front.drop_last() =~= bytes@.take(i as int));
            lemma_be_value_bound(front);
            lemma_radix_grows(front.len(), 16);
            lemma_radix_widths();
        }
        acc = acc * 256 + bytes[i] as u128;
        i += 1;
    }
    assert(bytes@.take(bytes@.len() as int) =~= bytes@);
    acc
}

/// Folds up to sixteen bytes into a number, in the machine's own byte order.
pub(crate) fn fold_ne(bytes: &[u8]) -> (r: u128)
    requires
        bytes@.len() <= 16,
    ensures
        r == native_value(bytes@),
{
    if native_is_little_endian() {
        fold_le(bytes)
    } else {
        fold_be(bytes)
    }
}

} // verus!
