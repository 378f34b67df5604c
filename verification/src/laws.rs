//! What holds of the decoders as a whole, over the functions in which their
//! contracts are written.

use crate::order::{be_bytes, be_value, le_bytes, le_value, native_bytes, native_value, radix};
use crate::order::{lemma_be_is_reversed_le, lemma_be_value_bound, lemma_be_value_of_bytes};
use crate::order::{lemma_be_bytes_of_value, lemma_bytes_len, lemma_le_bytes_of_value};
use crate::order::{lemma_le_value_bound, lemma_le_value_injective};
use crate::order::{lemma_le_value_of_bytes, lemma_radix_widths, lemma_signed_value_injective};
use crate::order::{signed_value, twos_complement};
use crate::source::{contents_after, rest_after};
use crate::unsigned::{lemma_radix_word, WORD_BYTES};
use vstd::prelude::*;

verus! {

/// Round trip of a bit pattern. The `n` bytes that spell `v` in a byte order,
/// read in that byte order, give `v` back, whatever fits in `n` bytes.
pub proof fn unsigned_round_trip(v: nat, n: nat)
    requires
        v < radix(n),
    ensures
        le_bytes(v, n).len() == n,
        be_bytes(v, n).len() == n,
        native_bytes(v, n).len() == n,
        le_value(le_bytes(v, n)) == v,
        be_value(be_bytes(v, n)) == v,
        native_value(native_bytes(v, n)) == v,
{
    lemma_bytes_len(v, n);
    lemma_le_value_of_bytes(v, n);
    lemma_be_value_of_bytes(v, n);
}

/// Round trip of a run of bytes. The value that bytes spell in a byte order,
/// spelt again in that byte order with as many bytes, gives the bytes back: no
/// two runs of one length read as the same value.
pub proof fn bytes_round_trip(bytes: Seq<u8>)
    ensures
        le_bytes(le_value(bytes), bytes.len()) == bytes,
        be_bytes(be_value(bytes), bytes.len()) == bytes,
        native_bytes(native_value(bytes), bytes.len()) == bytes,
{
    lemma_le_bytes_of_value(bytes);
    lemma_be_bytes_of_value(bytes);
}

/// Round trip of a signed number. The `n` bytes that spell the two's
/// complement pattern of `v` in a byte order, read in that byte order as a
/// signed number, give `v` back, whatever the `n` bytes can hold.
pub proof fn signed_round_trip(v: int, n: nat)
    requires
        -radix(n) <= 2 * v < radix(n),
    ensures
        twos_complement(v, n) < radix(n),
        signed_value(le_value(le_bytes(twos_complement(v, n), n)), n) == v,
        signed_value(be_value(be_bytes(twos_complement(v, n), n)), n) == v,
        signed_value(native_value(native_bytes(twos_complement(v, n), n)), n) == v,
{
    unsigned_round_trip(twos_complement(v, n), n);
}

/// Round trip of a `u16`: every value of the type comes back from its bytes,
/// in each of the three byte orders.
pub proof fn u16_round_trip(v: u16)
    ensures
        le_value(le_bytes(v as nat, 2)) == v,
        be_value(be_bytes(v as nat, 2)) == v,
        native_value(native_bytes(v as nat, 2)) == v,
{
    lemma_radix_widths();
    unsigned_round_trip(v as nat, 2);
}

/// Round trip of a `u32`: every value of the type comes back from its bytes,
/// in each of the three byte orders.
pub proof fn u32_round_trip(v: u32)
    ensures
        le_value(le_bytes(v as nat, 4)) == v,
        be_value(be_bytes(v as nat, 4)) == v,
        native_value(native_bytes(v as nat, 4)) == v,
{
    lemma_radix_widths();
    unsigned_round_trip(v as nat, 4);
}

/// Round trip of a `u64`: every value of the type comes back from its bytes,
/// in each of the three byte orders.
pub proof fn u64_round_trip(v: u64)
    ensures
        le_value(le_bytes(v as nat, 8)) == v,
        be_value(be_bytes(v as nat, 8)) == v,
        native_value(native_bytes(v as nat, 8)) == v,
{
    lemma_radix_widths();
    unsigned_round_trip(v as nat, 8);
}

/// Round trip of a `u128`: every value of the type comes back from its bytes,
/// in each of the three byte orders.
pub proof fn u128_round_trip(v: u128)
    ensures
        le_value(le_bytes(v as nat, 16)) == v,
        be_value(be_bytes(v as nat, 16)) == v,
        native_value(native_bytes(v as nat, 16)) == v,
{
    lemma_radix_widths();
    unsigned_round_trip(v as nat, 16);
}

/// Round trip of a `usize`: every value of the type comes back from its bytes,
/// in each of the three byte orders.
pub proof fn usize_round_trip(v: usize)
    ensures
        le_value(le_bytes(v as nat, WORD_BYTES as nat)) == v,
        be_value(be_bytes(v as nat, WORD_BYTES as nat)) == v,
        native_value(native_bytes(v as nat, WORD_BYTES as nat)) == v,
{
    lemma_radix_word();
    unsigned_round_trip(v as nat, WORD_BYTES as nat);
}

/// Round trip of an `i16`: every value of the type comes back from its bytes,
/// in each of the three byte orders.
pub proof fn i16_round_trip(v: i16)
    ensures
        signed_value(le_value(le_bytes(twos_complement(v as int, 2), 2)), 2) == v,
        signed_value(be_value(be_bytes(twos_complement(v as int, 2), 2)), 2) == v,
        signed_value(native_value(native_bytes(twos_complement(v as int, 2), 2)), 2) == v,
{
    lemma_radix_widths();
    signed_round_trip(v as int, 2);
}

/// Round trip of an `i32`: every value of the type comes back from its bytes,
/// in each of the three byte orders.
pub proof fn i32_round_trip(v: i32)
    ensures
        signed_value(le_value(le_bytes(twos_complement(v as int, 4), 4)), 4) == v,
        signed_value(be_value(be_bytes(twos_complement(v as int, 4), 4)), 4) == v,
        signed_value(native_value(native_bytes(twos_complement(v as int, 4), 4)), 4) == v,
{
    lemma_radix_widths();
    signed_round_trip(v as int, 4);
}

/// Round trip of an `i64`: every value of the type comes back from its bytes,
/// in each of the three byte orders.
pub proof fn i64_round_trip(v: i64)
    ensures
        signed_value(le_value(le_bytes(twos_complement(v as int, 8), 8)), 8) == v,
        signed_value(be_value(be_bytes(twos_complement(v as int, 8), 8)), 8) == v,
        signed_value(native_value(native_bytes(twos_complement(v as int, 8), 8)), 8) == v,
{
    lemma_radix_widths();
    signed_round_trip(v as int, 8);
}

/// Round trip of an `i128`: every value of the type comes back from its bytes,
/// in each of the three byte orders.
pub proof fn i128_round_trip(v: i128)
    ensures
        signed_value(le_value(le_bytes(twos_complement(v as int, 16), 16)), 16) == v,
        signed_value(be_value(be_bytes(twos_complement(v as int, 16), 16)), 16) == v,
        signed_value(native_value(native_bytes(twos_complement(v as int, 16), 16)), 16) == v,
{
    lemma_radix_widths();
    signed_round_trip(v as int, 16);
}

/// Round trip of an `isize`: every value of the type comes back from its bytes,
/// in each of the three byte orders.
pub proof fn isize_round_trip(v: isize)
    ensures
        signed_value(le_value(le_bytes(twos_complement(v as int, WORD_BYTES as nat), WORD_BYTES as nat)), WORD_BYTES as nat) == v,
        signed_value(be_value(be_bytes(twos_complement(v as int, WORD_BYTES as nat), WORD_BYTES as nat)), WORD_BYTES as nat) == v,
        signed_value(native_value(native_bytes(twos_complement(v as int, WORD_BYTES as nat), WORD_BYTES as nat)), WORD_BYTES as nat) == v,
{
    lemma_radix_word();
    signed_round_trip(v as int, WORD_BYTES as nat);
}

/// Exactness of consumption. A request for `n` bytes is met exactly when the
/// source holds `n` bytes or more. A source that holds exactly `n` is left
/// with nothing, one that holds more keeps what lies behind the first `n`, and
/// one that holds fewer, such as `n - 1`, is not able to meet the request.
pub proof fn exact_consumption(held: Seq<u8>, n: nat)
    ensures
        contents_after(Some(held), n) == Some(rest_after(held, n)),
        held.len() == n ==> rest_after(held, n) == Seq::<u8>::empty(),
        held.len() >= n ==> held == held.take(n as int) + rest_after(held, n),
        held.len() >= n ==> rest_after(held, n).len() == held.len() - n,
        held.len() + 1 == n ==> !(n <= held.len()),
        held.len() < n ==> rest_after(held, n) == Seq::<u8>::empty(),
{
}

/// The two fixed byte orders mirror each other: reading bytes most significant
/// first is reading their reversal least significant first, and the other way
/// round.
pub proof fn orders_mirror(bytes: Seq<u8>)
    ensures
        be_value(bytes) == le_value(bytes.reverse()),
        le_value(bytes) == be_value(bytes.reverse()),
{
    lemma_be_is_reversed_le(bytes);
    lemma_be_is_reversed_le(bytes.reverse());
    assert(bytes.reverse().reverse() =~= bytes);
}

/// The two fixed byte orders tell apart: bytes that do not read the same
/// backwards have one value least significant first and another most
/// significant first, as an unsigned and as a signed number.
pub proof fn orders_differ(bytes: Seq<u8>)
    requires
        bytes != bytes.reverse(),
    ensures
        bytes.len() > 1,
        le_value(bytes) != be_value(bytes),
        signed_value(le_value(bytes), bytes.len()) != signed_value(be_value(bytes), bytes.len()),
{
    if bytes.len() <= 1 {
        assert(bytes.reverse() =~= bytes);
    }
    lemma_be_is_reversed_le(bytes);
    if le_value(bytes) == be_value(bytes) {
        lemma_le_value_injective(bytes, bytes.reverse());
    }
    lemma_le_value_bound(bytes);
    lemma_be_value_bound(bytes);
    if signed_value(le_value(bytes), bytes.len()) == signed_value(be_value(bytes), bytes.len()) {
        lemma_signed_value_injective(le_value(bytes), be_value(bytes), bytes.len());
    }
}

} // verus!
