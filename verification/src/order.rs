//! What a run of bytes means as a number, in each byte order.
//!
//! Everything here is specification: the decoders state their results over
//! these functions, and the lemmas are what their proofs and the laws rest on.

use vstd::prelude::*;

verus! {

/// How many values `n` bytes can tell apart: 256 to the power `n`.
pub open spec fn radix(n: nat) -> nat
    decreases n,
{
    if n == 0 {
        1
    } else {
        256 * radix((n - 1) as nat)
    }
}

/// The number that `bytes` spell with the least significant byte first.
pub open spec fn le_value(bytes: Seq<u8>) -> nat
    decreases bytes.len(),
{
    if bytes.len() == 0 {
        0
    } else {
        bytes.first() as nat + 256 * le_value(bytes.drop_first())
    }
}

/// The number that `bytes` spell with the most significant byte first.
pub open spec fn be_value(bytes: Seq<u8>) -> nat
    decreases bytes.len(),
{
    if bytes.len() == 0 {
        0
    } else {
        256 * be_value(bytes.drop_last()) + bytes.last() as nat
    }
}

/// The number that `bytes` spell in the byte order of the machine that runs the code.
pub open spec fn native_value(bytes: Seq<u8>) -> nat {
    match vstd::endian::endianness() {
        vstd::endian::Endian::Little => le_value(bytes),
        vstd::endian::Endian::Big => be_value(bytes),
    }
}

/// The `n` bytes that spell `v` with the least significant byte first.
pub open spec fn le_bytes(v: nat, n: nat) -> Seq<u8>
    decreases n,
{
    if n == 0 {
        Seq::empty()
    } else {
        seq![(v % 256) as u8] + le_bytes(v / 256, (n - 1) as nat)
    }
}

/// The `n` bytes that spell `v` with the most significant byte first.
pub open spec fn be_bytes(v: nat, n: nat) -> Seq<u8>
    decreases n,
{
    if n == 0 {
        Seq::empty()
    } else {
        be_bytes(v / 256, (n - 1) as nat).push((v % 256) as u8)
    }
}

/// The `n` bytes that spell `v` in the byte order of the machine that runs the code.
pub open spec fn native_bytes(v: nat, n: nat) -> Seq<u8> {
    match vstd::endian::endianness() {
        vstd::endian::Endian::Little => le_bytes(v, n),
        vstd::endian::Endian::Big => be_bytes(v, n),
    }
}

/// The signed number that the `n`-byte pattern `v` stands for in two's complement.
pub open spec fn signed_value(v: nat, n: nat) -> int {
    if 2 * v < radix(n) {
        v as int
    } else {
        v - radix(n)
    }
}

/// The `n`-byte pattern that stands for the signed number `v` in two's complement.
pub open spec fn twos_complement(v: int, n: nat) -> nat {
    if v >= 0 {
        v as nat
    } else {
        (v + radix(n)) as nat
    }
}

/// `radix` at the widths of the integer types.
pub proof fn lemma_radix_widths()
    ensures
        radix(0) == 1,
        radix(1) == 0x100,
        radix(2) == 0x1_0000,
        radix(4) == 0x1_0000_0000,
        radix(8) == 0x1_0000_0000_0000_0000,
        radix(16) == 0x1_0000_0000_0000_0000_0000_0000_0000_0000,
{
    reveal_with_fuel(radix, 5);
    assert(radix(4) == 0x1_0000_0000);
    assert(radix(8) == 0x1_0000_0000 * radix(4));
    assert(radix(12) == 0x1_0000_0000 * radix(8));
    assert(radix(16) == 0x1_0000_0000 * radix(12));
}

/// `radix` never shrinks as the width grows, and is never zero.
pub proof fn lemma_radix_grows(a: nat, b: nat)
    requires
        a <= b,
    ensures
        1 <= radix(a) <= radix(b),
    decreases b,
{
    if a < b {
        lemma_radix_grows(a, (b - 1) as nat);
    } else if a > 0 {
        lemma_radix_grows((a - 1) as nat, (b - 1) as nat);
    }
}

/// A little-endian value fits in as many bytes as spell it.
pub proof fn lemma_le_value_bound(bytes: Seq<u8>)
    ensures
        le_value(bytes) < radix(bytes.len()),
    decreases bytes.len(),
{
    if bytes.len() > 0 {
        lemma_le_value_bound(bytes.drop_first());
    }
}

/// A big-endian value fits in as many bytes as spell it.
pub proof fn lemma_be_value_bound(bytes: Seq<u8>)
    ensures
        be_value(bytes) < radix(bytes.len()),
    decreases bytes.len(),
{
    if bytes.len() > 0 {
        lemma_be_value_bound(bytes.drop_last());
    }
}

/// A native-order value fits in as many bytes as spell it.
pub proof fn lemma_native_value_bound(bytes: Seq<u8>)
    ensures
        native_value(bytes) < radix(bytes.len()),
{
    lemma_le_value_bound(bytes);
    lemma_be_value_bound(bytes);
}

/// An encoding has the length that was asked for.
pub proof fn lemma_bytes_len(v: nat, n: nat)
    ensures
        le_bytes(v, n).len() == n,
        be_bytes(v, n).len() == n,
        native_bytes(v, n).len() == n,
    decreases n,
{
    if n > 0 {
        lemma_bytes_len(v / 256, (n - 1) as nat);
    }
}

/// Decoding the little-endian encoding of a value that fits gives the value back.
pub proof fn lemma_le_value_of_bytes(v: nat, n: nat)
    requires
        v < radix(n),
    ensures
        le_value(le_bytes(v, n)) == v,
    decreases n,
{
    if n > 0 {
        let tail = le_bytes(v / 256, (n - 1) as nat);
        lemma_bytes_len(v, n);
        lemma_le_value_of_bytes(v / 256, (n - 1) as nat);
        assert(le_bytes(v, n).drop_first() =~= tail);
    }
}

/// Decoding the big-endian encoding of a value that fits gives the value back.
pub proof fn lemma_be_value_of_bytes(v: nat, n: nat)
    requires
        v < radix(n),
    ensures
        be_value(be_bytes(v, n)) == v,
    decreases n,
{
    if n > 0 {
        let front = be_bytes(v / 256, (n - 1) as nat);
        lemma_bytes_len(v, n);
        lemma_be_value_of_bytes(v / 256, (n - 1) as nat);
        assert(be_bytes(v, n).drop_last() =~= front);
    }
}

/// Encoding a little-endian value in as many bytes as spelt it gives those bytes back.
pub proof fn lemma_le_bytes_of_value(bytes: Seq<u8>)
    ensures
        le_bytes(le_value(bytes), bytes.len()) == bytes,
    decreases bytes.len(),
{
    if bytes.len() > 0 {
        lemma_le_bytes_of_value(bytes.drop_first());
        assert(seq![bytes.first()] + bytes.drop_first() =~= bytes);
    } else {
        assert(bytes =~= Seq::<u8>::empty());
    }
}

/// Encoding a big-endian value in as many bytes as spelt it gives those bytes back.
pub proof fn lemma_be_bytes_of_value(bytes: Seq<u8>)
    ensures
        be_bytes(be_value(bytes), bytes.len()) == bytes,
    decreases bytes.len(),
{
    if bytes.len() > 0 {
        lemma_be_bytes_of_value(bytes.drop_last());
        assert(bytes.drop_last().push(bytes.last()) =~= bytes);
    } else {
        assert(bytes =~= Seq::<u8>::empty());
    }
}

/// Reading bytes most significant first is reading their reversal least significant first.
pub proof fn lemma_be_is_reversed_le(bytes: Seq<u8>)
    ensures
        be_value(bytes) == le_value(bytes.reverse()),
    decreases bytes.len(),
{
    if bytes.len() > 0 {
        lemma_be_is_reversed_le(bytes.drop_last());
        assert(bytes.reverse().drop_first() =~= bytes.drop_last().reverse());
    }
}

/// Two runs of one length with the same little-endian value are the same run.
pub proof fn lemma_le_value_injective(a: Seq<u8>, b: Seq<u8>)
    requires
        a.len() == b.len(),
        le_value(a) == le_value(b),
    ensures
        a == b,
{
    lemma_le_bytes_of_value(a);
    lemma_le_bytes_of_value(b);
}

/// Two patterns of one width that stand for the same signed number are the same pattern.
pub proof fn lemma_signed_value_injective(a: nat, b: nat, n: nat)
    requires
        a < radix(n),
        b < radix(n),
        signed_value(a, n) == signed_value(b, n),
    ensures
        a == b,
{
}

} // verus!
