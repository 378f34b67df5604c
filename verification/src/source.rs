//! Where the bytes come from.

use vstd::prelude::*;

verus! {

/// What a source that held `held` holds after it was asked for `n` bytes: the
/// bytes behind the first `n`, or nothing where it held fewer than `n`.
pub open spec fn rest_after(held: Seq<u8>, n: nat) -> Seq<u8> {
    if n <= held.len() {
        held.skip(n as int)
    } else {
        Seq::empty()
    }
}

/// What is known of a source's contents after it was asked for `n` bytes.
pub open spec fn contents_after(contents: Option<Seq<u8>>, n: nat) -> Option<Seq<u8>> {
    match contents {
        Some(held) => Some(rest_after(held, n)),
        None => None,
    }
}

/// A sequence of bytes that is consumed from the front.
///
/// The decoders are built on `read_exact` alone. A source whose bytes are all
/// there before the first request says so through `contents`, and the
/// contracts then state each outcome exactly. Nothing is stated of the bytes
/// of a source that leaves `contents` as it is.
pub trait ByteSource {
    /// The failure that the source reports.
    type Error;

    /// The bytes that the source holds, in the order in which it yields them,
    /// where the source is nothing but those bytes; `None` where what it
    /// yields is not known in advance.
    open spec fn contents(&self) -> Option<Seq<u8>> {
        None
    }

    /// Fills `buf` with the next bytes of the source, or fails.
    ///
    /// A source of known contents succeeds exactly when it holds as many bytes
    /// as `buf` has room for. It then hands out its first bytes and keeps the
    /// rest. Where it holds fewer it fails and is left empty.
    fn read_exact(&mut self, buf: &mut [u8]) -> (r: Result<(), Self::Error>)
        ensures
            final(buf)@.len() == old(buf)@.len(),
            final(self).contents() == contents_after(old(self).contents(), old(buf)@.len()),
            old(self).contents() matches Some(held) ==> (r is Ok <==> old(buf)@.len() <= held.len()),
            old(self).contents() matches Some(held) ==> r is Ok ==> final(buf)@ == held.take(
                old(buf)@.len() as int,
            ),
    ;
}

/// The result of a decoder, from the outcome of its read and the value that its
/// buffer spells: the value where the read was met, and the failure of the
/// source, as it is, where it was not.
pub fn value_if_read<T, E>(read: Result<(), E>, value: T) -> (r: Result<T, E>)
    ensures
        read is Ok ==> r == Ok::<T, E>(value),
        read matches Err(e) ==> r == Err::<T, E>(e),
{
    match read {
        Ok(()) => Ok(value),
        Err(e) => Err(e),
    }
}

/// The failure of a source in memory: it ran out before the request was met.
#[derive(Clone, Copy, Debug, PartialEq, Eq)]
pub struct UnexpectedEof;

impl<'a> ByteSource for &'a [u8] {
    type Error = UnexpectedEof;

    open spec fn contents(&self) -> Option<Seq<u8>> {
        Some((*self)@)
    }

    fn read_exact(&mut self, buf: &mut [u8]) -> (r: Result<(), Self::Error>) {
        let n: usize = buf.len();
        if n > self.len() {
            let (_, nothing) = self.split_at(self.len());
            *self = nothing;
            return Err(UnexpectedEof);
        }
        let mut i: usize = 0;
        while i < n
            invariant
                i <= n,
                n == buf@.len(),
                n <= self@.len(),
                *self == *old(self),
                forall|k: int| 0 <= k < i ==> buf@[k] == self@[k],
            decreases n - i,
        {
            buf[i] = self[i];
            i += 1;
        }
        let (_, rest) = self.split_at(n);
        *self = rest;
        Ok(())
    }
}

} // verus!
