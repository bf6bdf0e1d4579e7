//! Fixed-size byte strings, NUL padded, as the formats store names and resrefs.
use vstd::prelude::*;

use super::binary::Codec;
use super::text::{latin1, latin1_string};
use vstd::string::StringSliceAdditionalSpecFns;

verus! {

broadcast use vstd::array::group_array_axioms;

#[derive(Debug, Clone, Copy, PartialEq, Eq, PartialOrd, Ord)]
pub struct CharArray<const N: usize>(pub [u8; N]);

/// The first `n` bytes of `b`, padded with zeros when `b` is shorter.
pub open spec fn padded(b: Seq<u8>, n: nat) -> Seq<u8> {
    Seq::new(n, |i: int| if i < b.len() { b[i] } else { 0u8 })
}

impl<const N: usize> CharArray<N> {
    /// Copies the first `N` bytes of `value`, zero-filling the rest.
    pub fn from_bytes(value: &[u8]) -> (r: Self)
        ensures
            r.0@ == padded(value@, N as nat),
    {
        let mut out = [0u8; N];
        let len = value.len();
        let mut i: usize = 0;
        while i < N && i < len
            invariant
                len == value@.len(),
                i <= N,
                i <= len,
                out@.len() == N,
                forall|j: int| 0 <= j < i ==> out@[j] == value@[j],
                forall|j: int| i <= j < N ==> out@[j] == 0u8,
            decreases N - i,
        {
            out[i] = value[i];
            i = i + 1;
        }
        assert forall|j: int| 0 <= j < N implies out@[j] == padded(value@, N as nat)[j] by {
            if j < i {
                assert(j < len);
                assert(out@[j] == value@[j]);
            } else {
                assert(i == len);
                assert(out@[j] == 0u8);
            }
        }
        assert(out@ =~= padded(value@, N as nat));
        CharArray(out)
    }

    /// Copies the first `N` bytes of the UTF-8 encoding of `value`.
    pub fn from_str(value: &str) -> (r: Self)
        ensures
            r.0@ == padded(value.spec_bytes(), N as nat),
    {
        Self::from_bytes(value.as_bytes())
    }

    /// Every byte shown as the character with the same code point.
    pub fn to_string(&self) -> (s: String)
        ensures
            s@ == latin1(self.0@),
    {
        latin1_string(&self.0)
    }
}

impl<const N: usize> Codec for CharArray<N> {
    open spec fn width() -> nat { N as nat }
    open spec fn enc(&self) -> Seq<u8> { self.0@ }
    open spec fn wf(&self) -> bool { true }
    open spec fn same(&self, other: &Self) -> bool { self.0@ == other.0@ }

    fn byte_width() -> (n: usize) { N }

    fn check_wf(&self) -> (b: bool) { true }

    proof fn lemma_enc_len(&self) {}

    proof fn lemma_enc_injective(&self, other: &Self) {}

    fn decode(buf: &[u8], pos: usize) -> (v: Self) {
        let mut out = [0u8; N];
        let n = buf.len();
        let mut i: usize = 0;
        while i < N
            invariant
                n == buf@.len(),
                pos + N <= buf@.len(),
                i <= N,
                out@.len() == N,
                forall|j: int| 0 <= j < i ==> out@[j] == buf@[pos + j],
            decreases N - i,
        {
            out[i] = buf[pos + i];
            i = i + 1;
        }
        assert(out@ =~= buf@.subrange(pos as int, pos + N));
        CharArray(out)
    }

    fn encode(&self, out: &mut Vec<u8>) {
        let mut i: usize = 0;
        while i < N
            invariant
                i <= N,
                out@ =~= old(out)@ + self.0@.take(i as int),
            decreases N - i,
        {
            out.push(self.0[i]);
            i = i + 1;
        }
        assert(self.0@.take(N as int) =~= self.0@);
    }
}

} // verus!
