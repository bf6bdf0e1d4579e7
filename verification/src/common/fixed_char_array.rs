//! NUL-padded byte strings of a fixed length shown as UTF-8 text.
use vstd::prelude::*;

use super::binary::Codec;
use super::char_array::padded;
use super::text::{decode_or_empty, remove_nul, strip_nul, utf8_or_empty};
use vstd::std_specs::convert::FromSpecImpl;
use vstd::string::StringSliceAdditionalSpecFns;

verus! {

broadcast use vstd::array::group_array_axioms;

#[derive(Debug, PartialEq, Eq, Copy, Clone)]
pub struct FixedCharSlice<const N: usize>(pub [u8; N]);

/// The text a fixed char slice shows: its bytes read as UTF-8 (nothing
/// when they are not valid UTF-8) without the NUL padding.
pub open spec fn fixed_text(bytes: Seq<u8>) -> Seq<char> {
    strip_nul(utf8_or_empty(bytes))
}

impl<const N: usize> FixedCharSlice<N> {
    /// The slice holding the first `N` bytes of `value`, zero-filled.
    pub open spec fn spec_from_bytes(value: Seq<u8>) -> Self {
        choose|s: Self| s.0@ == padded(value, N as nat)
    }

    pub fn from_bytes(value: &[u8]) -> (r: Self)
        ensures
            r.0@ == padded(value@, N as nat),
            r == Self::spec_from_bytes(value@),
    {
        let mut destination = [0u8; N];
        let len = value.len();
        let mut counter: usize = 0;
        while counter < len && counter < N
            invariant
                len == value@.len(),
                counter <= N,
                counter <= len,
                destination@.len() == N,
                forall|j: int| 0 <= j < counter ==> destination@[j] == value@[j],
                forall|j: int| counter <= j < N ==> destination@[j] == 0u8,
            decreases len - counter,
        {
            destination[counter] = value[counter];
            counter = counter + 1;
        }
        assert forall|j: int| 0 <= j < N implies destination@[j] == padded(value@, N as nat)[j] by {
            if j >= counter {
                assert(counter == len);
            }
        }
        assert(destination@ =~= padded(value@, N as nat));
        let r = FixedCharSlice(destination);
        proof {
            assert(r.0@ == padded(value@, N as nat));
            assert(exists|s: Self| #[trigger] s.0@ == padded(value@, N as nat));
            let c = Self::spec_from_bytes(value@);
            assert(c.0@ == padded(value@, N as nat));
            assert(c.0 =~= r.0);
        }
        r
    }

    /// The bytes as UTF-8 text without NUL characters (empty for invalid UTF-8).
    pub fn to_string(&self) -> (s: String)
        ensures
            s@ == fixed_text(self.0@),
    {
        let text = decode_or_empty(&self.0);
        remove_nul(text.as_str())
    }
}

impl<const N: usize> Default for FixedCharSlice<N> {
    fn default() -> (r: Self)
        ensures
            r.0@ == Seq::new(N as nat, |i: int| 0u8),
    {
        let r = FixedCharSlice([0u8; N]);
        assert(r.0@ =~= Seq::new(N as nat, |i: int| 0u8));
        r
    }
}

impl<'a, const N: usize> From<&'a [u8]> for FixedCharSlice<N> {
    fn from(value: &'a [u8]) -> (r: Self) {
        Self::from_bytes(value)
    }
}

impl<'a, const N: usize> FromSpecImpl<&'a [u8]> for FixedCharSlice<N> {
    open spec fn obeys_from_spec() -> bool {
        true
    }

    open spec fn from_spec(value: &'a [u8]) -> Self {
        Self::spec_from_bytes(value@)
    }
}

impl<'a, const N: usize> From<&'a str> for FixedCharSlice<N> {
    fn from(value: &'a str) -> (r: Self) {
        Self::from_bytes(value.as_bytes())
    }
}

impl<'a, const N: usize> FromSpecImpl<&'a str> for FixedCharSlice<N> {
    open spec fn obeys_from_spec() -> bool {
        true
    }

    open spec fn from_spec(value: &'a str) -> Self {
        Self::spec_from_bytes(value.spec_bytes())
    }
}

impl<const N: usize> Codec for FixedCharSlice<N> {
    open spec fn width() -> nat { N as nat }
    open spec fn enc(&self) -> Seq<u8> { self.0@ }
    open spec fn wf(&self) -> bool { true }
    open spec fn same(&self, other: &Self) -> bool { self.0@ == other.0@ }

    fn byte_width() -> (n: usize) { N }

    fn check_wf(&self) -> (b: bool) { true }

    proof fn lemma_enc_len(&self) {}

    proof fn lemma_enc_injective(&self, other: &Self) {}

    fn decode(buf: &[u8], pos: usize) -> (v: Self) {
        let mut out = [0u8; N];
        let n = buf.len();
        let mut i: usize = 0;
        while i < N
            invariant
                n == buf@.len(),
                pos + N <= buf@.len(),
                i <= N,
                out@.len() == N,
                forall|j: int| 0 <= j < i ==> out@[j] == buf@[pos + j],
            decreases N - i,
        {
            out[i] = buf[pos + i];
            i = i + 1;
        }
        assert(out@ =~= buf@.subrange(pos as int, pos + N));
        FixedCharSlice(out)
    }

    fn encode(&self, out: &mut Vec<u8>) {
        let mut i: usize = 0;
        while i < N
            invariant
                i <= N,
                out@ =~= old(out)@ + self.0@.take(i as int),
            decreases N - i,
        {
            out.push(self.0[i]);
            i = i + 1;
        }
        assert(self.0@.take(N as int) =~= self.0@);
    }
}

} // verus!
