//! NUL-padded strings of a fixed length held as signed bytes.
use vstd::prelude::*;

use super::binary::i8_bits;
use super::fixed_char_array::fixed_text;
use super::text::{decode_or_empty, remove_nul};
use vstd::std_specs::convert::FromSpecImpl;
use vstd::string::StringSliceAdditionalSpecFns;

verus! {

broadcast use vstd::array::group_array_axioms;

#[derive(Debug, PartialEq, Eq, Copy, Clone)]
pub struct SignedFixedCharSlice<const N: usize>(pub [i8; N]);

/// A byte read as a signed byte (two's complement).
pub open spec fn as_signed(b: u8) -> i8 {
    if b < 128 { b as i8 } else { (b - 256) as i8 }
}

/// The first `N` values of `value`, zero-filled.
pub open spec fn padded_signed(value: Seq<i8>, n: nat) -> Seq<i8> {
    Seq::new(n, |i: int| if i < value.len() { value[i] } else { 0i8 })
}

/// The bytes the signed values stand for.
pub open spec fn signed_bytes(value: Seq<i8>) -> Seq<u8> {
    Seq::new(value.len(), |i: int| i8_bits(value[i]))
}

impl<const N: usize> SignedFixedCharSlice<N> {
    pub open spec fn spec_from_signed(value: Seq<i8>) -> Self {
        choose|s: Self| s.0@ == padded_signed(value, N as nat)
    }

    /// Copies the first `N` values, zero-filling the rest.
    pub fn from_signed(value: &[i8]) -> (r: Self)
        ensures
            r.0@ == padded_signed(value@, N as nat),
            r == Self::spec_from_signed(value@),
    {
        let mut destination = [0i8; N];
        let len = value.len();
        let mut counter: usize = 0;
        while counter < len && counter < N
            invariant
                len == value@.len(),
                counter <= N,
                counter <= len,
                destination@.len() == N,
                forall|j: int| 0 <= j < counter ==> destination@[j] == value@[j],
                forall|j: int| counter <= j < N ==> destination@[j] == 0i8,
            decreases len - counter,
        {
            destination[counter] = value[counter];
            counter = counter + 1;
        }
        assert forall|j: int| 0 <= j < N implies destination@[j] == padded_signed(
            value@,
            N as nat,
        )[j] by {
            if j >= counter {
                assert(counter == len);
            }
        }
        assert(destination@ =~= padded_signed(value@, N as nat));
        let r = SignedFixedCharSlice(destination);
        proof {
            assert(r.0@ == padded_signed(value@, N as nat));
            assert(exists|s: Self| #[trigger] s.0@ == padded_signed(value@, N as nat));
            let c = Self::spec_from_signed(value@);
            assert(c.0 =~= r.0);
        }
        r
    }

    /// Signed values of the unsigned bytes: bytes of 128 and above, which
    /// have no signed value of their own, become zero.
    pub open spec fn spec_from_unsigned(value: Seq<u8>) -> Self {
        Self::spec_from_signed(Seq::new(value.len(), |i: int| if value[i] < 128 { value[i] as i8 } else { 0i8 }))
    }

    pub fn from_unsigned(value: &[u8]) -> (r: Self)
        ensures
            r == Self::spec_from_unsigned(value@),
    {
        let mut signed: Vec<i8> = Vec::new();
        let mut i: usize = 0;
        while i < value.len()
            invariant
                i <= value@.len(),
                signed@ =~= Seq::new(i as nat, |j: int| if value@[j] < 128 { value@[j] as i8 } else { 0i8 }),
            decreases value@.len() - i,
        {
            let b = value[i];
            signed.push(if b < 128 { b as i8 } else { 0i8 });
            i = i + 1;
        }
        Self::from_signed(signed.as_slice())
    }

    /// The UTF-8 bytes of the string read as signed bytes.
    pub open spec fn spec_from_text(value: Seq<u8>) -> Self {
        Self::spec_from_signed(Seq::new(value.len(), |i: int| as_signed(value[i])))
    }

    pub fn from_text(value: &str) -> (r: Self)
        ensures
            r == Self::spec_from_text(value.spec_bytes()),
    {
        let bytes = value.as_bytes();
        let mut signed: Vec<i8> = Vec::new();
        let mut i: usize = 0;
        while i < bytes.len()
            invariant
                i <= bytes@.len(),
                signed@ =~= Seq::new(i as nat, |j: int| as_signed(bytes@[j])),
            decreases bytes@.len() - i,
        {
            let b = bytes[i];
            signed.push(if b < 128 { b as i8 } else { (b as i16 - 256) as i8 });
            i = i + 1;
        }
        Self::from_signed(signed.as_slice())
    }

    /// The values read back as bytes, shown as UTF-8 text without NUL
    /// characters (empty for invalid UTF-8).
    pub fn to_string(&self) -> (s: String)
        ensures
            s@ == fixed_text(signed_bytes(self.0@)),
    {
        let mut bytes: Vec<u8> = Vec::new();
        let mut i: usize = 0;
        while i < N
            invariant
                i <= N,
                bytes@ =~= signed_bytes(self.0@.take(i as int)),
            decreases N - i,
        {
            let v = self.0[i];
            bytes.push(if v < 0 { (v as i16 + 256) as u8 } else { v as u8 });
            i = i + 1;
        }
        assert(self.0@.take(N as int) =~= self.0@);
        let text = decode_or_empty(bytes.as_slice());
        remove_nul(text.as_str())
    }
}

impl<const N: usize> Default for SignedFixedCharSlice<N> {
    fn default() -> (r: Self)
        ensures
            r.0@ == Seq::new(N as nat, |i: int| 0i8),
    {
        let r = SignedFixedCharSlice([0i8; N]);
        assert(r.0@ =~= Seq::new(N as nat, |i: int| 0i8));
        r
    }
}

impl<'a, const N: usize> From<&'a [i8]> for SignedFixedCharSlice<N> {
    fn from(value: &'a [i8]) -> (r: Self) {
        Self::from_signed(value)
    }
}

impl<'a, const N: usize> FromSpecImpl<&'a [i8]> for SignedFixedCharSlice<N> {
    open spec fn obeys_from_spec() -> bool {
        true
    }

    open spec fn from_spec(value: &'a [i8]) -> Self {
        Self::spec_from_signed(value@)
    }
}

impl<'a, const N: usize> From<&'a [u8]> for SignedFixedCharSlice<N> {
    fn from(value: &'a [u8]) -> (r: Self) {
        Self::from_unsigned(value)
    }
}

impl<'a, const N: usize> FromSpecImpl<&'a [u8]> for SignedFixedCharSlice<N> {
    open spec fn obeys_from_spec() -> bool {
        true
    }

    open spec fn from_spec(value: &'a [u8]) -> Self {
        Self::spec_from_unsigned(value@)
    }
}

impl<'a, const N: usize> From<&'a str> for SignedFixedCharSlice<N> {
    fn from(value: &'a str) -> (r: Self) {
        Self::from_text(value)
    }
}

impl<'a, const N: usize> FromSpecImpl<&'a str> for SignedFixedCharSlice<N> {
    open spec fn obeys_from_spec() -> bool {
        true
    }

    open spec fn from_spec(value: &'a str) -> Self {
        Self::spec_from_text(value.spec_bytes())
    }
}

} // verus!
