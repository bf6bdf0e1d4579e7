//! Resource names held as a byte vector.
use vstd::prelude::*;

use super::text::{latin1, latin1_string};
use vstd::utf8::encode_utf8;

verus! {

#[derive(Debug, PartialEq, Eq, PartialOrd, Ord, Clone)]
pub struct Resref(pub Vec<u8>);

impl Resref {
    /// The UTF-8 bytes of `value`.
    pub fn from(value: String) -> (r: Self)
        ensures
            r.0@ == encode_utf8(value@),
    {
        Resref(vstd::slice::slice_to_vec(value.as_str().as_bytes()))
    }

    /// Every byte shown as the character with the same code point.
    pub fn to_string(&self) -> (s: String)
        ensures
            s@ == latin1(self.0@),
    {
        latin1_string(self.0.as_slice())
    }
}

} // verus!
