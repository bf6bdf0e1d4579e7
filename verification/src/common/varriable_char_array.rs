//! Byte strings of any length shown as UTF-8 text without NUL padding.
use vstd::prelude::*;

use super::fixed_char_array::fixed_text;
use super::text::{decode_or_empty, remove_nul};
use vstd::string::StringSliceAdditionalSpecFns;

verus! {

#[derive(Debug, PartialEq, Eq, Clone)]
pub struct VarriableCharArray(pub Vec<u8>);

impl VarriableCharArray {
    /// The UTF-8 bytes of `value`.
    pub fn from(value: &str) -> (r: Self)
        ensures
            r.0@ == value.spec_bytes(),
    {
        VarriableCharArray(vstd::slice::slice_to_vec(value.as_bytes()))
    }

    /// The bytes as UTF-8 text without NUL characters (empty for invalid UTF-8).
    pub fn to_string(&self) -> (s: String)
        ensures
            s@ == fixed_text(self.0@),
    {
        let text = decode_or_empty(self.0.as_slice());
        remove_nul(text.as_str())
    }
}

} // verus!
