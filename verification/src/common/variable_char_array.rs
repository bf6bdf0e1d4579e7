//! Byte strings of any length shown as UTF-8 text.
use vstd::prelude::*;

use super::text::{decode_or_empty, utf8_or_empty};
use vstd::string::StringSliceAdditionalSpecFns;

verus! {

#[derive(Debug, PartialEq, Eq, PartialOrd, Ord, Clone)]
pub struct VariableCharArray(pub Vec<u8>);

impl VariableCharArray {
    /// The UTF-8 bytes of `value`.
    pub fn from(value: &str) -> (r: Self)
        ensures
            r.0@ == value.spec_bytes(),
    {
        VariableCharArray(vstd::slice::slice_to_vec(value.as_bytes()))
    }

    /// The bytes as UTF-8 text (empty for invalid UTF-8).
    pub fn to_string(&self) -> (s: String)
        ensures
            s@ == utf8_or_empty(self.0@),
    {
        decode_or_empty(self.0.as_slice())
    }
}

} // verus!
