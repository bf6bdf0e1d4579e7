//! Borrowed text read straight out of a file's bytes.
use vstd::prelude::*;

use super::text::utf8_str;
use vstd::utf8::{decode_utf8, valid_utf8};

verus! {

#[derive(Debug, PartialEq, Eq, PartialOrd, Ord)]
pub struct IEString<'a>(pub &'a str);

impl<'a> IEString<'a> {
    /// The text that the UTF-8 bytes `value` encode.
    pub fn from(value: &'a [u8]) -> (r: Self)
        requires
            valid_utf8(value@),
        ensures
            r.0@ == decode_utf8(value@),
    {
        match utf8_str(value) {
            Some(s) => IEString(s),
            None => IEString(""),
        }
    }
}

} // verus!
