//! Identifier files (IDS), kept as their text.
use vstd::prelude::*;

use crate::common::text::utf8_str;
use crate::model::Parseable;
use crate::Error;
use vstd::string::StringSliceAdditionalSpecFns;
use vstd::utf8::{decode_utf8, valid_utf8};

verus! {

/// An identifier file: the bytes of the file, borrowed as text.
/// <https://gibberlings3.github.io/iesdp/file_formats/ie_formats/ids.htm>
#[derive(Debug, PartialEq)]
pub struct Ids<'data> {
    pub data: &'data str,
}

impl<'data> Parseable<'data> for Ids<'data> {}

impl<'data> Ids<'data> {
    /// Reads an identifier file: the bytes as text. Fails with
    /// `InvalidUtf8` when they are not valid UTF-8.
    pub fn try_from(value: &'data [u8]) -> (r: Result<Ids<'data>, Error>)
        ensures
            r is Ok <==> valid_utf8(value@),
            r matches Ok(ids) ==> ids.data@ == decode_utf8(value@),
            r matches Err(e) ==> e == Error::InvalidUtf8,
    {
        match utf8_str(value) {
            Some(data) => Ok(Ids { data }),
            None => Err(Error::InvalidUtf8),
        }
    }

    /// Writes an identifier file back: the UTF-8 bytes of its text. It never
    /// fails.
    pub fn try_into(self) -> (r: Result<Vec<u8>, Error>)
        ensures
            r matches Ok(b) && b@ == self.data.spec_bytes(),
    {
        Ok(vstd::slice::slice_to_vec(self.data.as_bytes()))
    }
}

} // verus!
