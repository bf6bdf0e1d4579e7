//! Two-dimensional tables (2DA), kept as their text.
use vstd::prelude::*;

use crate::common::parsers::{read_to_end, rest};
use crate::common::text::utf8_or_empty;
use crate::model::Model;
use vstd::string::StringSliceAdditionalSpecFns;
use vstd::utf8::encode_utf8;

verus! {

/// A table: the whole file as text.
/// <https://gibberlings3.github.io/iesdp/file_formats/ie_formats/2da.htm>
#[derive(Debug)]
pub struct TwoDA {
    /// The file's text; empty when the file is not valid UTF-8.
    pub data: String,
}

impl Model for TwoDA {
    open spec fn spec_parses(buffer: Seq<u8>) -> bool {
        true
    }

    open spec fn parsed_from(&self, buffer: Seq<u8>) -> bool {
        self.data@ == utf8_or_empty(buffer)
    }

    open spec fn spec_writable(&self) -> bool {
        true
    }

    fn writable(&self) -> (b: bool) {
        true
    }

    open spec fn spec_bytes(&self) -> Seq<u8> {
        encode_utf8(self.data@)
    }

    fn parse(buffer: &[u8]) -> (r: Option<Self>) {
        assert(rest(buffer@, 0) =~= buffer@);
        Some(TwoDA { data: read_to_end(buffer, 0) })
    }

    fn to_bytes(&self) -> (b: Vec<u8>) {
        vstd::slice::slice_to_vec(self.data.as_str().as_bytes())
    }
}

} // verus!
