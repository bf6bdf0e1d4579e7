//! Tilesets (TIS), kept as their raw bytes.
use vstd::prelude::*;

use crate::model::Parseable;
use crate::Error;

verus! {

/// A tileset: the bytes of the file, borrowed.
#[derive(Debug, PartialEq)]
pub struct Tileset<'data> {
    pub data: &'data [u8],
}

impl<'data> Parseable<'data> for Tileset<'data> {}

impl<'data> Tileset<'data> {
    /// Reads a tileset: it is the bytes as they are. It never fails.
    pub fn try_from(value: &'data [u8]) -> (r: Result<Tileset<'data>, Error>)
        ensures
            r matches Ok(t) && t.data@ == value@,
    {
        Ok(Tileset { data: value })
    }

    /// Writes a tileset back: a copy of its bytes. It never fails.
    pub fn try_into(self) -> (r: Result<Vec<u8>, Error>)
        ensures
            r matches Ok(b) && b@ == self.data@,
    {
        Ok(vstd::slice::slice_to_vec(self.data))
    }
}

} // verus!
