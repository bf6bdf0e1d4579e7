//! Whole-text fields: text that runs to the end of a file or over a given length.
use vstd::prelude::*;

use super::binary::append_bytes;
use super::text::{decode_or_empty, utf8_or_empty, utf8_str};
use crate::Error;
use vstd::utf8::{decode_utf8, encode_utf8, valid_utf8};

verus! {

/// The bytes from `pos` to the end of `buf` (none when `pos` is past the end).
pub open spec fn rest(buf: Seq<u8>, pos: int) -> Seq<u8> {
    if pos < buf.len() { buf.subrange(pos, buf.len() as int) } else { Seq::empty() }
}

/// A copy of the bytes from `pos` to the end of `buf`.
pub fn rest_bytes(buf: &[u8], pos: u64) -> (v: Vec<u8>)
    ensures
        v@ == rest(buf@, pos as int),
{
    if pos < buf.len() as u64 {
        let s = vstd::slice::slice_subrange(buf, pos as usize, buf.len());
        vstd::slice::slice_to_vec(s)
    } else {
        let v: Vec<u8> = Vec::new();
        assert(v@ =~= Seq::<u8>::empty());
        v
    }
}

/// Appends the UTF-8 bytes of `contents`.
pub fn write_string(contents: &String, out: &mut Vec<u8>)
    ensures
        final(out)@ == old(out)@ + encode_utf8(contents@),
{
    append_bytes(out, contents.as_str().as_bytes());
}

/// The text from `pos` to the end of `buf`; empty when those bytes are not
/// valid UTF-8.
pub fn read_to_end(buf: &[u8], pos: usize) -> (s: String)
    ensures
        s@ == utf8_or_empty(rest(buf@, pos as int)),
{
    if pos < buf.len() {
        let tail = vstd::slice::slice_subrange(buf, pos, buf.len());
        decode_or_empty(tail)
    } else {
        let empty: [u8; 0] = [];
        decode_or_empty(empty.as_slice())
    }
}

/// The text of at most `limit` bytes from `pos`; an error when they are not
/// valid UTF-8.
pub fn read_string(buf: &[u8], pos: usize, limit: u64) -> (r: Result<String, Error>)
    ensures
        ({
            let taken = if rest(buf@, pos as int).len() <= limit {
                rest(buf@, pos as int)
            } else {
                rest(buf@, pos as int).subrange(0, limit as int)
            };
            &&& r is Ok <==> valid_utf8(taken)
            &&& r matches Ok(s) ==> s@ == decode_utf8(taken)
            &&& r matches Err(e) ==> e == Error::InvalidUtf8
        }),
{
    let len = buf.len();
    let end: usize = if pos >= len {
        len
    } else if (len - pos) as u64 <= limit {
        len
    } else {
        pos + limit as usize
    };
    let start: usize = if pos < len { pos } else { len };
    let taken = vstd::slice::slice_subrange(buf, start, end);
    proof {
        if pos < len && (len - pos) as u64 > limit {
            assert(taken@ =~= rest(buf@, pos as int).subrange(0, limit as int));
        } else {
            assert(taken@ =~= rest(buf@, pos as int));
        }
    }
    match utf8_str(taken) {
        Some(s) => Ok(s.to_owned()),
        None => Err(Error::InvalidUtf8),
    }
}

} // verus!
