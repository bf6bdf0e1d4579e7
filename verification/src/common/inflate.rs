//! Zlib decompression, as the compressed animations and saved files hold it.
use vstd::prelude::*;

verus! {

/// What reading the zlib stream `data` to its end gives: the bytes inflated
/// (all of them, or those before the first damage in the stream), and
/// whether the stream was read without error.
pub uninterp spec fn zlib_inflated(data: Seq<u8>) -> (Seq<u8>, bool);

/// Inflates the zlib stream `data` by reading a `flate2::bufread::ZlibDecoder`
/// over it to the end with `std::io::Read::read_to_end`, and tells whether
/// that read succeeded; on an error, what was inflated before it is kept.
/// The contract claims only that the result depends on `data` alone; what
/// zlib inflation computes is not stated.
#[verifier::external_body]
pub(crate) fn inflate(data: &[u8]) -> (r: (Vec<u8>, bool))
    ensures
        (r.0@, r.1) == zlib_inflated(data@),
{
    let mut decoder = flate2::bufread::ZlibDecoder::new(data);
    let mut out: Vec<u8> = Vec::new();
    let complete = std::io::Read::read_to_end(&mut decoder, &mut out).is_ok();
    (out, complete)
}

} // verus!
