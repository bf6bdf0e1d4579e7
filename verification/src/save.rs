//! Saved games (SAV V1.0): a signature and version, then compressed files.
use vstd::prelude::*;

use crate::common::binary::{append_bytes, Codec};
use crate::common::inflate::{inflate, zlib_inflated};
use crate::common::parsers::write_string;
use crate::common::ZeroCharArray;
use crate::model::Parseable;
use crate::Error;
use vstd::utf8::encode_utf8;

verus! {

/// A saved game: its signature and version, and the files it holds.
/// <https://gibberlings3.github.io/iesdp/file_formats/ie_formats/sav_v1.htm>
#[derive(Debug)]
pub struct Save {
    pub signature: ZeroCharArray,
    pub version: ZeroCharArray,
    pub files: Vec<SavedFile>,
}

impl<'data> Parseable<'data> for Save {}

/// A file held in a saved game.
/// <https://gibberlings3.github.io/iesdp/file_formats/ie_formats/sav_v1.htm#savv1_File>
#[derive(Debug, Clone, PartialEq)]
pub struct SavedFile {
    pub length_of_filename: u32,
    pub filename: String,
    pub uncompressed_data_length: u32,
    pub compressed_data_length: u32,
    pub compressed_data: Vec<u8>,
}

impl SavedFile {
    /// The bytes a file is written as: its fields in order, the name as its
    /// UTF-8 bytes and the data as it is.
    pub open spec fn spec_bytes(&self) -> Seq<u8> {
        self.length_of_filename.enc() + encode_utf8(self.filename@) + self.uncompressed_data_length.enc()
            + self.compressed_data_length.enc() + self.compressed_data@
    }

    /// Appends the file's bytes.
    pub fn write_to(&self, out: &mut Vec<u8>)
        ensures
            final(out)@ == old(out)@ + self.spec_bytes(),
    {
        let ghost start = out@;
        self.length_of_filename.encode(out);
        write_string(&self.filename, out);
        self.uncompressed_data_length.encode(out);
        self.compressed_data_length.encode(out);
        append_bytes(out, self.compressed_data.as_slice());
        assert(out@ =~= start + self.spec_bytes());
    }

    /// What decompressing gives once the zlib stream has been read: the
    /// inflated bytes when the whole stream was read, a `Decompress` error
    /// otherwise.
    pub fn inflated_result(inflated: Vec<u8>, complete: bool) -> (r: Result<Vec<u8>, Error>)
        ensures
            complete ==> (r matches Ok(b) && b@ == inflated@),
            !complete ==> r == Err::<Vec<u8>, Error>(Error::Decompress),
    {
        if complete {
            Ok(inflated)
        } else {
            Err(Error::Decompress)
        }
    }

    /// Inflates the compressed data.
    pub fn decompress(&self) -> (r: Result<Vec<u8>, Error>)
        ensures
            zlib_inflated(self.compressed_data@).1 ==> (r matches Ok(b) && b@ == zlib_inflated(self.compressed_data@).0),
            !zlib_inflated(self.compressed_data@).1 ==> r == Err::<Vec<u8>, Error>(Error::Decompress),
    {
        let (inflated, complete) = inflate(self.compressed_data.as_slice());
        SavedFile::inflated_result(inflated, complete)
    }
}

impl Save {
    /// Reads a saved game: the signature is the first four bytes and the
    /// version the next four; the files are not read. Fails with
    /// `WrongTagLength` when either is cut short.
    pub fn try_from(value: &[u8]) -> (r: Result<Save, Error>)
        ensures
            r is Ok <==> value@.len() >= 8,
            r matches Err(e) ==> e == Error::WrongTagLength,
            r matches Ok(s) ==> {
                &&& s.signature.0@ == value@.subrange(0, 4)
                &&& s.version.0@ == value@.subrange(4, 8)
                &&& s.files@.len() == 0
            },
    {
        if value.len() < 8 {
            return Err(Error::WrongTagLength);
        }
        let signature = <ZeroCharArray as Codec>::decode(value, 0);
        let version = <ZeroCharArray as Codec>::decode(value, 4);
        Ok(Save { signature, version, files: Vec::new() })
    }

    /// The bytes of the files, one after another.
    pub open spec fn files_bytes(files: Seq<SavedFile>) -> Seq<u8>
        decreases files.len(),
    {
        if files.len() == 0 {
            Seq::empty()
        } else {
            Save::files_bytes(files.drop_last()) + files.last().spec_bytes()
        }
    }

    /// Writes a saved game back: the signature, the version, then every
    /// file. It never fails.
    pub fn try_into(self) -> (r: Result<Vec<u8>, Error>)
        ensures
            r matches Ok(b) && b@ == self.signature.0@ + self.version.0@ + Save::files_bytes(self.files@),
    {
        let mut out: Vec<u8> = Vec::new();
        append_bytes(&mut out, self.signature.0.as_slice());
        append_bytes(&mut out, self.version.0.as_slice());
        let ghost head = out@;
        let mut i: usize = 0;
        while i < self.files.len()
            invariant
                i <= self.files@.len(),
                out@ == head + Save::files_bytes(self.files@.take(i as int)),
            decreases self.files@.len() - i,
        {
            self.files[i].write_to(&mut out);
            proof {
                let t = self.files@.take(i + 1);
                assert(t.drop_last() =~= self.files@.take(i as int));
                assert(t.last() == self.files@[i as int]);
            }
            i = i + 1;
        }
        assert(self.files@.take(self.files@.len() as int) =~= self.files@);
        assert(head =~= self.signature.0@ + self.version.0@);
        Ok(out)
    }
}

} // verus!
