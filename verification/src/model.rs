//! The interface shared by the formats that are read from a whole file.
use vstd::prelude::*;

verus! {

/// A file format read from, and written back to, a byte buffer.
pub trait Model: Sized {
    /// The buffers that hold a readable file of this format.
    spec fn spec_parses(buffer: Seq<u8>) -> bool;

    /// `self` is what reading `buffer` gives.
    spec fn parsed_from(&self, buffer: Seq<u8>) -> bool;

    /// Writing `self` succeeds.
    spec fn spec_writable(&self) -> bool;

    /// The bytes that writing `self` gives.
    spec fn spec_bytes(&self) -> Seq<u8>;

    /// Whether writing `self` succeeds.
    fn writable(&self) -> (b: bool)
        ensures
            b == self.spec_writable(),
    ;

    /// Reads a file; nothing when the buffer does not hold one.
    fn parse(buffer: &[u8]) -> (r: Option<Self>)
        ensures
            r is Some <==> Self::spec_parses(buffer@),
            r matches Some(m) ==> m.parsed_from(buffer@),
    ;

    /// Reads a file that the buffer is known to hold.
    fn new(buffer: &[u8]) -> (m: Self)
        requires
            Self::spec_parses(buffer@),
        ensures
            m.parsed_from(buffer@),
    {
        Self::parse(buffer).unwrap()
    }

    /// Writes the file back out.
    fn to_bytes(&self) -> (b: Vec<u8>)
        requires
            self.spec_writable(),
        ensures
            b@ == self.spec_bytes(),
    ;
}

/// A format read from a borrowed buffer; its readers and writers are the
/// `try_from` and `try_into` functions of each type.
pub trait Parseable<'a> {}

} // verus!
