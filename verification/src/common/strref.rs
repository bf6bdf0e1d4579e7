//! Indices into the dialog.tlk string table.
use vstd::prelude::*;

use super::binary::Codec;

verus! {

/// A string reference: the index of an entry of the talk table.
#[derive(Debug, Clone, Copy, PartialEq, Eq, PartialOrd, Ord, Structural)]
pub struct Strref(pub u32);

impl Codec for Strref {
    open spec fn width() -> nat { 4 }
    open spec fn enc(&self) -> Seq<u8> { self.0.enc() }
    open spec fn wf(&self) -> bool { true }
    open spec fn same(&self, other: &Self) -> bool { self.0 == other.0 }

    fn byte_width() -> (n: usize) { 4 }

    fn check_wf(&self) -> (b: bool) { true }

    proof fn lemma_enc_len(&self) {}

    proof fn lemma_enc_injective(&self, other: &Self) {
        self.0.lemma_enc_injective(&other.0);
    }

    fn decode(buf: &[u8], pos: usize) -> (v: Self) {
        Strref(u32::decode(buf, pos))
    }

    fn encode(&self, out: &mut Vec<u8>) {
        self.0.encode(out);
    }
}

} // verus!
