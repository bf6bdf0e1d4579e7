//! The signature/version pair shared by the formats.
use vstd::prelude::*;

use crate::common::binary::{Codec, lemma_subrange_concat, lemma_concat_peel, encoded};
use crate::common::char_array::CharArray;

verus! {

/// The signature and version that open most of the formats.
#[derive(Debug, Clone, PartialEq)]
pub struct Header {
    pub signature: CharArray<4>,
    pub version: CharArray<4>,
}

impl Header {
    /// Encoding of the fields 0 to 1, in order.
    pub open spec fn bytes_0_2(&self) -> Seq<u8> {
        self.signature.enc() + self.version.enc()
    }
}

impl Codec for Header {
    open spec fn width() -> nat {
        8
    }

    open spec fn enc(&self) -> Seq<u8> {
        self.bytes_0_2()
    }

    open spec fn wf(&self) -> bool {
        true
    }

    open spec fn same(&self, other: &Self) -> bool {
        &&& self.signature.same(&other.signature)
        &&& self.version.same(&other.version)
    }

    fn byte_width() -> (n: usize) {
        8
    }

    fn check_wf(&self) -> (b: bool) {
        true
    }

    proof fn lemma_enc_len(&self) {
        self.signature.lemma_enc_len();
        self.version.lemma_enc_len();
    }

    proof fn lemma_enc_injective(&self, other: &Self) {
        self.signature.lemma_enc_len();
        self.version.lemma_enc_len();
        other.signature.lemma_enc_len();
        other.version.lemma_enc_len();
        lemma_concat_peel(self.signature.enc(), self.version.enc(), other.signature.enc(), other.version.enc());
        self.signature.lemma_enc_injective(&other.signature);
        self.version.lemma_enc_injective(&other.version);
    }

    fn decode(buf: &[u8], pos: usize) -> (v: Self) {
        let len = buf.len();
        let fld0 = <CharArray<4>>::decode(buf, pos + 0);
        let fld1 = <CharArray<4>>::decode(buf, pos + 4);
        let v = Header {
            signature: fld0,
            version: fld1,
        };
        proof {
            lemma_subrange_concat(buf@, pos + 0, pos + 4, pos + 8);
        }
        v
    }

    fn encode(&self, out: &mut Vec<u8>) {
        let mut b0 = encoded(&self.signature);
        let mut b1 = encoded(&self.version);
        b0.append(&mut b1);
        out.append(&mut b0);
    }
}

} // verus!
