//! Building blocks shared by the file formats.
use vstd::prelude::*;

pub mod binary;
pub mod char_array;
pub mod fixed_char_array;
pub mod fixed_char_nd_array;
pub mod feature_block;
pub mod header;
pub mod ie_string;
pub mod inflate;
pub mod parsers;
pub mod resref;
pub mod signed_fixed_char_array;
pub mod string_table;
pub mod strref;
pub mod text;
pub mod types;
pub mod variable_char_array;
pub mod varriable_char_array;

use binary::Codec;
use char_array::CharArray;

verus! {

broadcast use vstd::array::group_array_axioms;

/// An eight character resource name.
pub type Resref = CharArray<8>;

/// A four byte signature or version tag, as the key, biff and save files hold them.
#[derive(Debug, Clone, Copy, PartialEq, Eq, PartialOrd, Ord)]
pub struct ZeroCharArray(pub [u8; 4]);

/// An eight byte resource name, as the key file holds them.
#[derive(Debug, Clone, Copy, PartialEq, Eq, PartialOrd, Ord)]
pub struct ZeroResref(pub [u8; 8]);

impl Codec for ZeroCharArray {
    open spec fn width() -> nat { 4 }
    open spec fn enc(&self) -> Seq<u8> { self.0@ }
    open spec fn wf(&self) -> bool { true }
    open spec fn same(&self, other: &Self) -> bool { self.0@ == other.0@ }

    fn byte_width() -> (n: usize) { 4 }

    fn check_wf(&self) -> (b: bool) { true }

    proof fn lemma_enc_len(&self) {}

    proof fn lemma_enc_injective(&self, other: &Self) {}

    fn decode(buf: &[u8], pos: usize) -> (v: Self) {
        let a = CharArray::<4>::decode(buf, pos);
        ZeroCharArray(a.0)
    }

    fn encode(&self, out: &mut Vec<u8>) {
        CharArray(self.0).encode(out);
    }
}

impl Codec for ZeroResref {
    open spec fn width() -> nat { 8 }
    open spec fn enc(&self) -> Seq<u8> { self.0@ }
    open spec fn wf(&self) -> bool { true }
    open spec fn same(&self, other: &Self) -> bool { self.0@ == other.0@ }

    fn byte_width() -> (n: usize) { 8 }

    fn check_wf(&self) -> (b: bool) { true }

    proof fn lemma_enc_len(&self) {}

    proof fn lemma_enc_injective(&self, other: &Self) {}

    fn decode(buf: &[u8], pos: usize) -> (v: Self) {
        let a = CharArray::<8>::decode(buf, pos);
        ZeroResref(a.0)
    }

    fn encode(&self, out: &mut Vec<u8>) {
        CharArray(self.0).encode(out);
    }
}

} // verus!
