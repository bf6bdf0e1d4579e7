//! Tables of strings held as a `zerovec::VarZeroVec` with 32-bit indices, as
//! the talk table and the key file keep their texts.
use vstd::prelude::*;

use vstd::utf8::encode_utf8;
use zerovec::vecs::Index32;
use zerovec::VarZeroVec;

verus! {

#[verifier::external_type_specification]
#[verifier::external_body]
#[verifier::reject_recursive_types(T)]
#[verifier::reject_recursive_types(F)]
pub struct ExVarZeroVec<'a, T: ?Sized, F>(VarZeroVec<'a, T, F>);

#[verifier::external_type_specification]
#[verifier::external_body]
pub struct ExIndex32(Index32);

/// The strings a table holds, in order.
pub uninterp spec fn str_table(v: VarZeroVec<'static, str, Index32>) -> Seq<Seq<char>>;

/// The number of UTF-8 bytes of all of `strs`.
pub open spec fn utf8_total(strs: Seq<Seq<char>>) -> int
    decreases strs.len(),
{
    if strs.len() == 0 {
        0
    } else {
        utf8_total(strs.drop_last()) + encode_utf8(strs.last()).len()
    }
}

/// `strs` fit in a table with 32-bit indices: its length, one index per
/// string and all the bytes stay below `u32::MAX`.
pub open spec fn str_table_fits(strs: Seq<Seq<char>>) -> bool {
    4 * (strs.len() + 1) + utf8_total(strs) <= u32::MAX
}

/// The texts of `list`.
pub open spec fn texts_of(list: Seq<&str>) -> Seq<Seq<char>> {
    Seq::new(list.len(), |i: int| list[i]@)
}

/// Builds a table with `VarZeroVec::<str, Index32>::from(&Vec<&str>)`.
/// Claimed: the table holds the strings of `list` in order. The call panics
/// when the strings do not fit 32-bit indices; `requires` leaves that out.
#[verifier::external_body]
pub(crate) fn str_table_from(list: &Vec<&str>) -> (v: VarZeroVec<'static, str, Index32>)
    requires
        str_table_fits(texts_of(list@)),
    ensures
        str_table(v) == texts_of(list@),
{
    VarZeroVec::from(list)
}

/// An empty table, made with `MutableZeroVecLike::zvl_with_capacity`.
/// Claimed: it holds no string.
#[verifier::external_body]
pub(crate) fn str_table_with_capacity(cap: usize) -> (v: VarZeroVec<'static, str, Index32>)
    ensures
        str_table(v) == Seq::<Seq<char>>::empty(),
{
    <VarZeroVec<'static, str, Index32> as zerovec::maps::MutableZeroVecLike<'static, str>>::zvl_with_capacity(cap)
}

/// Appends `s` with `MutableZeroVecLike::zvl_push`.
/// Claimed: the table afterwards holds its old strings followed by `s`. The
/// call panics when the strings do not fit 32-bit indices; `requires` leaves
/// that out.
#[verifier::external_body]
pub(crate) fn str_table_push(v: &mut VarZeroVec<'static, str, Index32>, s: &str)
    requires
        str_table_fits(str_table(*old(v)).push(s@)),
    ensures
        str_table(*final(v)) == str_table(*old(v)).push(s@),
{
    zerovec::maps::MutableZeroVecLike::zvl_push(v, s)
}

} // verus!
