//! Rows of fixed char slices filled from one run of bytes.
use vstd::prelude::*;

use super::fixed_char_array::{fixed_text, FixedCharSlice};
use super::text::{push_str, remove_nul, strip_nul};

verus! {

broadcast use vstd::array::group_array_axioms;

#[derive(Debug, PartialEq, Eq, Copy, Clone)]
pub struct FixedCharNDArray<const N: usize, const M: usize>(pub [FixedCharSlice<N>; M]);

/// The byte a filled array holds in row `r`, column `c`: byte `r * N + c` of
/// the source, or zero past its end.
pub open spec fn nd_cell(value: Seq<u8>, n: int, r: int, c: int) -> u8 {
    if r * n + c < value.len() { value[r * n + c] } else { 0u8 }
}

/// Texts joined with `", "` between neighbours.
pub open spec fn join_texts(rows: Seq<Seq<char>>) -> Seq<char>
    decreases rows.len(),
{
    if rows.len() == 0 {
        Seq::empty()
    } else if rows.len() == 1 {
        rows[0]
    } else {
        join_texts(rows.drop_last()) + seq![',', ' '] + rows.last()
    }
}

impl<const N: usize, const M: usize> FixedCharNDArray<N, M> {
    /// The texts of the rows, in order.
    pub open spec fn row_texts(&self) -> Seq<Seq<char>> {
        Seq::new(M as nat, |r: int| fixed_text(self.0@[r].0@))
    }

    /// The array filled from `value`, as `from_bytes` fills it.
    pub fn from(value: &[u8]) -> (d: Self)
        requires
            N * M <= usize::MAX,
        ensures
            forall|r: int, c: int|
                0 <= r < M && 0 <= c < N ==> #[trigger] d.0@[r].0@[c] == nd_cell(
                    value@,
                    N as int,
                    r,
                    c,
                ),
    {
        Self::from_bytes(value)
    }

    /// Fills the rows in order, `N` bytes each, from `value`; bytes past
    /// `N * M` are dropped and missing ones are zero.
    pub fn from_bytes(value: &[u8]) -> (d: Self)
        requires
            N * M <= usize::MAX,
        ensures
            forall|r: int, c: int|
                0 <= r < M && 0 <= c < N ==> #[trigger] d.0@[r].0@[c] == nd_cell(
                    value@,
                    N as int,
                    r,
                    c,
                ),
    {
        let len = value.len();
        let mut rows = [FixedCharSlice([0u8; N]); M];
        let mut r: usize = 0;
        let mut base: usize = 0;
        while r < M
            invariant
                len == value@.len(),
                N * M <= usize::MAX,
                r <= M,
                base == r * N,
                rows@.len() == M,
                forall|i: int, c: int|
                    0 <= i < r && 0 <= c < N ==> #[trigger] rows@[i].0@[c] == nd_cell(
                        value@,
                        N as int,
                        i,
                        c,
                    ),
            decreases M - r,
        {
            let mut row = [0u8; N];
            let mut c: usize = 0;
            proof {
                assert((r + 1) * N <= N * M) by (nonlinear_arith)
                    requires
                        r < M,
                ;
                assert(r * N + N == (r + 1) * N) by (nonlinear_arith);
            }
            while c < N
                invariant
                    len == value@.len(),
                    base == r * N,
                    base + N <= usize::MAX,
                    c <= N,
                    row@.len() == N,
                    forall|j: int| 0 <= j < c ==> #[trigger] row@[j] == nd_cell(
                        value@,
                        N as int,
                        r as int,
                        j,
                    ),
                decreases N - c,
            {
                let idx = base + c;
                if idx < len {
                    row[c] = value[idx];
                } else {
                    row[c] = 0;
                }
                c = c + 1;
            }
            rows[r] = FixedCharSlice(row);
            r = r + 1;
            base = base + N;
        }
        FixedCharNDArray(rows)
    }

    /// The rows' texts joined with `", "`, without NUL characters.
    pub fn to_string(&self) -> (s: String)
        ensures
            s@ == strip_nul(join_texts(self.row_texts())),
    {
        let mut joined = String::new();
        let mut r: usize = 0;
        while r < M
            invariant
                r <= M,
                joined@ == join_texts(self.row_texts().take(r as int)),
            decreases M - r,
        {
            let text = self.0[r].to_string();
            assert(self.row_texts().take(r + 1).drop_last() =~= self.row_texts().take(r as int));
            if r > 0 {
                push_str(&mut joined, ", ");
                proof {
                    reveal_strlit(", ");
                }
            } else {
                assert(self.row_texts().take(1) =~= seq![text@]);
            }
            push_str(&mut joined, text.as_str());
            proof {
                if r > 0 {
                    assert(joined@ =~= join_texts(self.row_texts().take(r as int)) + seq![',', ' ']
                        + text@);
                } else {
                    assert(joined@ =~= text@);
                }
            }
            r = r + 1;
        }
        assert(self.row_texts().take(M as int) =~= self.row_texts());
        remove_nul(joined.as_str())
    }
}

impl<const N: usize, const M: usize> Default for FixedCharNDArray<N, M> {
    fn default() -> (d: Self)
        ensures
            forall|r: int, c: int| 0 <= r < M && 0 <= c < N ==> #[trigger] d.0@[r].0@[c] == 0u8,
    {
        FixedCharNDArray([FixedCharSlice([0u8; N]); M])
    }
}

} // verus!
