//! Splitting text resources into rows and words.
use vstd::prelude::*;

use crate::common::binary::{decode_vec, record_parsed, section_parsed, Codec};
use crate::common::varriable_char_array::VarriableCharArray;

verus! {

/// Reads one value at `start`, which must lie inside `buffer`.
pub fn copy_buff_to_struct<T: Codec>(buffer: &[u8], start: usize) -> (v: T)
    requires
        start + T::width() <= buffer@.len(),
    ensures
        record_parsed(v, buffer@, start as int),
{
    T::decode(buffer, start)
}

/// Reads `count` values from `start` on; none when they do not all lie
/// inside `buffer`.
pub fn copy_transmute_buff<T: Codec>(buffer: &[u8], start: usize, count: usize) -> (v: Vec<T>)
    ensures
        start + count * T::width() <= buffer@.len() ==> section_parsed(v@, buffer@, start as int, count as int),
        start + count * T::width() > buffer@.len() ==> v@.len() == 0,
{
    let w = T::byte_width() as u64;
    let len = buffer.len() as u64;
    let fits = match (count as u64).checked_mul(w) {
        Some(size) => start as u64 <= len && size <= len - start as u64,
        None => false,
    };
    if fits {
        let v = decode_vec::<T>(buffer, start, count);
        proof {
            if count == 0 {
                assert(v@.len() == 0);
            }
        }
        v
    } else {
        proof {
            if start + count * T::width() <= buffer@.len() {
                assert(count * w <= u64::MAX);
            }
        }
        Vec::new()
    }
}

/// Carriage return or line feed.
pub open spec fn is_line_break(b: u8) -> bool {
    b == 0xD || b == 0xA
}

/// The bytes that `u8::is_ascii_whitespace` accepts: space, tab, line feed,
/// form feed and carriage return.
pub open spec fn is_ascii_ws(b: u8) -> bool {
    b == 0x20 || b == 0x9 || b == 0xA || b == 0xC || b == 0xD
}

/// The words of `s`: its maximal runs of bytes that are not ASCII
/// whitespace, in order.
pub open spec fn words(s: Seq<u8>) -> Seq<Seq<u8>>
    decreases s.len(),
{
    if s.len() == 0 {
        Seq::empty()
    } else {
        let w = words(s.drop_last());
        let b = s.last();
        if is_ascii_ws(b) {
            w
        } else if s.len() >= 2 && !is_ascii_ws(s[s.len() - 2]) {
            w.update(w.len() - 1, w.last().push(b))
        } else {
            w.push(seq![b])
        }
    }
}

/// The number of carriage returns and line feeds in a row from `at` on.
pub open spec fn breaks_from(buffer: Seq<u8>, at: int) -> int
    decreases buffer.len() - at,
{
    if 0 <= at < buffer.len() && is_line_break(buffer[at]) {
        1 + breaks_from(buffer, at + 1)
    } else {
        0
    }
}

/// The contents of some byte strings.
pub open spec fn contents(v: Seq<VarriableCharArray>) -> Seq<Seq<u8>> {
    Seq::new(v.len(), |i: int| v[i].0@)
}

/// The rows of `s` as the lenient reader splits them: a line break gives a
/// row holding one space; any other byte is added to the last row, or starts
/// the first one.
pub open spec fn dumb_rows(s: Seq<u8>) -> Seq<Seq<u8>>
    decreases s.len(),
{
    if s.len() == 0 {
        Seq::empty()
    } else {
        let acc = dumb_rows(s.drop_last());
        let x = s.last();
        if is_line_break(x) {
            acc.push(seq![32u8])
        } else if acc.len() > 0 {
            acc.update(acc.len() - 1, acc.last().push(x))
        } else {
            acc.push(seq![x])
        }
    }
}

/// A byte string of the one byte `b`.
fn one_byte(b: u8) -> (v: Vec<u8>)
    ensures
        v@ == seq![b],
{
    let mut v: Vec<u8> = Vec::new();
    v.push(b);
    assert(v@ =~= seq![b]);
    v
}

/// Splits `buffer` into rows: every line break gives a row holding one
/// space, and every other byte is added to the last row (or starts the first
/// one).
pub fn dumb_row_parser(buffer: &[u8]) -> (rows: Vec<VarriableCharArray>)
    ensures
        contents(rows@) == dumb_rows(buffer@),
{
    let mut acc: Vec<VarriableCharArray> = Vec::new();
    let mut i: usize = 0;
    while i < buffer.len()
        invariant
            i <= buffer@.len(),
            contents(acc@) == dumb_rows(buffer@.take(i as int)),
        decreases buffer@.len() - i,
    {
        let x = buffer[i];
        let ghost before = contents(acc@);
        proof {
            let t = buffer@.take(i + 1);
            assert(t.drop_last() =~= buffer@.take(i as int));
            assert(t.last() == x);
        }
        if x == 0xA || x == 0xD {
            acc.push(VarriableCharArray(one_byte(32u8)));
            assert(contents(acc@) =~= before.push(seq![32u8]));
        } else if acc.len() > 0 {
            let last = acc.len() - 1;
            let mut row = acc[last].0.clone();
            row.push(x);
            acc.set(last, VarriableCharArray(row));
            assert(contents(acc@) =~= before.update(before.len() - 1, before.last().push(x)));
        } else {
            acc.push(VarriableCharArray(one_byte(x)));
            assert(contents(acc@) =~= before.push(seq![x]));
        }
        i = i + 1;
    }
    assert(buffer@.take(buffer@.len() as int) =~= buffer@);
    acc
}

/// The words of `row`, each as a byte string.
fn split_words(row: &[u8]) -> (out: Vec<VarriableCharArray>)
    ensures
        contents(out@) == words(row@),
{
    let mut out: Vec<VarriableCharArray> = Vec::new();
    let mut i: usize = 0;
    while i < row.len()
        invariant
            i <= row@.len(),
            contents(out@) == words(row@.take(i as int)),
        decreases row@.len() - i,
    {
        let b = row[i];
        let ghost before = contents(out@);
        proof {
            let t = row@.take(i + 1);
            assert(t.drop_last() =~= row@.take(i as int));
            assert(t.last() == b);
            if i >= 1 {
                assert(t[t.len() - 2] == row@[i - 1]);
            }
        }
        let ws = b == 0x20 || b == 0x9 || b == 0xA || b == 0xC || b == 0xD;
        if !ws {
            let p = if i >= 1 { row[i - 1] } else { 0x20 };
            let prev_word = i >= 1 && !(p == 0x20 || p == 0x9 || p == 0xA || p == 0xC || p == 0xD);
            if prev_word {
                proof {
                    lemma_words_nonempty(row@.take(i as int));
                }
                let last = out.len() - 1;
                let mut w = out[last].0.clone();
                w.push(b);
                out.set(last, VarriableCharArray(w));
                assert(contents(out@) =~= before.update(before.len() - 1, before.last().push(b)));
            } else {
                out.push(VarriableCharArray(one_byte(b)));
                assert(contents(out@) =~= before.push(seq![b]));
            }
        }
        i = i + 1;
    }
    assert(row@.take(row@.len() as int) =~= row@);
    out
}

/// A text ending in a word byte has at least one word.
proof fn lemma_words_nonempty(s: Seq<u8>)
    requires
        s.len() > 0,
        !is_ascii_ws(s.last()),
    ensures
        words(s).len() > 0,
    decreases s.len(),
{
    if s.len() >= 2 && !is_ascii_ws(s[s.len() - 2]) {
        assert(s.drop_last().last() == s[s.len() - 2]);
        lemma_words_nonempty(s.drop_last());
    }
}

/// Where the first line break at or after `at` stands, or the length of the
/// buffer when there is none.
pub open spec fn first_break(buffer: Seq<u8>, at: int) -> int
    decreases buffer.len() - at,
{
    if at >= buffer.len() {
        buffer.len() as int
    } else if at >= 0 && is_line_break(buffer[at]) {
        at
    } else {
        first_break(buffer, at + 1)
    }
}

/// The words of the row that starts at `row_start`: those before the first
/// line break, or none when no line break follows.
pub open spec fn row_words(buffer: Seq<u8>, row_start: int) -> Seq<Seq<u8>> {
    let e = first_break(buffer, row_start);
    if e < buffer.len() { words(buffer.subrange(row_start, e)) } else { Seq::empty() }
}

/// Where the row after the one at `row_start` starts: past the line breaks
/// that end it, or `row_start` itself when no line break follows.
pub open spec fn next_row(buffer: Seq<u8>, row_start: int) -> int {
    let e = first_break(buffer, row_start);
    if e < buffer.len() { e + breaks_from(buffer, e) } else { row_start }
}

/// With no line break in `[start, e)`, the first one from `start` is the
/// first one from `e`.
proof fn lemma_first_break_skip(buffer: Seq<u8>, start: int, e: int)
    requires
        0 <= start <= e,
        e <= buffer.len(),
        forall|j: int| start <= j < e ==> !is_line_break(#[trigger] buffer[j]),
    ensures
        first_break(buffer, start) == first_break(buffer, e),
    decreases e - start,
{
    if start < e {
        lemma_first_break_skip(buffer, start + 1, e);
    }
}

/// The number of line breaks in a row from `row_end` on; none when
/// `row_end` is past the end of the buffer.
fn set_to_end_of_line(row_end: usize, buffer: &[u8]) -> (n: usize)
    ensures
        n == breaks_from(buffer@, row_end as int),
        row_end <= buffer@.len() ==> row_end + n <= buffer@.len(),
        row_end >= buffer@.len() ==> n == 0,
    decreases buffer@.len() - row_end,
{
    if row_end < buffer.len() && (buffer[row_end] == 0xD || buffer[row_end] == 0xA) {
        1 + set_to_end_of_line(row_end + 1, buffer)
    } else {
        0
    }
}

/// Reads the row that starts at `row_start`: the row runs up to the first
/// carriage return or line feed and is split into its words; the position
/// returned is past the line breaks that end it. A row with no line break
/// after it gives no words and the position `row_start` unchanged.
pub fn row_parser(buffer: &[u8], row_start: usize) -> (r: (Vec<VarriableCharArray>, usize))
    ensures
        contents(r.0@) == row_words(buffer@, row_start as int),
        r.1 == next_row(buffer@, row_start as int),
        (forall|j: int| row_start <= j < buffer@.len() ==> !is_line_break(#[trigger] buffer@[j])) ==> {
            &&& r.0@.len() == 0
            &&& r.1 == row_start
        },
        forall|e: int|
            row_start <= e < buffer@.len() && is_line_break(#[trigger] buffer@[e])
                && (forall|j: int| row_start <= j < e ==> !is_line_break(buffer@[j])) ==> {
                &&& contents(r.0@) == words(buffer@.subrange(row_start as int, e))
                &&& r.1 == e + breaks_from(buffer@, e)
            },
{
    let mut e = row_start;
    while e < buffer.len()
        invariant
            row_start <= e,
            e <= buffer@.len() || e == row_start,
            forall|j: int| row_start <= j < e ==> !is_line_break(#[trigger] buffer@[j]),
        decreases buffer@.len() - e,
    {
        if buffer[e] == 0xD || buffer[e] == 0xA {
            let row = vstd::slice::slice_subrange(buffer, row_start, e);
            let out = split_words(row);
            let n = set_to_end_of_line(e, buffer);
            proof {
                lemma_first_break_skip(buffer@, row_start as int, e as int);
                assert forall|e2: int|
                    row_start <= e2 < buffer@.len() && is_line_break(#[trigger] buffer@[e2])
                        && (forall|j: int| row_start <= j < e2 ==> !is_line_break(buffer@[j])) implies e2 == e by {
                    if e2 < e {
                    } else if e2 > e {
                        assert(!is_line_break(buffer@[e as int]));
                    }
                }
            }
            return (out, e + n);
        }
        e = e + 1;
    }
    proof {
        if row_start < buffer@.len() {
            lemma_first_break_skip(buffer@, row_start as int, e as int);
        }
        assert(contents(Seq::<VarriableCharArray>::empty()) =~= Seq::<Seq<u8>>::empty());
    }
    (Vec::new(), row_start)
}

} // verus!
