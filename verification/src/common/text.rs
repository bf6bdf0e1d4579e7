//! Text helpers: the conversions between byte strings and `String`s that the
//! formats use (UTF-8 decoding, Latin-1 bytes, stripping NUL padding).
use vstd::prelude::*;
use vstd::utf8::*;

verus! {

/// Borrows UTF-8 bytes as text with `core::str::from_utf8`.
/// Claimed: the call succeeds exactly on valid UTF-8 and then yields the
/// characters that the bytes encode, as `core::str::from_utf8` documents.
#[verifier::external_body]
pub fn utf8_str<'a>(bytes: &'a [u8]) -> (r: Option<&'a str>)
    ensures
        r is Some <==> valid_utf8(bytes@),
        r matches Some(s) ==> s@ == decode_utf8(bytes@),
{
    core::str::from_utf8(bytes).ok()
}

/// Appends one character with `String::push`.
/// Claimed: the string afterwards is the old one followed by `c`.
#[verifier::external_body]
pub fn push_char(s: &mut String, c: char)
    ensures
        final(s)@ == old(s)@.push(c),
{
    s.push(c);
}

/// Appends a string slice with `String::push_str`.
/// Claimed: the string afterwards is the old one followed by `t`.
#[verifier::external_body]
pub fn push_str(s: &mut String, t: &str)
    ensures
        final(s)@ == old(s)@ + t@,
{
    s.push_str(t);
}

/// The characters of UTF-8 bytes, or nothing when they are not valid UTF-8.
pub open spec fn utf8_or_empty(bytes: Seq<u8>) -> Seq<char> {
    if valid_utf8(bytes) { decode_utf8(bytes) } else { Seq::empty() }
}

/// `s` with every NUL character removed.
pub open spec fn strip_nul(s: Seq<char>) -> Seq<char>
    decreases s.len(),
{
    if s.len() == 0 {
        s
    } else if s.last() == '\0' {
        strip_nul(s.drop_last())
    } else {
        strip_nul(s.drop_last()).push(s.last())
    }
}

/// Each byte read as the character with the same code point.
pub open spec fn latin1(bytes: Seq<u8>) -> Seq<char> {
    Seq::new(bytes.len(), |i: int| bytes[i] as char)
}

/// Decodes UTF-8 bytes, yielding the empty string for invalid input.
pub fn decode_or_empty(bytes: &[u8]) -> (s: String)
    ensures
        s@ == utf8_or_empty(bytes@),
{
    match utf8_str(bytes) {
        Some(s) => s.to_owned(),
        None => String::new(),
    }
}

/// Copies `s` leaving out its NUL characters.
pub fn remove_nul(s: &str) -> (r: String)
    ensures
        r@ == strip_nul(s@),
{
    let n = s.unicode_len();
    let mut r = String::new();
    let mut i: usize = 0;
    assert(s@.take(0) =~= Seq::<char>::empty());
    while i < n
        invariant
            n == s@.len(),
            i <= n,
            r@ == strip_nul(s@.take(i as int)),
        decreases n - i,
    {
        let c = s.get_char(i);
        assert(s@.take(i + 1).drop_last() =~= s@.take(i as int));
        if c != '\0' {
            push_char(&mut r, c);
        }
        i = i + 1;
    }
    assert(s@.take(n as int) =~= s@);
    r
}

/// The bytes read one character per byte.
pub fn latin1_string(bytes: &[u8]) -> (r: String)
    ensures
        r@ == latin1(bytes@),
{
    let n = bytes.len();
    let mut r = String::new();
    let mut i: usize = 0;
    while i < n
        invariant
            n == bytes@.len(),
            i <= n,
            r@ =~= latin1(bytes@.take(i as int)),
        decreases n - i,
    {
        let c = bytes[i] as char;
        push_char(&mut r, c);
        i = i + 1;
    }
    assert(bytes@.take(n as int) =~= bytes@);
    r
}

/// ASCII upper-case letters mapped to lower case; every other character kept.
pub open spec fn lower_char(c: char) -> char {
    if 'A' <= c && c <= 'Z' { ((c as u8) + 32) as char } else { c }
}

pub open spec fn ascii_lowercase(s: Seq<char>) -> Seq<char> {
    Seq::new(s.len(), |i: int| lower_char(s[i]))
}

/// ASCII lower-case letters mapped to upper case; every other character kept.
pub open spec fn upper_char(c: char) -> char {
    if 'a' <= c && c <= 'z' { ((c as u8) - 32) as char } else { c }
}

/// The characters of `s` with ASCII letters in upper case.
pub open spec fn ascii_uppercase(s: Seq<char>) -> Seq<char> {
    Seq::new(s.len(), |i: int| upper_char(s[i]))
}

/// The characters of `value` with ASCII letters in lower case.
pub fn to_ascii_lowercase(value: &str) -> (r: Vec<char>)
    ensures
        r@ == ascii_lowercase(value@),
{
    let n = value.unicode_len();
    let mut r: Vec<char> = Vec::new();
    let mut i: usize = 0;
    while i < n
        invariant
            n == value@.len(),
            i <= n,
            r@ =~= ascii_lowercase(value@.take(i as int)),
        decreases n - i,
    {
        let c = value.get_char(i);
        let l = if 'A' <= c && c <= 'Z' { ((c as u8) + 32) as char } else { c };
        r.push(l);
        i = i + 1;
    }
    assert(value@.take(n as int) =~= value@);
    r
}

/// Whether two character slices hold the same characters.
pub fn chars_equal(a: &[char], b: &[char]) -> (r: bool)
    ensures
        r == (a@ == b@),
{
    if a.len() != b.len() {
        return false;
    }
    let mut i: usize = 0;
    while i < a.len()
        invariant
            a@.len() == b@.len(),
            i <= a@.len(),
            forall|j: int| 0 <= j < i ==> a@[j] == b@[j],
        decreases a@.len() - i,
    {
        if a[i] != b[i] {
            return false;
        }
        i = i + 1;
    }
    assert(a@ =~= b@);
    true
}

} // verus!
