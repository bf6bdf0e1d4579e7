//! Little-endian encoding of the fixed-width values that make up the
//! Infinity Engine binary formats, and the `Codec` interface shared by every
//! fixed-width record.
use vstd::prelude::*;

verus! {

/// A value with a fixed-width little-endian byte encoding.
pub trait Codec: Sized {
    /// Number of bytes of the encoding.
    spec fn width() -> nat;

    /// The bytes this value is written as.
    spec fn enc(&self) -> Seq<u8>;

    /// Well-formedness (lengths of variable-length fields match the format).
    spec fn wf(&self) -> bool;

    /// Equality of the observable contents of two values.
    spec fn same(&self, other: &Self) -> bool;

    fn byte_width() -> (n: usize)
        ensures
            n == Self::width(),
    ;

    proof fn lemma_enc_len(&self)
        requires
            self.wf(),
        ensures
            self.enc().len() == Self::width(),
    ;

    /// Decoding is the inverse of encoding: equal encodings mean equal contents.
    proof fn lemma_enc_injective(&self, other: &Self)
        requires
            self.wf(),
            other.wf(),
            self.enc() == other.enc(),
        ensures
            self.same(other),
    ;

    /// Whether `self` is well formed.
    fn check_wf(&self) -> (b: bool)
        ensures
            b == self.wf(),
    ;

    /// Reads a value from `buf` at byte offset `pos`.
    fn decode(buf: &[u8], pos: usize) -> (v: Self)
        requires
            pos + Self::width() <= buf@.len(),
        ensures
            v.wf(),
            v.enc() == buf@.subrange(pos as int, pos + Self::width()),
    ;

    /// Appends the encoding of `self` to `out`.
    fn encode(&self, out: &mut Vec<u8>)
        requires
            self.wf(),
        ensures
            final(out)@ == old(out)@ + self.enc(),
    ;
}

pub open spec fn enc_u16(v: u16) -> Seq<u8> {
    seq![(v % 256) as u8, (v / 256) as u8]
}

pub open spec fn enc_u32(v: u32) -> Seq<u8> {
    seq![
        (v % 256) as u8,
        ((v / 256) % 256) as u8,
        ((v / 65536) % 256) as u8,
        (v / 16777216) as u8,
    ]
}

pub open spec fn enc_u64(v: u64) -> Seq<u8> {
    enc_u32((v % 0x1_0000_0000) as u32) + enc_u32((v / 0x1_0000_0000) as u32)
}

/// Two's-complement reinterpretation of signed values as unsigned ones.
pub open spec fn i8_bits(v: i8) -> u8 {
    if v < 0 { (v + 0x100) as u8 } else { v as u8 }
}

pub open spec fn i16_bits(v: i16) -> u16 {
    if v < 0 { (v + 0x1_0000) as u16 } else { v as u16 }
}

pub open spec fn i32_bits(v: i32) -> u32 {
    if v < 0 { (v + 0x1_0000_0000) as u32 } else { v as u32 }
}

pub open spec fn i64_bits(v: i64) -> u64 {
    if v < 0 { (v + 0x1_0000_0000_0000_0000) as u64 } else { v as u64 }
}

proof fn lemma_u16_split(v: u16)
    ensures
        v == enc_u16(v)[0] + enc_u16(v)[1] * 256,
{
}

proof fn lemma_u32_split(v: u32)
    ensures
        v == enc_u32(v)[0] + enc_u32(v)[1] * 256 + enc_u32(v)[2] * 65536 + enc_u32(v)[3] * 16777216,
{
}

proof fn lemma_u16_roundtrip(s: Seq<u8>)
    requires
        s.len() == 2,
    ensures
        enc_u16((s[0] + s[1] * 256) as u16) == s,
{
    let v = (s[0] + s[1] * 256) as u16;
    assert(v % 256 == s[0]);
    assert(v / 256 == s[1]);
    assert(enc_u16(v) =~= s);
}

proof fn lemma_u32_roundtrip(s: Seq<u8>)
    requires
        s.len() == 4,
    ensures
        enc_u32((s[0] + s[1] * 256 + s[2] * 65536 + s[3] * 16777216) as u32) == s,
{
    let v = (s[0] + s[1] * 256 + s[2] * 65536 + s[3] * 16777216) as u32;
    assert(v % 256 == s[0]);
    assert((v / 256) % 256 == s[1]);
    assert((v / 65536) % 256 == s[2]);
    assert(v / 16777216 == s[3]);
    assert(enc_u32(v) =~= s);
}

impl Codec for u8 {
    open spec fn width() -> nat { 1 }
    open spec fn enc(&self) -> Seq<u8> { seq![*self] }
    open spec fn wf(&self) -> bool { true }
    open spec fn same(&self, other: &Self) -> bool { *self == *other }

    fn byte_width() -> (n: usize) { 1 }

    fn check_wf(&self) -> (b: bool) { true }

    proof fn lemma_enc_len(&self) {}

    proof fn lemma_enc_injective(&self, other: &Self) {
        assert(seq![*self][0] == *self);
        assert(seq![*other][0] == *other);
        assert(self.enc()[0] == other.enc()[0]);
    }

    fn decode(buf: &[u8], pos: usize) -> (v: Self) {
        let v = buf[pos];
        assert(seq![v] =~= buf@.subrange(pos as int, pos + 1));
        v
    }

    fn encode(&self, out: &mut Vec<u8>) {
        out.push(*self);
        assert(final(out)@ =~= old(out)@ + self.enc());
    }
}

impl Codec for u16 {
    open spec fn width() -> nat { 2 }
    open spec fn enc(&self) -> Seq<u8> { enc_u16(*self) }
    open spec fn wf(&self) -> bool { true }
    open spec fn same(&self, other: &Self) -> bool { *self == *other }

    fn byte_width() -> (n: usize) { 2 }

    fn check_wf(&self) -> (b: bool) { true }

    proof fn lemma_enc_len(&self) {}

    proof fn lemma_enc_injective(&self, other: &Self) {
        lemma_u16_split(*self);
        lemma_u16_split(*other);
        assert(self.enc()[0] == other.enc()[0]);
        assert(self.enc()[1] == other.enc()[1]);
    }

    fn decode(buf: &[u8], pos: usize) -> (v: Self) {
        let v = buf[pos] as u16 + buf[pos + 1] as u16 * 256;
        proof { lemma_u16_roundtrip(buf@.subrange(pos as int, pos + 2)); }
        v
    }

    fn encode(&self, out: &mut Vec<u8>) {
        out.push((*self % 256) as u8);
        out.push((*self / 256) as u8);
        assert(final(out)@ =~= old(out)@ + self.enc());
    }
}

impl Codec for u32 {
    open spec fn width() -> nat { 4 }
    open spec fn enc(&self) -> Seq<u8> { enc_u32(*self) }
    open spec fn wf(&self) -> bool { true }
    open spec fn same(&self, other: &Self) -> bool { *self == *other }

    fn byte_width() -> (n: usize) { 4 }

    fn check_wf(&self) -> (b: bool) { true }

    proof fn lemma_enc_len(&self) {}

    proof fn lemma_enc_injective(&self, other: &Self) {
        lemma_u32_split(*self);
        lemma_u32_split(*other);
        assert(self.enc()[0] == other.enc()[0]);
        assert(self.enc()[1] == other.enc()[1]);
        assert(self.enc()[2] == other.enc()[2]);
        assert(self.enc()[3] == other.enc()[3]);
    }

    fn decode(buf: &[u8], pos: usize) -> (v: Self) {
        let v = buf[pos] as u32 + buf[pos + 1] as u32 * 256 + buf[pos + 2] as u32 * 65536
            + buf[pos + 3] as u32 * 16777216;
        proof { lemma_u32_roundtrip(buf@.subrange(pos as int, pos + 4)); }
        v
    }

    fn encode(&self, out: &mut Vec<u8>) {
        let v = *self;
        out.push((v % 256) as u8);
        out.push(((v / 256) % 256) as u8);
        out.push(((v / 65536) % 256) as u8);
        out.push((v / 16777216) as u8);
        assert(final(out)@ =~= old(out)@ + self.enc());
    }
}

/// A `u64` is its low 32 bits plus its high 32 bits times 2^32.
proof fn lemma_u64_parts(a: u64)
    ensures
        a == (a % 0x1_0000_0000) + (a / 0x1_0000_0000) * 0x1_0000_0000,
        a % 0x1_0000_0000 <= u32::MAX,
        a / 0x1_0000_0000 <= u32::MAX,
{
    assert(a == (a % 0x1_0000_0000) + (a / 0x1_0000_0000) * 0x1_0000_0000) by (nonlinear_arith);
    assert(a / 0x1_0000_0000 <= u32::MAX) by (nonlinear_arith);
}

impl Codec for u64 {
    open spec fn width() -> nat { 8 }
    open spec fn enc(&self) -> Seq<u8> { enc_u64(*self) }
    open spec fn wf(&self) -> bool { true }
    open spec fn same(&self, other: &Self) -> bool { *self == *other }

    fn byte_width() -> (n: usize) { 8 }

    fn check_wf(&self) -> (b: bool) { true }

    proof fn lemma_enc_len(&self) {}

    proof fn lemma_enc_injective(&self, other: &Self) {
        let alo = (*self % 0x1_0000_0000) as u32;
        let ahi = (*self / 0x1_0000_0000) as u32;
        let blo = (*other % 0x1_0000_0000) as u32;
        let bhi = (*other / 0x1_0000_0000) as u32;
        assert(self.enc().subrange(0, 4) =~= enc_u32(alo));
        assert(other.enc().subrange(0, 4) =~= enc_u32(blo));
        assert(self.enc().subrange(4, 8) =~= enc_u32(ahi));
        assert(other.enc().subrange(4, 8) =~= enc_u32(bhi));
        alo.lemma_enc_injective(&blo);
        ahi.lemma_enc_injective(&bhi);
        lemma_u64_parts(*self);
        lemma_u64_parts(*other);
        assert(alo == blo);
        assert(ahi == bhi);
        assert(alo as int == *self % 0x1_0000_0000);
        assert(*self == *other);
        assert(self.same(other));
    }

    fn decode(buf: &[u8], pos: usize) -> (v: Self) {
        let n = buf.len();
        let lo = u32::decode(buf, pos);
        let hi = u32::decode(buf, pos + 4);
        assert(lo as u64 + hi as u64 * 0x1_0000_0000 <= u64::MAX) by (nonlinear_arith)
            requires
                lo <= u32::MAX,
                hi <= u32::MAX,
        ;
        let v = lo as u64 + hi as u64 * 0x1_0000_0000;
        assert(v % 0x1_0000_0000 == lo && v / 0x1_0000_0000 == hi) by (nonlinear_arith)
            requires
                v == lo + hi * 0x1_0000_0000,
                lo <= u32::MAX,
        ;
        assert(v.enc() =~= lo.enc() + hi.enc());
        assert(buf@.subrange(pos as int, pos + 8) =~= buf@.subrange(pos as int, pos + 4) + buf@.subrange(pos + 4, pos + 8));
        v
    }

    fn encode(&self, out: &mut Vec<u8>) {
        let lo = (*self % 0x1_0000_0000) as u32;
        let hi = (*self / 0x1_0000_0000) as u32;
        lo.encode(out);
        hi.encode(out);
        assert(final(out)@ =~= old(out)@ + self.enc());
    }
}

impl Codec for i8 {
    open spec fn width() -> nat { 1 }
    open spec fn enc(&self) -> Seq<u8> { seq![i8_bits(*self)] }
    open spec fn wf(&self) -> bool { true }
    open spec fn same(&self, other: &Self) -> bool { *self == *other }

    fn byte_width() -> (n: usize) { 1 }

    fn check_wf(&self) -> (b: bool) { true }

    proof fn lemma_enc_len(&self) {}

    proof fn lemma_enc_injective(&self, other: &Self) {
        assert(seq![i8_bits(*self)][0] == i8_bits(*self));
        assert(seq![i8_bits(*other)][0] == i8_bits(*other));
        assert(self.enc()[0] == other.enc()[0]);
    }

    fn decode(buf: &[u8], pos: usize) -> (v: Self) {
        let u = buf[pos];
        let v: i8 = if u < 128 { u as i8 } else { (u as i16 - 256) as i8 };
        assert(v.enc() =~= buf@.subrange(pos as int, pos + 1));
        v
    }

    fn encode(&self, out: &mut Vec<u8>) {
        let v = *self;
        let u: u8 = if v < 0 { (v as i16 + 256) as u8 } else { v as u8 };
        out.push(u);
        assert(final(out)@ =~= old(out)@ + self.enc());
    }
}

impl Codec for i16 {
    open spec fn width() -> nat { 2 }
    open spec fn enc(&self) -> Seq<u8> { enc_u16(i16_bits(*self)) }
    open spec fn wf(&self) -> bool { true }
    open spec fn same(&self, other: &Self) -> bool { *self == *other }

    fn byte_width() -> (n: usize) { 2 }

    fn check_wf(&self) -> (b: bool) { true }

    proof fn lemma_enc_len(&self) {}

    proof fn lemma_enc_injective(&self, other: &Self) {
        i16_bits(*self).lemma_enc_injective(&i16_bits(*other));
    }

    fn decode(buf: &[u8], pos: usize) -> (v: Self) {
        let u = u16::decode(buf, pos);
        let v: i16 = if u < 0x8000 { u as i16 } else { (u as i32 - 0x1_0000) as i16 };
        assert(i16_bits(v) == u);
        v
    }

    fn encode(&self, out: &mut Vec<u8>) {
        let v = *self;
        let u: u16 = if v < 0 { (v as i32 + 0x1_0000) as u16 } else { v as u16 };
        u.encode(out);
    }
}

impl Codec for i32 {
    open spec fn width() -> nat { 4 }
    open spec fn enc(&self) -> Seq<u8> { enc_u32(i32_bits(*self)) }
    open spec fn wf(&self) -> bool { true }
    open spec fn same(&self, other: &Self) -> bool { *self == *other }

    fn byte_width() -> (n: usize) { 4 }

    fn check_wf(&self) -> (b: bool) { true }

    proof fn lemma_enc_len(&self) {}

    proof fn lemma_enc_injective(&self, other: &Self) {
        i32_bits(*self).lemma_enc_injective(&i32_bits(*other));
    }

    fn decode(buf: &[u8], pos: usize) -> (v: Self) {
        let u = u32::decode(buf, pos);
        let v: i32 = if u < 0x8000_0000 { u as i32 } else { (u as i64 - 0x1_0000_0000) as i32 };
        assert(i32_bits(v) == u);
        v
    }

    fn encode(&self, out: &mut Vec<u8>) {
        let v = *self;
        let u: u32 = if v < 0 { (v as i64 + 0x1_0000_0000) as u32 } else { v as u32 };
        u.encode(out);
    }
}

impl Codec for i64 {
    open spec fn width() -> nat { 8 }
    open spec fn enc(&self) -> Seq<u8> { enc_u64(i64_bits(*self)) }
    open spec fn wf(&self) -> bool { true }
    open spec fn same(&self, other: &Self) -> bool { *self == *other }

    fn byte_width() -> (n: usize) { 8 }

    fn check_wf(&self) -> (b: bool) { true }

    proof fn lemma_enc_len(&self) {}

    proof fn lemma_enc_injective(&self, other: &Self) {
        i64_bits(*self).lemma_enc_injective(&i64_bits(*other));
    }

    fn decode(buf: &[u8], pos: usize) -> (v: Self) {
        let u = u64::decode(buf, pos);
        let v: i64 = if u < 0x8000_0000_0000_0000 {
            u as i64
        } else {
            (u as i128 - 0x1_0000_0000_0000_0000) as i64
        };
        assert(i64_bits(v) == u);
        v
    }

    fn encode(&self, out: &mut Vec<u8>) {
        let v = *self;
        let u: u64 = if v < 0 { (v as i128 + 0x1_0000_0000_0000_0000) as u64 } else { v as u64 };
        u.encode(out);
    }
}

/// Concatenated encodings of a sequence of values.
pub open spec fn enc_seq<T: Codec>(s: Seq<T>) -> Seq<u8>
    decreases s.len(),
{
    if s.len() == 0 {
        Seq::empty()
    } else {
        enc_seq(s.drop_last()) + s.last().enc()
    }
}

pub open spec fn all_wf<T: Codec>(s: Seq<T>) -> bool {
    forall|i: int| 0 <= i < s.len() ==> #[trigger] s[i].wf()
}

/// Element-wise equality of contents.
pub open spec fn seq_same<T: Codec>(a: Seq<T>, b: Seq<T>) -> bool {
    &&& a.len() == b.len()
    &&& forall|i: int| 0 <= i < a.len() ==> #[trigger] a[i].same(&b[i])
}

pub proof fn lemma_subrange_concat(s: Seq<u8>, a: int, b: int, c: int)
    requires
        0 <= a <= b <= c <= s.len(),
    ensures
        s.subrange(a, b) + s.subrange(b, c) == s.subrange(a, c),
{
    assert(s.subrange(a, b) + s.subrange(b, c) =~= s.subrange(a, c));
}

/// Splitting a concatenation at the length of its left part recovers both parts.
pub proof fn lemma_concat_peel(a: Seq<u8>, b: Seq<u8>, c: Seq<u8>, d: Seq<u8>)
    requires
        a + b == c + d,
        a.len() == c.len(),
    ensures
        a == c,
        b == d,
{
    assert(a =~= (a + b).subrange(0, a.len() as int));
    assert(c =~= (c + d).subrange(0, c.len() as int));
    assert(b =~= (a + b).subrange(a.len() as int, (a + b).len() as int));
    assert(d =~= (c + d).subrange(c.len() as int, (c + d).len() as int));
}

pub proof fn lemma_enc_seq_len<T: Codec>(s: Seq<T>)
    requires
        all_wf(s),
    ensures
        enc_seq(s).len() == s.len() * T::width(),
    decreases s.len(),
{
    if s.len() > 0 {
        assert(all_wf(s.drop_last()));
        lemma_enc_seq_len(s.drop_last());
        s.last().lemma_enc_len();
        assert((s.len() - 1) * T::width() + T::width() == s.len() * T::width())
            by (nonlinear_arith);
    }
}

/// The `i`-th element's encoding sits at offset `i * width` of the concatenation.
pub proof fn lemma_enc_seq_index<T: Codec>(s: Seq<T>, i: int)
    requires
        all_wf(s),
        0 <= i < s.len(),
    ensures
        i * T::width() + T::width() <= enc_seq(s).len(),
        enc_seq(s).subrange(i * T::width(), i * T::width() + T::width()) == s[i].enc(),
    decreases s.len(),
{
    let init = s.drop_last();
    assert(all_wf(init));
    lemma_enc_seq_len(s);
    lemma_enc_seq_len(init);
    s.last().lemma_enc_len();
    if i == s.len() - 1 {
        assert(enc_seq(s).subrange(i * T::width(), i * T::width() + T::width()) =~= s.last().enc());
    } else {
        lemma_enc_seq_index(init, i);
        assert(i * T::width() + T::width() <= (s.len() - 1) * T::width()) by (nonlinear_arith)
            requires
                i < s.len() - 1,
                0 <= i,
        ;
        assert(enc_seq(s).subrange(i * T::width(), i * T::width() + T::width()) =~= enc_seq(
            init,
        ).subrange(i * T::width(), i * T::width() + T::width()));
    }
}

pub proof fn lemma_enc_seq_injective<T: Codec>(a: Seq<T>, b: Seq<T>)
    requires
        all_wf(a),
        all_wf(b),
        a.len() == b.len(),
        enc_seq(a) == enc_seq(b),
    ensures
        seq_same(a, b),
    decreases a.len(),
{
    if a.len() > 0 {
        let (ia, ib) = (a.drop_last(), b.drop_last());
        assert(all_wf(ia));
        assert(all_wf(ib));
        lemma_enc_seq_len(ia);
        lemma_enc_seq_len(ib);
        lemma_concat_peel(enc_seq(ia), a.last().enc(), enc_seq(ib), b.last().enc());
        lemma_enc_seq_injective(ia, ib);
        a.last().lemma_enc_injective(&b.last());
        assert forall|i: int| 0 <= i < a.len() implies #[trigger] a[i].same(&b[i]) by {
            if i < a.len() - 1 {
                assert(ia[i] == a[i]);
                assert(ib[i] == b[i]);
            }
        }
    }
}

proof fn lemma_mul_step(i: int, w: int)
    requires
        0 <= i,
        0 <= w,
    ensures
        i * w + w == (i + 1) * w,
        0 <= i * w,
{
    assert(i * w + w == (i + 1) * w) by (nonlinear_arith);
    assert(0 <= i * w) by (nonlinear_arith)
        requires
            0 <= i,
            0 <= w,
    ;
}

proof fn lemma_mul_mono(i: int, n: int, w: int)
    requires
        0 <= i <= n,
        0 <= w,
    ensures
        i * w <= n * w,
{
    assert(i * w <= n * w) by (nonlinear_arith)
        requires
            0 <= i <= n,
            0 <= w,
    ;
}

/// Whether every value of `s` is well formed.
pub fn check_all_wf<T: Codec>(s: &[T]) -> (b: bool)
    ensures
        b == all_wf(s@),
{
    let mut i: usize = 0;
    while i < s.len()
        invariant
            i <= s@.len(),
            forall|j: int| 0 <= j < i ==> (#[trigger] s@[j]).wf(),
        decreases s@.len() - i,
    {
        if !s[i].check_wf() {
            return false;
        }
        i = i + 1;
    }
    true
}

/// Appends a copy of `bytes`.
pub fn append_bytes(out: &mut Vec<u8>, bytes: &[u8])
    ensures
        final(out)@ == old(out)@ + bytes@,
{
    let mut v = vstd::slice::slice_to_vec(bytes);
    out.append(&mut v);
}

/// Reads `count` consecutive values starting at byte offset `pos`.
pub fn decode_vec<T: Codec>(buf: &[u8], pos: usize, count: usize) -> (v: Vec<T>)
    requires
        pos + count * T::width() <= buf@.len(),
    ensures
        v@.len() == count,
        all_wf(v@),
        enc_seq(v@) == buf@.subrange(pos as int, pos + count * T::width()),
{
    let w = T::byte_width();
    let n = buf.len();
    let mut v: Vec<T> = Vec::new();
    let mut i: usize = 0;
    assert(enc_seq(v@) =~= buf@.subrange(pos as int, pos as int));
    while i < count
        invariant
            w == T::width(),
            n == buf@.len(),
            i <= count,
            pos + count * T::width() <= buf@.len(),
            v@.len() == i,
            all_wf(v@),
            enc_seq(v@) == buf@.subrange(pos as int, pos + i * T::width()),
        decreases count - i,
    {
        proof {
            lemma_mul_step(i as int, w as int);
            lemma_mul_mono(i as int + 1, count as int, w as int);
        }
        let x = T::decode(buf, pos + i * w);
        let ghost old_v = v@;
        v.push(x);
        proof {
            assert(v@.drop_last() =~= old_v);
            assert(v@.last() == x);
            lemma_subrange_concat(buf@, pos as int, pos + i * w, pos + i * w + w);
            assert(all_wf(v@)) by {
                assert forall|j: int| 0 <= j < v@.len() implies #[trigger] v@[j].wf() by {
                    if j < i { assert(v@[j] == old_v[j]); }
                }
            }
        }
        i = i + 1;
    }
    v
}

/// Appends the encodings of all values of `s`.
pub fn encode_slice<T: Codec>(s: &[T], out: &mut Vec<u8>)
    requires
        all_wf(s@),
    ensures
        final(out)@ == old(out)@ + enc_seq(s@),
{
    let mut i: usize = 0;
    let n = s.len();
    assert(old(out)@ + enc_seq(s@.take(0)) =~= old(out)@);
    while i < n
        invariant
            n == s@.len(),
            i <= n,
            all_wf(s@),
            out@ == old(out)@ + enc_seq(s@.take(i as int)),
        decreases n - i,
    {
        let ghost before = out@;
        s[i].encode(out);
        proof {
            assert(s@.take(i + 1).drop_last() =~= s@.take(i as int));
            assert(out@ =~= old(out)@ + enc_seq(s@.take(i + 1)));
        }
        i = i + 1;
    }
    assert(s@.take(n as int) =~= s@);
}

/// The encoding of a single value as a fresh buffer.
pub fn encoded<T: Codec>(x: &T) -> (v: Vec<u8>)
    requires
        x.wf(),
    ensures
        v@ == x.enc(),
{
    let mut v = Vec::new();
    x.encode(&mut v);
    assert(v@ =~= x.enc());
    v
}

/// The concatenated encodings of a slice of values as a fresh buffer.
pub fn encoded_slice<T: Codec>(s: &[T]) -> (v: Vec<u8>)
    requires
        all_wf(s@),
    ensures
        v@ == enc_seq(s@),
{
    let mut v = Vec::new();
    encode_slice(s, &mut v);
    assert(v@ =~= enc_seq(s@));
    v
}

/// Reads a fixed-length array of values.
pub fn decode_array<T: Codec + Copy, const K: usize>(buf: &[u8], pos: usize, fill: T) -> (a: [T; K])
    requires
        pos + K * T::width() <= buf@.len(),
    ensures
        all_wf(a@),
        enc_seq(a@) == buf@.subrange(pos as int, pos + K * T::width()),
{
    let v = decode_vec::<T>(buf, pos, K);
    let mut a = [fill; K];
    let mut i: usize = 0;
    while i < K
        invariant
            v@.len() == K,
            a@.len() == K,
            i <= K,
            forall|j: int| 0 <= j < i ==> a@[j] == v@[j],
        decreases K - i,
    {
        a[i] = v[i];
        i = i + 1;
    }
    assert(a@ =~= v@);
    a
}

/// The value whose encoding sits at `pos` of `buf` (meaningful when
/// `pos + T::width() <= buf.len()`; any two such values have the same contents).
pub open spec fn decoded_at<T: Codec>(buf: Seq<u8>, pos: int) -> T {
    choose|v: T| v.wf() && v.enc() == buf.subrange(pos, pos + T::width())
}

pub proof fn lemma_decoded_at<T: Codec>(buf: Seq<u8>, pos: int, v: T)
    requires
        v.wf(),
        v.enc() == buf.subrange(pos, pos + T::width()),
    ensures
        decoded_at::<T>(buf, pos).wf(),
        decoded_at::<T>(buf, pos).same(&v),
        v.same(&decoded_at::<T>(buf, pos)),
{
    let d = decoded_at::<T>(buf, pos);
    assert(v.wf() && v.enc() == buf.subrange(pos, pos + T::width()));
    d.lemma_enc_injective(&v);
    v.lemma_enc_injective(&d);
}

/// A table of `count` entries of `w` bytes at `pos` lies inside a buffer of
/// `len` bytes. A table with no entries is read without touching the buffer.
pub open spec fn section_ok(len: nat, pos: int, count: int, w: nat) -> bool {
    count == 0 || pos + count * w <= len
}

/// The bytes of a table of `count` entries of `w` bytes at `pos`.
pub open spec fn section_bytes(buf: Seq<u8>, pos: int, count: int, w: nat) -> Seq<u8> {
    if count == 0 { Seq::empty() } else { buf.subrange(pos, pos + count * w) }
}

/// The number of whole entries of `w` bytes between `pos` and the end of
/// a buffer of `len` bytes.
pub open spec fn until_eof_count(len: nat, pos: int, w: nat) -> int {
    if pos <= len { (len - pos) / (w as int) } else { 0 }
}

/// `v` is the value encoded at `pos` of `buf`.
pub open spec fn record_parsed<T: Codec>(v: T, buf: Seq<u8>, pos: int) -> bool {
    &&& v.wf()
    &&& pos + T::width() <= buf.len()
    &&& v.enc() == buf.subrange(pos, pos + T::width())
}

/// `v` is the table of `count` entries encoded at `pos` of `buf`.
pub open spec fn section_parsed<T: Codec>(v: Seq<T>, buf: Seq<u8>, pos: int, count: int) -> bool {
    &&& v.len() == count
    &&& all_wf(v)
    &&& enc_seq(v) == section_bytes(buf, pos, count, T::width())
}

/// The entries of the table of `count` entries at `pos` of `buf`
/// (meaningful when the table lies inside `buf`; any two such tables have
/// entries with the same contents).
pub open spec fn section_entries<T: Codec>(buf: Seq<u8>, pos: int, count: int) -> Seq<T> {
    choose|v: Seq<T>| section_parsed(v, buf, pos, count)
}

pub proof fn lemma_section_entries<T: Codec>(buf: Seq<u8>, pos: int, count: int, v: Seq<T>)
    requires
        section_parsed(v, buf, pos, count),
    ensures
        section_parsed(section_entries::<T>(buf, pos, count), buf, pos, count),
        seq_same(section_entries::<T>(buf, pos, count), v),
{
    let d = section_entries::<T>(buf, pos, count);
    assert(section_parsed(v, buf, pos, count));
    lemma_enc_seq_injective(d, v);
}

/// Reads one value at `pos`, if it lies inside `buf`.
pub fn read_at<T: Codec>(buf: &[u8], pos: u64) -> (r: Option<T>)
    ensures
        r is Some <==> pos + T::width() <= buf@.len(),
        r matches Some(v) ==> record_parsed(v, buf@, pos as int),
{
    let w = T::byte_width();
    let len = buf.len();
    if pos <= len as u64 && w as u64 <= len as u64 - pos {
        Some(T::decode(buf, pos as usize))
    } else {
        None
    }
}

/// Reads a table of `count` entries at `pos`, if it lies inside `buf`.
pub fn read_section<T: Codec>(buf: &[u8], pos: u64, count: u64) -> (r: Option<Vec<T>>)
    requires
        T::width() > 0,
    ensures
        r is Some <==> section_ok(buf@.len(), pos as int, count as int, T::width()),
        r matches Some(v) ==> section_parsed(v@, buf@, pos as int, count as int),
{
    let w = T::byte_width();
    let len = buf.len();
    if count == 0 {
        let v: Vec<T> = Vec::new();
        assert(enc_seq(v@) =~= Seq::<u8>::empty());
        return Some(v);
    }
    let size = match count.checked_mul(w as u64) {
        Some(size) => size,
        None => {
            proof {
                assert(count * w >= w) by (nonlinear_arith)
                    requires
                        count >= 1,
                        w >= 1,
                ;
            }
            return None;
        },
    };
    if pos <= len as u64 && size <= len as u64 - pos {
        proof {
            assert(count <= count * w) by (nonlinear_arith)
                requires
                    w >= 1,
                    count >= 0,
            ;
        }
        let v = decode_vec::<T>(buf, pos as usize, count as usize);
        Some(v)
    } else {
        None
    }
}

/// Reads `count` raw bytes at `pos`, if they lie inside `buf`.
pub fn read_bytes(buf: &[u8], pos: u64, count: u64) -> (r: Option<Vec<u8>>)
    ensures
        r is Some <==> section_ok(buf@.len(), pos as int, count as int, 1),
        r matches Some(v) ==> v@ == section_bytes(buf@, pos as int, count as int, 1),
{
    if count == 0 {
        let v: Vec<u8> = Vec::new();
        assert(v@ =~= Seq::<u8>::empty());
        return Some(v);
    }
    let len = buf.len() as u64;
    if pos <= len && count <= len - pos {
        let s = vstd::slice::slice_subrange(buf, pos as usize, (pos + count) as usize);
        Some(vstd::slice::slice_to_vec(s))
    } else {
        None
    }
}

/// Where a table of `count` entries at `pos`, inside a buffer of `len`
/// bytes, ends.
pub fn section_end<T: Codec>(len: usize, pos: u64, count: u64) -> (end: u64)
    requires
        pos <= len,
        section_ok(len as nat, pos as int, count as int, T::width()),
    ensures
        end == pos + count * T::width(),
        end <= len,
{
    let w = T::byte_width() as u64;
    proof {
        assert(pos + count * w <= len) by (nonlinear_arith)
            requires
                count == 0 || pos + count * w <= len,
                pos <= len,
        ;
    }
    pos + count * w
}

/// Reads whole entries from `pos` up to the end of `buf`; a partial entry
/// at the end is left out.
pub fn read_until_eof<T: Codec>(buf: &[u8], pos: u64) -> (v: Vec<T>)
    requires
        T::width() > 0,
    ensures
        section_parsed(v@, buf@, pos as int, until_eof_count(buf@.len(), pos as int, T::width())),
{
    let w = T::byte_width();
    let len = buf.len();
    if pos > len as u64 {
        let v: Vec<T> = Vec::new();
        assert(enc_seq(v@) =~= Seq::<u8>::empty());
        return v;
    }
    let count = (len - pos as usize) / w;
    proof {
        let r = (len - pos) as int;
        assert(count * w <= r) by (nonlinear_arith)
            requires
                count == r / (w as int),
                w > 0,
                r >= 0,
        ;
    }
    let v = decode_vec::<T>(buf, pos as usize, count);
    if count == 0 {
        assert(enc_seq(v@) =~= Seq::<u8>::empty());
    }
    v
}

} // verus!
