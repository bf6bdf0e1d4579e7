//! The talk table (TLK V1) that holds the text of the game.
use vstd::prelude::*;

use crate::common::binary::{Codec, check_all_wf, enc_seq, all_wf, seq_same, lemma_subrange_concat, lemma_concat_peel, lemma_enc_seq_len, lemma_enc_seq_injective, decode_array, encoded, encoded_slice, decoded_at, lemma_decoded_at, record_parsed, section_parsed, section_entries, lemma_section_entries, read_at, read_section};
use crate::common::string_table::{str_table, str_table_fits, str_table_from, texts_of, utf8_total};
use vstd::utf8::encode_utf8;
use crate::common::text::{utf8_or_empty, utf8_str};
use crate::model::Parseable;
use crate::Error;
use zerovec::vecs::Index32;
use zerovec::VarZeroVec;

verus! {

#[derive(Debug, Clone, PartialEq)]
pub struct TLKHeader {
    pub signature: [u8; 4],
    pub version: [u8; 4],
    pub language_id: u16,
    pub count_of_entries: u32,
    pub offset_to_strings: u32,
}

impl TLKHeader {
    /// Encoding of the fields 0 to 4, in order.
    pub open spec fn bytes_0_5(&self) -> Seq<u8> {
        self.bytes_0_2() + self.bytes_2_5()
    }

    /// Encoding of the fields 0 to 1, in order.
    pub open spec fn bytes_0_2(&self) -> Seq<u8> {
        enc_seq(self.signature@) + enc_seq(self.version@)
    }

    /// Encoding of the fields 2 to 4, in order.
    pub open spec fn bytes_2_5(&self) -> Seq<u8> {
        self.language_id.enc() + self.bytes_3_5()
    }

    /// Encoding of the fields 3 to 4, in order.
    pub open spec fn bytes_3_5(&self) -> Seq<u8> {
        self.count_of_entries.enc() + self.offset_to_strings.enc()
    }
}

impl Codec for TLKHeader {
    open spec fn width() -> nat {
        18
    }

    open spec fn enc(&self) -> Seq<u8> {
        self.bytes_0_5()
    }

    open spec fn wf(&self) -> bool {
        &&& all_wf(self.signature@)
        &&& all_wf(self.version@)
    }

    open spec fn same(&self, other: &Self) -> bool {
        &&& seq_same(self.signature@, other.signature@)
        &&& seq_same(self.version@, other.version@)
        &&& self.language_id == other.language_id
        &&& self.count_of_entries == other.count_of_entries
        &&& self.offset_to_strings == other.offset_to_strings
    }

    fn byte_width() -> (n: usize) {
        18
    }

    fn check_wf(&self) -> (b: bool) {
        check_all_wf(self.signature.as_slice()) && check_all_wf(self.version.as_slice())
    }

    proof fn lemma_enc_len(&self) {
        lemma_enc_seq_len(self.signature@);
        lemma_enc_seq_len(self.version@);
        self.language_id.lemma_enc_len();
        self.count_of_entries.lemma_enc_len();
        self.offset_to_strings.lemma_enc_len();
    }

    proof fn lemma_enc_injective(&self, other: &Self) {
        lemma_enc_seq_len(self.signature@);
        lemma_enc_seq_len(self.version@);
        self.language_id.lemma_enc_len();
        self.count_of_entries.lemma_enc_len();
        self.offset_to_strings.lemma_enc_len();
        lemma_enc_seq_len(other.signature@);
        lemma_enc_seq_len(other.version@);
        other.language_id.lemma_enc_len();
        other.count_of_entries.lemma_enc_len();
        other.offset_to_strings.lemma_enc_len();
        lemma_concat_peel(self.bytes_0_2(), self.bytes_2_5(), other.bytes_0_2(), other.bytes_2_5());
        lemma_concat_peel(enc_seq(self.signature@), enc_seq(self.version@), enc_seq(other.signature@), enc_seq(other.version@));
        lemma_concat_peel(self.language_id.enc(), self.bytes_3_5(), other.language_id.enc(), other.bytes_3_5());
        lemma_concat_peel(self.count_of_entries.enc(), self.offset_to_strings.enc(), other.count_of_entries.enc(), other.offset_to_strings.enc());
        lemma_enc_seq_injective(self.signature@, other.signature@);
        lemma_enc_seq_injective(self.version@, other.version@);
        self.language_id.lemma_enc_injective(&other.language_id);
        self.count_of_entries.lemma_enc_injective(&other.count_of_entries);
        self.offset_to_strings.lemma_enc_injective(&other.offset_to_strings);
    }

    fn decode(buf: &[u8], pos: usize) -> (v: Self) {
        let len = buf.len();
        let fld0: [u8; 4] = decode_array(buf, pos + 0, 0u8);
        let fld1: [u8; 4] = decode_array(buf, pos + 4, 0u8);
        let fld2 = u16::decode(buf, pos + 8);
        let fld3 = u32::decode(buf, pos + 10);
        let fld4 = u32::decode(buf, pos + 14);
        let v = TLKHeader {
            signature: fld0,
            version: fld1,
            language_id: fld2,
            count_of_entries: fld3,
            offset_to_strings: fld4,
        };
        proof {
            lemma_subrange_concat(buf@, pos + 0, pos + 8, pos + 18);
            lemma_subrange_concat(buf@, pos + 0, pos + 4, pos + 8);
            lemma_subrange_concat(buf@, pos + 8, pos + 10, pos + 18);
            lemma_subrange_concat(buf@, pos + 10, pos + 14, pos + 18);
        }
        v
    }

    fn encode(&self, out: &mut Vec<u8>) {
        let mut b0 = encoded_slice(self.signature.as_slice());
        let mut b1 = encoded_slice(self.version.as_slice());
        let mut b2 = encoded(&self.language_id);
        let mut b3 = encoded(&self.count_of_entries);
        let mut b4 = encoded(&self.offset_to_strings);
        b3.append(&mut b4);
        b2.append(&mut b3);
        b0.append(&mut b1);
        b0.append(&mut b2);
        out.append(&mut b0);
    }
}

/// https://gibberlings3.github.io/iesdp/file_formats/ie_formats/tlk_v1.htm#tlkv1_Entry
#[derive(Debug, Clone, PartialEq)]
pub struct TLKEntry {
    /// 00 - No message data
    /// 01 - Text exists
    /// 02 - Sound exists
    /// 03 - Standard message. Ambient message. Used for sound without text (BG1) or message displayed over characters head (BG2) , Message with tags (for instance <CHARNAME>) for all games except BG2
    /// 04 - Token exists (for instance <CHARNAME>), BG2 and EEs only
    pub bit_field: u16,
    pub resource_name_of_associated_sound: [u8; 8],
    /// Unused, at minimum in BG1
    pub volume_variance: u32,
    /// Unused, at minimum in BG1
    pub pitch_variance: u32,
    /// Offset of this string relative to the strings section
    pub offset_to_this_string: u32,
    pub length_of_this_string: u32,
}

impl TLKEntry {
    /// Encoding of the fields 0 to 5, in order.
    pub open spec fn bytes_0_6(&self) -> Seq<u8> {
        self.bytes_0_3() + self.bytes_3_6()
    }

    /// Encoding of the fields 0 to 2, in order.
    pub open spec fn bytes_0_3(&self) -> Seq<u8> {
        self.bit_field.enc() + self.bytes_1_3()
    }

    /// Encoding of the fields 1 to 2, in order.
    pub open spec fn bytes_1_3(&self) -> Seq<u8> {
        enc_seq(self.resource_name_of_associated_sound@) + self.volume_variance.enc()
    }

    /// Encoding of the fields 3 to 5, in order.
    pub open spec fn bytes_3_6(&self) -> Seq<u8> {
        self.pitch_variance.enc() + self.bytes_4_6()
    }

    /// Encoding of the fields 4 to 5, in order.
    pub open spec fn bytes_4_6(&self) -> Seq<u8> {
        self.offset_to_this_string.enc() + self.length_of_this_string.enc()
    }
}

impl Codec for TLKEntry {
    open spec fn width() -> nat {
        26
    }

    open spec fn enc(&self) -> Seq<u8> {
        self.bytes_0_6()
    }

    open spec fn wf(&self) -> bool {
        all_wf(self.resource_name_of_associated_sound@)
    }

    open spec fn same(&self, other: &Self) -> bool {
        &&& self.bit_field == other.bit_field
        &&& seq_same(self.resource_name_of_associated_sound@, other.resource_name_of_associated_sound@)
        &&& self.volume_variance == other.volume_variance
        &&& self.pitch_variance == other.pitch_variance
        &&& self.offset_to_this_string == other.offset_to_this_string
        &&& self.length_of_this_string == other.length_of_this_string
    }

    fn byte_width() -> (n: usize) {
        26
    }

    fn check_wf(&self) -> (b: bool) {
        check_all_wf(self.resource_name_of_associated_sound.as_slice())
    }

    proof fn lemma_enc_len(&self) {
        self.bit_field.lemma_enc_len();
        lemma_enc_seq_len(self.resource_name_of_associated_sound@);
        self.volume_variance.lemma_enc_len();
        self.pitch_variance.lemma_enc_len();
        self.offset_to_this_string.lemma_enc_len();
        self.length_of_this_string.lemma_enc_len();
    }

    proof fn lemma_enc_injective(&self, other: &Self) {
        self.bit_field.lemma_enc_len();
        lemma_enc_seq_len(self.resource_name_of_associated_sound@);
        self.volume_variance.lemma_enc_len();
        self.pitch_variance.lemma_enc_len();
        self.offset_to_this_string.lemma_enc_len();
        self.length_of_this_string.lemma_enc_len();
        other.bit_field.lemma_enc_len();
        lemma_enc_seq_len(other.resource_name_of_associated_sound@);
        other.volume_variance.lemma_enc_len();
        other.pitch_variance.lemma_enc_len();
        other.offset_to_this_string.lemma_enc_len();
        other.length_of_this_string.lemma_enc_len();
        lemma_concat_peel(self.bytes_0_3(), self.bytes_3_6(), other.bytes_0_3(), other.bytes_3_6());
        lemma_concat_peel(self.bit_field.enc(), self.bytes_1_3(), other.bit_field.enc(), other.bytes_1_3());
        lemma_concat_peel(enc_seq(self.resource_name_of_associated_sound@), self.volume_variance.enc(), enc_seq(other.resource_name_of_associated_sound@), other.volume_variance.enc());
        lemma_concat_peel(self.pitch_variance.enc(), self.bytes_4_6(), other.pitch_variance.enc(), other.bytes_4_6());
        lemma_concat_peel(self.offset_to_this_string.enc(), self.length_of_this_string.enc(), other.offset_to_this_string.enc(), other.length_of_this_string.enc());
        self.bit_field.lemma_enc_injective(&other.bit_field);
        lemma_enc_seq_injective(self.resource_name_of_associated_sound@, other.resource_name_of_associated_sound@);
        self.volume_variance.lemma_enc_injective(&other.volume_variance);
        self.pitch_variance.lemma_enc_injective(&other.pitch_variance);
        self.offset_to_this_string.lemma_enc_injective(&other.offset_to_this_string);
        self.length_of_this_string.lemma_enc_injective(&other.length_of_this_string);
    }

    fn decode(buf: &[u8], pos: usize) -> (v: Self) {
        let len = buf.len();
        let fld0 = u16::decode(buf, pos + 0);
        let fld1: [u8; 8] = decode_array(buf, pos + 2, 0u8);
        let fld2 = u32::decode(buf, pos + 10);
        let fld3 = u32::decode(buf, pos + 14);
        let fld4 = u32::decode(buf, pos + 18);
        let fld5 = u32::decode(buf, pos + 22);
        let v = TLKEntry {
            bit_field: fld0,
            resource_name_of_associated_sound: fld1,
            volume_variance: fld2,
            pitch_variance: fld3,
            offset_to_this_string: fld4,
            length_of_this_string: fld5,
        };
        proof {
            lemma_subrange_concat(buf@, pos + 0, pos + 14, pos + 26);
            lemma_subrange_concat(buf@, pos + 0, pos + 2, pos + 14);
            lemma_subrange_concat(buf@, pos + 2, pos + 10, pos + 14);
            lemma_subrange_concat(buf@, pos + 14, pos + 18, pos + 26);
            lemma_subrange_concat(buf@, pos + 18, pos + 22, pos + 26);
        }
        v
    }

    fn encode(&self, out: &mut Vec<u8>) {
        let mut b0 = encoded(&self.bit_field);
        let mut b1 = encoded_slice(self.resource_name_of_associated_sound.as_slice());
        let mut b2 = encoded(&self.volume_variance);
        let mut b3 = encoded(&self.pitch_variance);
        let mut b4 = encoded(&self.offset_to_this_string);
        let mut b5 = encoded(&self.length_of_this_string);
        b4.append(&mut b5);
        b3.append(&mut b4);
        b1.append(&mut b2);
        b0.append(&mut b1);
        b0.append(&mut b3);
        out.append(&mut b0);
    }
}

/// Where the string of `e` starts in the file: the strings section's offset
/// plus the string's own.
pub open spec fn text_start(h: TLKHeader, e: TLKEntry) -> int {
    h.offset_to_strings + e.offset_to_this_string
}

/// Where the string of `e` ends in the file.
pub open spec fn text_end(h: TLKHeader, e: TLKEntry) -> int {
    text_start(h, e) + e.length_of_this_string
}

/// The texts of the entries `es` whose string lies inside `bytes`, in order;
/// a string that is not valid UTF-8 is read as empty text.
pub open spec fn tlk_texts(bytes: Seq<u8>, h: TLKHeader, es: Seq<TLKEntry>) -> Seq<Seq<char>>
    decreases es.len(),
{
    if es.len() == 0 {
        Seq::empty()
    } else {
        let prev = tlk_texts(bytes, h, es.drop_last());
        let e = es.last();
        if text_end(h, e) <= bytes.len() {
            prev.push(utf8_or_empty(bytes.subrange(text_start(h, e), text_end(h, e))))
        } else {
            prev
        }
    }
}

/// Every entry's string offset, added to the strings section's, fits in a
/// `u32`.
pub open spec fn text_offsets_fit(h: TLKHeader, es: Seq<TLKEntry>) -> bool {
    forall|i: int| 0 <= i < es.len() ==> #[trigger] text_start(h, es[i]) <= u32::MAX
}

/// A talk table: its header, its entries and the texts they point at.
/// <https://gibberlings3.github.io/iesdp/file_formats/ie_formats/tlk_v1.htm>
#[derive(Debug, PartialEq)]
pub struct TLK {
    pub header: TLKHeader,
    pub entries: Vec<TLKEntry>,
    /// The texts of the entries whose string lies inside the file.
    pub strings: VarZeroVec<'static, str, Index32>,
}

impl<'data> Parseable<'data> for TLK {}

impl TLK {
    /// Where the entries end: right after `count_of_entries` entries that
    /// follow the header.
    pub open spec fn entries_end(h: TLKHeader) -> int {
        TLKHeader::width() + h.count_of_entries * TLKEntry::width()
    }

    /// `bytes` hold a header and all the entries it counts.
    pub open spec fn readable(bytes: Seq<u8>) -> bool {
        &&& TLKHeader::width() <= bytes.len()
        &&& TLK::entries_end(decoded_at::<TLKHeader>(bytes, 0)) <= bytes.len()
    }

    /// Reading `bytes` runs to its end: when they hold a header and all its
    /// entries, the string offsets fit in a `u32` and the texts fit a table
    /// with 32-bit indices.
    pub open spec fn loadable(bytes: Seq<u8>) -> bool {
        forall|h: TLKHeader, es: Seq<TLKEntry>|
            #![trigger record_parsed(h, bytes, 0), section_parsed(es, bytes, TLKHeader::width() as int, h.count_of_entries as int)]
            TLK::readable(bytes) && record_parsed(h, bytes, 0)
                && section_parsed(es, bytes, TLKHeader::width() as int, h.count_of_entries as int)
                ==> text_offsets_fit(h, es) && str_table_fits(tlk_texts(bytes, h, es))
    }

    /// Reads the texts of `entries` from `bytes`.
    fn read_texts<'a>(bytes: &'a [u8], header: &TLKHeader, entries: &Vec<TLKEntry>) -> (list: Vec<&'a str>)
        requires
            text_offsets_fit(*header, entries@),
        ensures
            texts_of(list@) == tlk_texts(bytes@, *header, entries@),
    {
        let mut list: Vec<&'a str> = Vec::new();
        let mut i: usize = 0;
        while i < entries.len()
            invariant
                i <= entries@.len(),
                text_offsets_fit(*header, entries@),
                texts_of(list@) == tlk_texts(bytes@, *header, entries@.take(i as int)),
            decreases entries@.len() - i,
        {
            let e = &entries[i];
            assert(text_start(*header, entries@[i as int]) <= u32::MAX);
            let start = header.offset_to_strings + e.offset_to_this_string;
            let end = start as u64 + e.length_of_this_string as u64;
            let ghost before = list@;
            if end <= bytes.len() as u64 {
                let slice = vstd::slice::slice_subrange(bytes, start as usize, end as usize);
                let s: &'a str = match utf8_str(slice) {
                    Some(s) => s,
                    None => {
                        let empty: &'a str = "";
                        proof {
                            reveal_strlit("");
                        }
                        empty
                    },
                };
                assert(s@ =~= utf8_or_empty(slice@));
                list.push(s);
                proof {
                    assert(list@ == before.push(s));
                    assert(texts_of(list@) =~= texts_of(before).push(utf8_or_empty(slice@)));
                }
            }
            proof {
                let t = entries@.take(i + 1);
                assert(t.drop_last() =~= entries@.take(i as int));
                assert(t.last() == entries@[i as int]);
            }
            i = i + 1;
        }
        assert(entries@.take(entries@.len() as int) =~= entries@);
        list
    }

    /// Reads a talk table: the header, the entries that follow it, and the
    /// texts of the entries whose string lies inside `bytes`. Fails with
    /// `HeaderTooShort` when `bytes` cannot hold the header, and with
    /// `MissingEntries` when they cannot hold all the entries.
    pub fn try_from(bytes: &[u8]) -> (r: Result<TLK, Error>)
        requires
            TLK::loadable(bytes@),
        ensures
            r is Ok <==> TLK::readable(bytes@),
            r matches Err(e) ==> e == if bytes@.len() < TLKHeader::width() {
                Error::HeaderTooShort
            } else {
                Error::MissingEntries
            },
            r matches Ok(t) ==> {
                &&& record_parsed(t.header, bytes@, 0)
                &&& section_parsed(t.entries@, bytes@, TLKHeader::width() as int, t.header.count_of_entries as int)
                &&& str_table(t.strings) == tlk_texts(bytes@, t.header, t.entries@)
            },
    {
        let header = match read_at::<TLKHeader>(bytes, 0) {
            Some(h) => h,
            None => return Err(Error::HeaderTooShort),
        };
        proof {
            lemma_decoded_at(bytes@, 0, header);
            assert(decoded_at::<TLKHeader>(bytes@, 0).count_of_entries == header.count_of_entries);
        }
        let entries = match read_section::<TLKEntry>(bytes, TLKHeader::byte_width() as u64, header.count_of_entries as u64) {
            Some(v) => v,
            None => return Err(Error::MissingEntries),
        };
        proof {
            assert(record_parsed(header, bytes@, 0));
        }
        let list = TLK::read_texts(bytes, &header, &entries);
        let strings = str_table_from(&list);
        Ok(TLK { header, entries, strings })
    }

    /// Writes a talk table. The header is copied into the output buffer as
    /// it stands, which is empty and so never the header's size: writing
    /// always fails with `HeaderNotWritten`.
    pub fn try_into(self) -> (r: Result<Vec<u8>, Error>)
        ensures
            r == Err::<Vec<u8>, Error>(Error::HeaderNotWritten),
    {
        let buffer: Vec<u8> = Vec::new();
        if buffer.len() != TLKHeader::byte_width() {
            return Err(Error::HeaderNotWritten);
        }
        Ok(buffer)
    }
}

/// Two tables of entries with the same contents are equal.
proof fn lemma_tlk_entries_same(a: Seq<TLKEntry>, b: Seq<TLKEntry>)
    requires
        seq_same(a, b),
    ensures
        a == b,
{
    broadcast use vstd::array::group_array_axioms;

    assert forall|i: int| 0 <= i < a.len() implies a[i] == b[i] by {
        assert(a[i].same(&b[i]));
        let x = a[i].resource_name_of_associated_sound;
        let y = b[i].resource_name_of_associated_sound;
        assert forall|j: int| 0 <= j < 8 implies x[j] == y[j] by {
            assert(x@[j].same(&y@[j]));
        }
        assert(x =~= y);
    }
    assert(a =~= b);
}

/// Two headers with the same contents are equal.
proof fn lemma_tlk_headers_same(a: TLKHeader, b: TLKHeader)
    requires
        a.same(&b),
    ensures
        a == b,
{
    broadcast use vstd::array::group_array_axioms;

    assert forall|j: int| 0 <= j < 4 implies a.signature[j] == b.signature[j] by {
        assert(a.signature@[j].same(&b.signature@[j]));
    }
    assert forall|j: int| 0 <= j < 4 implies a.version[j] == b.version[j] by {
        assert(a.version@[j].same(&b.version@[j]));
    }
    assert(a.signature =~= b.signature);
    assert(a.version =~= b.version);
}

/// When `bytes` hold a header and its entries, reading runs to its end
/// exactly when their offsets and texts fit.
proof fn lemma_tlk_loadable(bytes: Seq<u8>, header: TLKHeader, entries: Seq<TLKEntry>)
    requires
        TLK::readable(bytes),
        record_parsed(header, bytes, 0),
        section_parsed(entries, bytes, TLKHeader::width() as int, header.count_of_entries as int),
    ensures
        TLK::loadable(bytes) == (text_offsets_fit(header, entries) && str_table_fits(tlk_texts(bytes, header, entries))),
{
    assert forall|h: TLKHeader, es: Seq<TLKEntry>|
        record_parsed(h, bytes, 0) && section_parsed(es, bytes, TLKHeader::width() as int, h.count_of_entries as int)
            implies h == header && es == entries by {
        lemma_decoded_at(bytes, 0, h);
        lemma_decoded_at(bytes, 0, header);
        let d = decoded_at::<TLKHeader>(bytes, 0);
        lemma_tlk_headers_same(d, h);
        lemma_tlk_headers_same(d, header);
        let n = header.count_of_entries as int;
        lemma_section_entries(bytes, TLKHeader::width() as int, n, es);
        lemma_section_entries(bytes, TLKHeader::width() as int, n, entries);
        lemma_tlk_entries_same(section_entries::<TLKEntry>(bytes, TLKHeader::width() as int, n), es);
        lemma_tlk_entries_same(section_entries::<TLKEntry>(bytes, TLKHeader::width() as int, n), entries);
    }
}

/// The number of UTF-8 bytes of the text of `e`, when its string lies
/// inside `bytes`.
fn text_size(bytes: &[u8], header: &TLKHeader, e: &TLKEntry) -> (n: u64)
    requires
        text_start(*header, *e) <= u32::MAX,
        text_end(*header, *e) <= bytes@.len(),
    ensures
        n == encode_utf8(utf8_or_empty(bytes@.subrange(text_start(*header, *e), text_end(*header, *e)))).len(),
        n <= u32::MAX,
{
    let start = header.offset_to_strings + e.offset_to_this_string;
    let end = start as u64 + e.length_of_this_string as u64;
    assert(start == text_start(*header, *e));
    assert(end == text_end(*header, *e));
    let n = bytes.len();
    assert(end <= n);
    let slice = vstd::slice::slice_subrange(bytes, start as usize, end as usize);
    assert(slice@ == bytes@.subrange(text_start(*header, *e), text_end(*header, *e)));
    match utf8_str(slice) {
        Some(_) => {
            proof {
                vstd::utf8::decode_utf8_encode_utf8(slice@);
            }
            e.length_of_this_string as u64
        },
        None => {
            assert(encode_utf8(Seq::<char>::empty()) =~= Seq::<u8>::empty());
            0
        },
    }
}

/// A prefix of a list of texts holds no more bytes than the list.
proof fn lemma_texts_total_prefix(strs: Seq<Seq<char>>, k: int)
    requires
        0 <= k <= strs.len(),
    ensures
        utf8_total(strs.take(k)) <= utf8_total(strs),
    decreases strs.len(),
{
    if k < strs.len() {
        assert(strs.drop_last().take(k) =~= strs.take(k));
        lemma_texts_total_prefix(strs.drop_last(), k);
    } else {
        assert(strs.take(k) =~= strs);
    }
}

/// The texts of entries grow by at most one text per entry.
proof fn lemma_texts_len(bytes: Seq<u8>, h: TLKHeader, es: Seq<TLKEntry>)
    ensures
        tlk_texts(bytes, h, es).len() <= es.len(),
    decreases es.len(),
{
    if es.len() > 0 {
        lemma_texts_len(bytes, h, es.drop_last());
    }
}

/// Whether the offsets of `entries` fit in a `u32` and their texts fit a
/// table with 32-bit indices.
fn texts_fit(bytes: &[u8], header: &TLKHeader, entries: &Vec<TLKEntry>) -> (b: bool)
    ensures
        b == (text_offsets_fit(*header, entries@) && str_table_fits(tlk_texts(bytes@, *header, entries@))),
{
    let ghost all = tlk_texts(bytes@, *header, entries@);
    let mut count: u64 = 0;
    let mut total: u64 = 0;
    let mut i: usize = 0;
    while i < entries.len()
        invariant
            i <= entries@.len(),
            all == tlk_texts(bytes@, *header, entries@),
            forall|j: int| 0 <= j < i ==> #[trigger] text_start(*header, entries@[j]) <= u32::MAX,
            count == tlk_texts(bytes@, *header, entries@.take(i as int)).len(),
            total == utf8_total(tlk_texts(bytes@, *header, entries@.take(i as int))),
            4 * (count + 1) + total <= u32::MAX,
        decreases entries@.len() - i,
    {
        let e = &entries[i];
        let ghost before = tlk_texts(bytes@, *header, entries@.take(i as int));
        proof {
            let t = entries@.take(i + 1);
            assert(t.drop_last() =~= entries@.take(i as int));
            assert(t.last() == entries@[i as int]);
        }
        if header.offset_to_strings as u64 + e.offset_to_this_string as u64 > u32::MAX as u64 {
            proof {
                assert(!(text_start(*header, entries@[i as int]) <= u32::MAX));
            }
            return false;
        }
        let start = header.offset_to_strings + e.offset_to_this_string;
        let end = start as u64 + e.length_of_this_string as u64;
        if end <= bytes.len() as u64 {
            let s = text_size(bytes, header, e);
            let ghost after = tlk_texts(bytes@, *header, entries@.take(i + 1));
            assert(after == before.push(after.last()));
            assert(after.drop_last() =~= before);
            if 4 * (count + 2) + total + s > u32::MAX as u64 {
                proof {
                    lemma_rest_fits(bytes@, *header, entries@, i + 1);
                }
                return false;
            }
            count = count + 1;
            total = total + s;
        }
        i = i + 1;
    }
    assert(entries@.take(entries@.len() as int) =~= entries@);
    true
}

/// Once the texts of a prefix of the entries do not fit, neither do those
/// of all the entries.
proof fn lemma_rest_fits(bytes: Seq<u8>, h: TLKHeader, es: Seq<TLKEntry>, k: int)
    requires
        0 <= k <= es.len(),
        !str_table_fits(tlk_texts(bytes, h, es.take(k))),
    ensures
        !str_table_fits(tlk_texts(bytes, h, es)),
    decreases es.len() - k,
{
    if k < es.len() {
        let t = es.take(k + 1);
        assert(t.drop_last() =~= es.take(k));
        let a = tlk_texts(bytes, h, es.take(k));
        let b = tlk_texts(bytes, h, t);
        if b.len() > a.len() {
            assert(b.drop_last() =~= a);
        }
        lemma_rest_fits(bytes, h, es, k + 1);
    } else {
        assert(es.take(k) =~= es);
    }
}

impl TLK {
    /// Whether reading `bytes` runs to its end, as `loadable` says.
    pub fn check_loadable(bytes: &[u8]) -> (b: bool)
        ensures
            b == TLK::loadable(bytes@),
    {
        let header = match read_at::<TLKHeader>(bytes, 0) {
            Some(h) => h,
            None => return true,
        };
        proof {
            lemma_decoded_at(bytes@, 0, header);
            lemma_tlk_headers_same(decoded_at::<TLKHeader>(bytes@, 0), header);
        }
        let entries = match read_section::<TLKEntry>(bytes, TLKHeader::byte_width() as u64, header.count_of_entries as u64) {
            Some(v) => v,
            None => return true,
        };
        proof {
            lemma_tlk_loadable(bytes@, header, entries@);
        }
        texts_fit(bytes, &header, &entries)
    }
}

} // verus!
