//! The key file (KEY V1) that indexes the resources of the game.
use vstd::prelude::*;

use crate::common::binary::{Codec, seq_same, lemma_subrange_concat, lemma_concat_peel, encoded, lemma_decoded_at, record_parsed, section_parsed, section_entries, lemma_section_entries, read_at, read_section};
use crate::common::{ZeroCharArray, ZeroResref};
use crate::common::string_table::{str_table, str_table_fits, str_table_push, str_table_with_capacity, utf8_total};
use crate::common::text::{utf8_or_empty, utf8_str};
use crate::model::Parseable;
use crate::Error;
use vstd::utf8::encode_utf8;
use zerovec::vecs::Index32;
use zerovec::VarZeroVec;

verus! {

#[derive(Debug, Clone, PartialEq)]
pub struct KeyHeader {
    pub signature: ZeroCharArray,
    pub version: ZeroCharArray,
    pub count_of_bif_entries: u32,
    pub count_of_resource_entries: u32,
    pub offset_to_bif_entries: u32,
    pub offset_to_resource_entries: u32,
}

impl KeyHeader {
    /// Encoding of the fields 0 to 5, in order.
    pub open spec fn bytes_0_6(&self) -> Seq<u8> {
        self.bytes_0_3() + self.bytes_3_6()
    }

    /// Encoding of the fields 0 to 2, in order.
    pub open spec fn bytes_0_3(&self) -> Seq<u8> {
        self.signature.enc() + self.bytes_1_3()
    }

    /// Encoding of the fields 1 to 2, in order.
    pub open spec fn bytes_1_3(&self) -> Seq<u8> {
        self.version.enc() + self.count_of_bif_entries.enc()
    }

    /// Encoding of the fields 3 to 5, in order.
    pub open spec fn bytes_3_6(&self) -> Seq<u8> {
        self.count_of_resource_entries.enc() + self.bytes_4_6()
    }

    /// Encoding of the fields 4 to 5, in order.
    pub open spec fn bytes_4_6(&self) -> Seq<u8> {
        self.offset_to_bif_entries.enc() + self.offset_to_resource_entries.enc()
    }
}

impl Codec for KeyHeader {
    open spec fn width() -> nat {
        24
    }

    open spec fn enc(&self) -> Seq<u8> {
        self.bytes_0_6()
    }

    open spec fn wf(&self) -> bool {
        true
    }

    open spec fn same(&self, other: &Self) -> bool {
        &&& self.signature.same(&other.signature)
        &&& self.version.same(&other.version)
        &&& self.count_of_bif_entries == other.count_of_bif_entries
        &&& self.count_of_resource_entries == other.count_of_resource_entries
        &&& self.offset_to_bif_entries == other.offset_to_bif_entries
        &&& self.offset_to_resource_entries == other.offset_to_resource_entries
    }

    fn byte_width() -> (n: usize) {
        24
    }

    fn check_wf(&self) -> (b: bool) {
        true
    }

    proof fn lemma_enc_len(&self) {
        self.signature.lemma_enc_len();
        self.version.lemma_enc_len();
        self.count_of_bif_entries.lemma_enc_len();
        self.count_of_resource_entries.lemma_enc_len();
        self.offset_to_bif_entries.lemma_enc_len();
        self.offset_to_resource_entries.lemma_enc_len();
    }

    proof fn lemma_enc_injective(&self, other: &Self) {
        self.signature.lemma_enc_len();
        self.version.lemma_enc_len();
        self.count_of_bif_entries.lemma_enc_len();
        self.count_of_resource_entries.lemma_enc_len();
        self.offset_to_bif_entries.lemma_enc_len();
        self.offset_to_resource_entries.lemma_enc_len();
        other.signature.lemma_enc_len();
        other.version.lemma_enc_len();
        other.count_of_bif_entries.lemma_enc_len();
        other.count_of_resource_entries.lemma_enc_len();
        other.offset_to_bif_entries.lemma_enc_len();
        other.offset_to_resource_entries.lemma_enc_len();
        lemma_concat_peel(self.bytes_0_3(), self.bytes_3_6(), other.bytes_0_3(), other.bytes_3_6());
        lemma_concat_peel(self.signature.enc(), self.bytes_1_3(), other.signature.enc(), other.bytes_1_3());
        lemma_concat_peel(self.version.enc(), self.count_of_bif_entries.enc(), other.version.enc(), other.count_of_bif_entries.enc());
        lemma_concat_peel(self.count_of_resource_entries.enc(), self.bytes_4_6(), other.count_of_resource_entries.enc(), other.bytes_4_6());
        lemma_concat_peel(self.offset_to_bif_entries.enc(), self.offset_to_resource_entries.enc(), other.offset_to_bif_entries.enc(), other.offset_to_resource_entries.enc());
        self.signature.lemma_enc_injective(&other.signature);
        self.version.lemma_enc_injective(&other.version);
        self.count_of_bif_entries.lemma_enc_injective(&other.count_of_bif_entries);
        self.count_of_resource_entries.lemma_enc_injective(&other.count_of_resource_entries);
        self.offset_to_bif_entries.lemma_enc_injective(&other.offset_to_bif_entries);
        self.offset_to_resource_entries.lemma_enc_injective(&other.offset_to_resource_entries);
    }

    fn decode(buf: &[u8], pos: usize) -> (v: Self) {
        let len = buf.len();
        let fld0 = ZeroCharArray::decode(buf, pos + 0);
        let fld1 = ZeroCharArray::decode(buf, pos + 4);
        let fld2 = u32::decode(buf, pos + 8);
        let fld3 = u32::decode(buf, pos + 12);
        let fld4 = u32::decode(buf, pos + 16);
        let fld5 = u32::decode(buf, pos + 20);
        let v = KeyHeader {
            signature: fld0,
            version: fld1,
            count_of_bif_entries: fld2,
            count_of_resource_entries: fld3,
            offset_to_bif_entries: fld4,
            offset_to_resource_entries: fld5,
        };
        proof {
            lemma_subrange_concat(buf@, pos + 0, pos + 12, pos + 24);
            lemma_subrange_concat(buf@, pos + 0, pos + 4, pos + 12);
            lemma_subrange_concat(buf@, pos + 4, pos + 8, pos + 12);
            lemma_subrange_concat(buf@, pos + 12, pos + 16, pos + 24);
            lemma_subrange_concat(buf@, pos + 16, pos + 20, pos + 24);
        }
        v
    }

    fn encode(&self, out: &mut Vec<u8>) {
        let mut b0 = encoded(&self.signature);
        let mut b1 = encoded(&self.version);
        let mut b2 = encoded(&self.count_of_bif_entries);
        let mut b3 = encoded(&self.count_of_resource_entries);
        let mut b4 = encoded(&self.offset_to_bif_entries);
        let mut b5 = encoded(&self.offset_to_resource_entries);
        b4.append(&mut b5);
        b3.append(&mut b4);
        b1.append(&mut b2);
        b0.append(&mut b1);
        b0.append(&mut b3);
        out.append(&mut b0);
    }
}

/// https://gibberlings3.github.io/iesdp/file_formats/ie_formats/key_v1.htm#keyv1_BifIndices
#[derive(Debug, Clone, PartialEq)]
pub struct BiffEntry {
    pub file_length: u32,
    pub offset_to_file_name: u32,
    pub file_name_length: u16,
    pub file_location: u16,
}

impl BiffEntry {
    /// Encoding of the fields 0 to 3, in order.
    pub open spec fn bytes_0_4(&self) -> Seq<u8> {
        self.bytes_0_2() + self.bytes_2_4()
    }

    /// Encoding of the fields 0 to 1, in order.
    pub open spec fn bytes_0_2(&self) -> Seq<u8> {
        self.file_length.enc() + self.offset_to_file_name.enc()
    }

    /// Encoding of the fields 2 to 3, in order.
    pub open spec fn bytes_2_4(&self) -> Seq<u8> {
        self.file_name_length.enc() + self.file_location.enc()
    }
}

impl Codec for BiffEntry {
    open spec fn width() -> nat {
        12
    }

    open spec fn enc(&self) -> Seq<u8> {
        self.bytes_0_4()
    }

    open spec fn wf(&self) -> bool {
        true
    }

    open spec fn same(&self, other: &Self) -> bool {
        &&& self.file_length == other.file_length
        &&& self.offset_to_file_name == other.offset_to_file_name
        &&& self.file_name_length == other.file_name_length
        &&& self.file_location == other.file_location
    }

    fn byte_width() -> (n: usize) {
        12
    }

    fn check_wf(&self) -> (b: bool) {
        true
    }

    proof fn lemma_enc_len(&self) {
        self.file_length.lemma_enc_len();
        self.offset_to_file_name.lemma_enc_len();
        self.file_name_length.lemma_enc_len();
        self.file_location.lemma_enc_len();
    }

    proof fn lemma_enc_injective(&self, other: &Self) {
        self.file_length.lemma_enc_len();
        self.offset_to_file_name.lemma_enc_len();
        self.file_name_length.lemma_enc_len();
        self.file_location.lemma_enc_len();
        other.file_length.lemma_enc_len();
        other.offset_to_file_name.lemma_enc_len();
        other.file_name_length.lemma_enc_len();
        other.file_location.lemma_enc_len();
        lemma_concat_peel(self.bytes_0_2(), self.bytes_2_4(), other.bytes_0_2(), other.bytes_2_4());
        lemma_concat_peel(self.file_length.enc(), self.offset_to_file_name.enc(), other.file_length.enc(), other.offset_to_file_name.enc());
        lemma_concat_peel(self.file_name_length.enc(), self.file_location.enc(), other.file_name_length.enc(), other.file_location.enc());
        self.file_length.lemma_enc_injective(&other.file_length);
        self.offset_to_file_name.lemma_enc_injective(&other.offset_to_file_name);
        self.file_name_length.lemma_enc_injective(&other.file_name_length);
        self.file_location.lemma_enc_injective(&other.file_location);
    }

    fn decode(buf: &[u8], pos: usize) -> (v: Self) {
        let len = buf.len();
        let fld0 = u32::decode(buf, pos + 0);
        let fld1 = u32::decode(buf, pos + 4);
        let fld2 = u16::decode(buf, pos + 8);
        let fld3 = u16::decode(buf, pos + 10);
        let v = BiffEntry {
            file_length: fld0,
            offset_to_file_name: fld1,
            file_name_length: fld2,
            file_location: fld3,
        };
        proof {
            lemma_subrange_concat(buf@, pos + 0, pos + 8, pos + 12);
            lemma_subrange_concat(buf@, pos + 0, pos + 4, pos + 8);
            lemma_subrange_concat(buf@, pos + 8, pos + 10, pos + 12);
        }
        v
    }

    fn encode(&self, out: &mut Vec<u8>) {
        let mut b0 = encoded(&self.file_length);
        let mut b1 = encoded(&self.offset_to_file_name);
        let mut b2 = encoded(&self.file_name_length);
        let mut b3 = encoded(&self.file_location);
        b2.append(&mut b3);
        b0.append(&mut b1);
        b0.append(&mut b2);
        out.append(&mut b0);
    }
}

/// https://gibberlings3.github.io/iesdp/file_formats/ie_formats/key_v1.htm#keyv1_ResIndices
#[derive(Debug, Clone, PartialEq)]
pub struct ResourceEntry {
    pub name: ZeroResref,
    pub resource_type: u16,
    pub locator: u32,
}

impl ResourceEntry {
    /// Encoding of the fields 0 to 2, in order.
    pub open spec fn bytes_0_3(&self) -> Seq<u8> {
        self.name.enc() + self.bytes_1_3()
    }

    /// Encoding of the fields 1 to 2, in order.
    pub open spec fn bytes_1_3(&self) -> Seq<u8> {
        self.resource_type.enc() + self.locator.enc()
    }
}

impl Codec for ResourceEntry {
    open spec fn width() -> nat {
        14
    }

    open spec fn enc(&self) -> Seq<u8> {
        self.bytes_0_3()
    }

    open spec fn wf(&self) -> bool {
        true
    }

    open spec fn same(&self, other: &Self) -> bool {
        &&& self.name.same(&other.name)
        &&& self.resource_type == other.resource_type
        &&& self.locator == other.locator
    }

    fn byte_width() -> (n: usize) {
        14
    }

    fn check_wf(&self) -> (b: bool) {
        true
    }

    proof fn lemma_enc_len(&self) {
        self.name.lemma_enc_len();
        self.resource_type.lemma_enc_len();
        self.locator.lemma_enc_len();
    }

    proof fn lemma_enc_injective(&self, other: &Self) {
        self.name.lemma_enc_len();
        self.resource_type.lemma_enc_len();
        self.locator.lemma_enc_len();
        other.name.lemma_enc_len();
        other.resource_type.lemma_enc_len();
        other.locator.lemma_enc_len();
        lemma_concat_peel(self.name.enc(), self.bytes_1_3(), other.name.enc(), other.bytes_1_3());
        lemma_concat_peel(self.resource_type.enc(), self.locator.enc(), other.resource_type.enc(), other.locator.enc());
        self.name.lemma_enc_injective(&other.name);
        self.resource_type.lemma_enc_injective(&other.resource_type);
        self.locator.lemma_enc_injective(&other.locator);
    }

    fn decode(buf: &[u8], pos: usize) -> (v: Self) {
        let len = buf.len();
        let fld0 = ZeroResref::decode(buf, pos + 0);
        let fld1 = u16::decode(buf, pos + 8);
        let fld2 = u32::decode(buf, pos + 10);
        let v = ResourceEntry {
            name: fld0,
            resource_type: fld1,
            locator: fld2,
        };
        proof {
            lemma_subrange_concat(buf@, pos + 0, pos + 8, pos + 14);
            lemma_subrange_concat(buf@, pos + 8, pos + 10, pos + 14);
        }
        v
    }

    fn encode(&self, out: &mut Vec<u8>) {
        let mut b0 = encoded(&self.name);
        let mut b1 = encoded(&self.resource_type);
        let mut b2 = encoded(&self.locator);
        b1.append(&mut b2);
        b0.append(&mut b1);
        out.append(&mut b0);
    }
}

/// The file name of `e`: the `file_name_length` bytes at `offset_to_file_name`
/// of the file. A name that does not lie inside the file is empty, and so is
/// one that is not valid UTF-8.
pub open spec fn key_name(bytes: Seq<u8>, e: BiffEntry) -> Seq<char> {
    let start = e.offset_to_file_name as int;
    let end = start + e.file_name_length;
    if end <= bytes.len() { utf8_or_empty(bytes.subrange(start, end)) } else { Seq::empty() }
}

/// The file names of the entries `es`, in order.
pub open spec fn key_names(bytes: Seq<u8>, es: Seq<BiffEntry>) -> Seq<Seq<char>> {
    Seq::new(es.len(), |i: int| key_name(bytes, es[i]))
}

/// A prefix of a table of strings holds no more bytes than the table.
proof fn lemma_utf8_total_prefix(strs: Seq<Seq<char>>, k: int)
    requires
        0 <= k <= strs.len(),
    ensures
        utf8_total(strs.take(k)) <= utf8_total(strs),
    decreases strs.len(),
{
    if k < strs.len() {
        assert(strs.drop_last().take(k) =~= strs.take(k));
        lemma_utf8_total_prefix(strs.drop_last(), k);
    } else {
        assert(strs.take(k) =~= strs);
    }
}

/// The name of `e` read from `buffer`.
fn name_of<'a>(buffer: &'a [u8], e: &BiffEntry) -> (s: &'a str)
    ensures
        s@ == key_name(buffer@, *e),
{
    let start = e.offset_to_file_name as u64;
    let end = e.file_name_length as u64 + start;
    if end <= buffer.len() as u64 {
        let slice = vstd::slice::slice_subrange(buffer, start as usize, end as usize);
        match utf8_str(slice) {
            Some(s) => s,
            None => {
                proof {
                    reveal_strlit("");
                }
                ""
            },
        }
    } else {
        proof {
            reveal_strlit("");
        }
        ""
    }
}

/// Reads the file name of every entry of `entries` from `buffer`, the whole
/// file.
pub fn read_key_strings(buffer: &[u8], entries: &Vec<BiffEntry>) -> (names: VarZeroVec<'static, str, Index32>)
    requires
        str_table_fits(key_names(buffer@, entries@)),
    ensures
        str_table(names) == key_names(buffer@, entries@),
{
    let mut out = str_table_with_capacity(entries.len());
    let mut i: usize = 0;
    while i < entries.len()
        invariant
            i <= entries@.len(),
            str_table_fits(key_names(buffer@, entries@)),
            str_table(out) == key_names(buffer@, entries@).take(i as int),
        decreases entries@.len() - i,
    {
        let s = name_of(buffer, &entries[i]);
        proof {
            let names = key_names(buffer@, entries@);
            assert(s@ =~= names[i as int]);
            assert(names.take(i + 1) =~= names.take(i as int).push(s@));
            lemma_utf8_total_prefix(names, i + 1);
        }
        str_table_push(&mut out, s);
        i = i + 1;
    }
    assert(key_names(buffer@, entries@).take(entries@.len() as int) =~= key_names(buffer@, entries@));
    out
}

/// The key file: the index of the biff files and of the resources in them.
/// <https://gibberlings3.github.io/iesdp/file_formats/ie_formats/key_v1.htm>
#[derive(Debug)]
pub struct Key {
    pub header: KeyHeader,
    pub bif_entries: Vec<BiffEntry>,
    pub bif_file_names: VarZeroVec<'static, str, Index32>,
    pub resource_entries: Vec<ResourceEntry>,
}

impl<'data> Parseable<'data> for Key {}

impl Key {
    /// The number of biff entries read: all `count_of_bif_entries` entries
    /// at `offset_to_bif_entries`, or none when they do not lie inside the
    /// file.
    pub open spec fn bif_count(bytes: Seq<u8>, h: KeyHeader) -> int {
        if h.offset_to_bif_entries + h.count_of_bif_entries * BiffEntry::width() <= bytes.len() {
            h.count_of_bif_entries as int
        } else {
            0
        }
    }

    /// The number of resource entries read: all `count_of_resource_entries`
    /// entries at `offset_to_resource_entries`, or none when they do not lie
    /// inside the file.
    pub open spec fn resource_count(bytes: Seq<u8>, h: KeyHeader) -> int {
        if h.offset_to_resource_entries + h.count_of_resource_entries * ResourceEntry::width() <= bytes.len() {
            h.count_of_resource_entries as int
        } else {
            0
        }
    }

    /// Reading `bytes` runs to its end: whatever header and biff entries
    /// they hold, the names fit a table with 32-bit indices.
    pub open spec fn loadable(bytes: Seq<u8>) -> bool {
        forall|h: KeyHeader, es: Seq<BiffEntry>|
            #![trigger record_parsed(h, bytes, 0), section_parsed(es, bytes, h.offset_to_bif_entries as int, Key::bif_count(bytes, h))]
            record_parsed(h, bytes, 0) && section_parsed(es, bytes, h.offset_to_bif_entries as int, Key::bif_count(bytes, h))
                ==> str_table_fits(key_names(bytes, es))
    }

    /// Why reading `bytes` fails, if it does: `HeaderTooShort` when they
    /// cannot hold the header.
    pub open spec fn read_error(bytes: Seq<u8>) -> Option<Error> {
        if bytes.len() < KeyHeader::width() { Some(Error::HeaderTooShort) } else { None }
    }

    /// `self` is the key file read from `bytes`.
    pub open spec fn read_from(&self, bytes: Seq<u8>) -> bool {
        &&& record_parsed(self.header, bytes, 0)
        &&& section_parsed(self.bif_entries@, bytes, self.header.offset_to_bif_entries as int, Key::bif_count(bytes, self.header))
        &&& str_table(self.bif_file_names) == key_names(bytes, self.bif_entries@)
        &&& section_parsed(
            self.resource_entries@,
            bytes,
            self.header.offset_to_resource_entries as int,
            Key::resource_count(bytes, self.header),
        )
    }

    /// Reads a key file: the header, the biff entries, their file names and
    /// the resource entries; fails as `read_error` says.
    pub fn try_from(bytes: &[u8]) -> (r: Result<Key, Error>)
        requires
            Key::loadable(bytes@),
        ensures
            match Key::read_error(bytes@) {
                Some(e) => r is Err && r->Err_0 == e,
                None => r matches Ok(k) && k.read_from(bytes@),
            },
    {
        let header = match read_at::<KeyHeader>(bytes, 0) {
            Some(h) => h,
            None => return Err(Error::HeaderTooShort),
        };
        let (bif_entries, resource_entries) = Key::tables(bytes, &header);
        proof {
            assert(record_parsed(header, bytes@, 0));
        }
        let bif_file_names = read_key_strings(bytes, &bif_entries);
        Ok(Key { header, bif_entries, bif_file_names, resource_entries })
    }

    /// Reads the biff and resource entries that `header` places.
    fn tables(bytes: &[u8], header: &KeyHeader) -> (r: (Vec<BiffEntry>, Vec<ResourceEntry>))
        ensures
            section_parsed(r.0@, bytes@, header.offset_to_bif_entries as int, Key::bif_count(bytes@, *header)),
            section_parsed(r.1@, bytes@, header.offset_to_resource_entries as int, Key::resource_count(bytes@, *header)),
    {
        let len = bytes.len() as u64;
        let b_at = header.offset_to_bif_entries as u64;
        let b_n = header.count_of_bif_entries as u64;
        let b_count: u64 = if b_at + b_n * 12 <= len { b_n } else { 0 };
        let bif_entries = match read_section::<BiffEntry>(bytes, b_at, b_count) {
            Some(v) => v,
            None => {
                assert(false);
                Vec::new()
            },
        };
        let r_at = header.offset_to_resource_entries as u64;
        let r_n = header.count_of_resource_entries as u64;
        let r_count: u64 = if r_at + r_n * 14 <= len { r_n } else { 0 };
        let resource_entries = match read_section::<ResourceEntry>(bytes, r_at, r_count) {
            Some(v) => v,
            None => {
                assert(false);
                Vec::new()
            },
        };
        (bif_entries, resource_entries)
    }

    /// Writes a key file. The header is copied into the output buffer as it
    /// stands, which is empty and so never the header's size: writing always
    /// fails with `HeaderNotWritten`.
    pub fn try_into(self) -> (r: Result<Vec<u8>, Error>)
        ensures
            r == Err::<Vec<u8>, Error>(Error::HeaderNotWritten),
    {
        let buffer: Vec<u8> = Vec::new();
        if buffer.len() != KeyHeader::byte_width() {
            return Err(Error::HeaderNotWritten);
        }
        Ok(buffer)
    }
}

/// Two tables of biff entries with the same contents are equal.
proof fn lemma_bif_entries_same(a: Seq<BiffEntry>, b: Seq<BiffEntry>)
    requires
        seq_same(a, b),
    ensures
        a == b,
{
    assert forall|i: int| 0 <= i < a.len() implies a[i] == b[i] by {
        assert(a[i].same(&b[i]));
    }
    assert(a =~= b);
}

/// The number of UTF-8 bytes of the name `key_name` gives for `e`.
fn name_size(bytes: &[u8], e: &BiffEntry) -> (n: u64)
    ensures
        n == encode_utf8(key_name(bytes@, *e)).len(),
        n <= u16::MAX,
{
    let start = e.offset_to_file_name as u64;
    let end = e.file_name_length as u64 + start;
    if end <= bytes.len() as u64 {
        let slice = vstd::slice::slice_subrange(bytes, start as usize, end as usize);
        match utf8_str(slice) {
            Some(_) => {
                proof {
                    vstd::utf8::decode_utf8_encode_utf8(slice@);
                }
                e.file_name_length as u64
            },
            None => {
                assert(encode_utf8(Seq::<char>::empty()) =~= Seq::<u8>::empty());
                0
            },
        }
    } else {
        assert(encode_utf8(Seq::<char>::empty()) =~= Seq::<u8>::empty());
        0
    }
}

/// Whether the names of `entries` fit a table with 32-bit indices.
fn names_fit(bytes: &[u8], entries: &Vec<BiffEntry>) -> (b: bool)
    ensures
        b == str_table_fits(key_names(bytes@, entries@)),
{
    let ghost names = key_names(bytes@, entries@);
    let count = entries.len() as u64;
    if count > (u32::MAX as u64) / 4 || 4 * (count + 1) > u32::MAX as u64 {
        proof {
            assert(names.len() == count);
            lemma_utf8_total_prefix(names, 0);
            assert(names.take(0) =~= Seq::<Seq<char>>::empty());
        }
        return false;
    }
    let mut total: u64 = 0;
    let mut i: usize = 0;
    assert(names.take(0) =~= Seq::<Seq<char>>::empty());
    while i < entries.len()
        invariant
            i <= entries@.len(),
            count == entries@.len(),
            names == key_names(bytes@, entries@),
            names.len() == count,
            total == utf8_total(names.take(i as int)),
            4 * (count + 1) + total <= u32::MAX,
        decreases entries@.len() - i,
    {
        let s = name_size(bytes, &entries[i]);
        proof {
            let t = names.take(i + 1);
            assert(t.drop_last() =~= names.take(i as int));
            assert(t.last() == names[i as int]);
        }
        if 4 * (count + 1) + total + s > u32::MAX as u64 {
            proof {
                lemma_utf8_total_prefix(names, i + 1);
            }
            return false;
        }
        total = total + s;
        i = i + 1;
    }
    assert(names.take(entries@.len() as int) =~= names);
    true
}

/// Under the header read from `bytes`, the biff entries read are the only
/// ones, so reading runs to its end exactly when their names fit.
proof fn lemma_key_entries(bytes: Seq<u8>, header: KeyHeader, entries: Seq<BiffEntry>)
    requires
        record_parsed(header, bytes, 0),
        section_parsed(entries, bytes, header.offset_to_bif_entries as int, Key::bif_count(bytes, header)),
    ensures
        Key::loadable(bytes) == str_table_fits(key_names(bytes, entries)),
{
    assert forall|h: KeyHeader, es: Seq<BiffEntry>|
        record_parsed(h, bytes, 0) && section_parsed(es, bytes, h.offset_to_bif_entries as int, Key::bif_count(bytes, h))
            implies es == entries by {
        lemma_decoded_at(bytes, 0, h);
        lemma_decoded_at(bytes, 0, header);
        let at = h.offset_to_bif_entries as int;
        let n = Key::bif_count(bytes, h);
        lemma_section_entries(bytes, at, n, es);
        lemma_section_entries(bytes, at, n, entries);
        lemma_bif_entries_same(section_entries::<BiffEntry>(bytes, at, n), es);
        lemma_bif_entries_same(section_entries::<BiffEntry>(bytes, at, n), entries);
    }
}

impl Key {
    /// Whether reading `bytes` runs to its end, as `loadable` says.
    pub fn check_loadable(bytes: &[u8]) -> (b: bool)
        ensures
            b == Key::loadable(bytes@),
    {
        let header = match read_at::<KeyHeader>(bytes, 0) {
            Some(h) => h,
            None => {
                return true;
            },
        };
        let (entries, _) = Key::tables(bytes, &header);
        proof {
            assert(record_parsed(header, bytes@, 0));
            lemma_key_entries(bytes@, header, entries@);
        }
        names_fit(bytes, &entries)
    }
}

} // verus!
