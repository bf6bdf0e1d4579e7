//! Resource archives (BIFF V1).
use vstd::prelude::*;

use crate::common::binary::{Codec, seq_same, lemma_subrange_concat, lemma_concat_peel, encoded, lemma_decoded_at, record_parsed, section_parsed, section_entries, lemma_section_entries, read_at, read_section};
use crate::common::strref::Strref;
use crate::common::ZeroCharArray;
use crate::model::Parseable;
use crate::common::types::ResourceType;
use crate::{from_buffer, type_of_code, Error, IEModels};
use std::collections::BTreeMap;
use vstd::std_specs::iter::IteratorSpec;

verus! {

#[derive(Debug, Clone, PartialEq)]
pub struct BiffHeader {
    pub signature: ZeroCharArray,
    pub version: ZeroCharArray,
    pub count_of_fileset_entries: u32,
    pub count_of_tileset_entries: u32,
    pub offset_to_file_entries: u32,
}

impl BiffHeader {
    /// Encoding of the fields 0 to 4, in order.
    pub open spec fn bytes_0_5(&self) -> Seq<u8> {
        self.bytes_0_2() + self.bytes_2_5()
    }

    /// Encoding of the fields 0 to 1, in order.
    pub open spec fn bytes_0_2(&self) -> Seq<u8> {
        self.signature.enc() + self.version.enc()
    }

    /// Encoding of the fields 2 to 4, in order.
    pub open spec fn bytes_2_5(&self) -> Seq<u8> {
        self.count_of_fileset_entries.enc() + self.bytes_3_5()
    }

    /// Encoding of the fields 3 to 4, in order.
    pub open spec fn bytes_3_5(&self) -> Seq<u8> {
        self.count_of_tileset_entries.enc() + self.offset_to_file_entries.enc()
    }
}

impl Codec for BiffHeader {
    open spec fn width() -> nat {
        20
    }

    open spec fn enc(&self) -> Seq<u8> {
        self.bytes_0_5()
    }

    open spec fn wf(&self) -> bool {
        true
    }

    open spec fn same(&self, other: &Self) -> bool {
        &&& self.signature.same(&other.signature)
        &&& self.version.same(&other.version)
        &&& self.count_of_fileset_entries == other.count_of_fileset_entries
        &&& self.count_of_tileset_entries == other.count_of_tileset_entries
        &&& self.offset_to_file_entries == other.offset_to_file_entries
    }

    fn byte_width() -> (n: usize) {
        20
    }

    fn check_wf(&self) -> (b: bool) {
        true
    }

    proof fn lemma_enc_len(&self) {
        self.signature.lemma_enc_len();
        self.version.lemma_enc_len();
        self.count_of_fileset_entries.lemma_enc_len();
        self.count_of_tileset_entries.lemma_enc_len();
        self.offset_to_file_entries.lemma_enc_len();
    }

    proof fn lemma_enc_injective(&self, other: &Self) {
        self.signature.lemma_enc_len();
        self.version.lemma_enc_len();
        self.count_of_fileset_entries.lemma_enc_len();
        self.count_of_tileset_entries.lemma_enc_len();
        self.offset_to_file_entries.lemma_enc_len();
        other.signature.lemma_enc_len();
        other.version.lemma_enc_len();
        other.count_of_fileset_entries.lemma_enc_len();
        other.count_of_tileset_entries.lemma_enc_len();
        other.offset_to_file_entries.lemma_enc_len();
        lemma_concat_peel(self.bytes_0_2(), self.bytes_2_5(), other.bytes_0_2(), other.bytes_2_5());
        lemma_concat_peel(self.signature.enc(), self.version.enc(), other.signature.enc(), other.version.enc());
        lemma_concat_peel(self.count_of_fileset_entries.enc(), self.bytes_3_5(), other.count_of_fileset_entries.enc(), other.bytes_3_5());
        lemma_concat_peel(self.count_of_tileset_entries.enc(), self.offset_to_file_entries.enc(), other.count_of_tileset_entries.enc(), other.offset_to_file_entries.enc());
        self.signature.lemma_enc_injective(&other.signature);
        self.version.lemma_enc_injective(&other.version);
        self.count_of_fileset_entries.lemma_enc_injective(&other.count_of_fileset_entries);
        self.count_of_tileset_entries.lemma_enc_injective(&other.count_of_tileset_entries);
        self.offset_to_file_entries.lemma_enc_injective(&other.offset_to_file_entries);
    }

    fn decode(buf: &[u8], pos: usize) -> (v: Self) {
        let len = buf.len();
        let fld0 = ZeroCharArray::decode(buf, pos + 0);
        let fld1 = ZeroCharArray::decode(buf, pos + 4);
        let fld2 = u32::decode(buf, pos + 8);
        let fld3 = u32::decode(buf, pos + 12);
        let fld4 = u32::decode(buf, pos + 16);
        let v = BiffHeader {
            signature: fld0,
            version: fld1,
            count_of_fileset_entries: fld2,
            count_of_tileset_entries: fld3,
            offset_to_file_entries: fld4,
        };
        proof {
            lemma_subrange_concat(buf@, pos + 0, pos + 8, pos + 20);
            lemma_subrange_concat(buf@, pos + 0, pos + 4, pos + 8);
            lemma_subrange_concat(buf@, pos + 8, pos + 12, pos + 20);
            lemma_subrange_concat(buf@, pos + 12, pos + 16, pos + 20);
        }
        v
    }

    fn encode(&self, out: &mut Vec<u8>) {
        let mut b0 = encoded(&self.signature);
        let mut b1 = encoded(&self.version);
        let mut b2 = encoded(&self.count_of_fileset_entries);
        let mut b3 = encoded(&self.count_of_tileset_entries);
        let mut b4 = encoded(&self.offset_to_file_entries);
        b3.append(&mut b4);
        b2.append(&mut b3);
        b0.append(&mut b1);
        b0.append(&mut b2);
        out.append(&mut b0);
    }
}

/// https://gibberlings3.github.io/iesdp/file_formats/ie_formats/bif_v1.htm#bif_v1_FileEntry
#[derive(Debug, Clone, PartialEq)]
pub struct FilesetEntry {
    pub resource_locator: Strref,
    pub offset: u32,
    pub size: u32,
    pub resource_type: u16,
    pub unknown: u16,
}

impl FilesetEntry {
    /// Encoding of the fields 0 to 4, in order.
    pub open spec fn bytes_0_5(&self) -> Seq<u8> {
        self.bytes_0_2() + self.bytes_2_5()
    }

    /// Encoding of the fields 0 to 1, in order.
    pub open spec fn bytes_0_2(&self) -> Seq<u8> {
        self.resource_locator.enc() + self.offset.enc()
    }

    /// Encoding of the fields 2 to 4, in order.
    pub open spec fn bytes_2_5(&self) -> Seq<u8> {
        self.size.enc() + self.bytes_3_5()
    }

    /// Encoding of the fields 3 to 4, in order.
    pub open spec fn bytes_3_5(&self) -> Seq<u8> {
        self.resource_type.enc() + self.unknown.enc()
    }
}

impl Codec for FilesetEntry {
    open spec fn width() -> nat {
        16
    }

    open spec fn enc(&self) -> Seq<u8> {
        self.bytes_0_5()
    }

    open spec fn wf(&self) -> bool {
        true
    }

    open spec fn same(&self, other: &Self) -> bool {
        &&& self.resource_locator.same(&other.resource_locator)
        &&& self.offset == other.offset
        &&& self.size == other.size
        &&& self.resource_type == other.resource_type
        &&& self.unknown == other.unknown
    }

    fn byte_width() -> (n: usize) {
        16
    }

    fn check_wf(&self) -> (b: bool) {
        true
    }

    proof fn lemma_enc_len(&self) {
        self.resource_locator.lemma_enc_len();
        self.offset.lemma_enc_len();
        self.size.lemma_enc_len();
        self.resource_type.lemma_enc_len();
        self.unknown.lemma_enc_len();
    }

    proof fn lemma_enc_injective(&self, other: &Self) {
        self.resource_locator.lemma_enc_len();
        self.offset.lemma_enc_len();
        self.size.lemma_enc_len();
        self.resource_type.lemma_enc_len();
        self.unknown.lemma_enc_len();
        other.resource_locator.lemma_enc_len();
        other.offset.lemma_enc_len();
        other.size.lemma_enc_len();
        other.resource_type.lemma_enc_len();
        other.unknown.lemma_enc_len();
        lemma_concat_peel(self.bytes_0_2(), self.bytes_2_5(), other.bytes_0_2(), other.bytes_2_5());
        lemma_concat_peel(self.resource_locator.enc(), self.offset.enc(), other.resource_locator.enc(), other.offset.enc());
        lemma_concat_peel(self.size.enc(), self.bytes_3_5(), other.size.enc(), other.bytes_3_5());
        lemma_concat_peel(self.resource_type.enc(), self.unknown.enc(), other.resource_type.enc(), other.unknown.enc());
        self.resource_locator.lemma_enc_injective(&other.resource_locator);
        self.offset.lemma_enc_injective(&other.offset);
        self.size.lemma_enc_injective(&other.size);
        self.resource_type.lemma_enc_injective(&other.resource_type);
        self.unknown.lemma_enc_injective(&other.unknown);
    }

    fn decode(buf: &[u8], pos: usize) -> (v: Self) {
        let len = buf.len();
        let fld0 = Strref::decode(buf, pos + 0);
        let fld1 = u32::decode(buf, pos + 4);
        let fld2 = u32::decode(buf, pos + 8);
        let fld3 = u16::decode(buf, pos + 12);
        let fld4 = u16::decode(buf, pos + 14);
        let v = FilesetEntry {
            resource_locator: fld0,
            offset: fld1,
            size: fld2,
            resource_type: fld3,
            unknown: fld4,
        };
        proof {
            lemma_subrange_concat(buf@, pos + 0, pos + 8, pos + 16);
            lemma_subrange_concat(buf@, pos + 0, pos + 4, pos + 8);
            lemma_subrange_concat(buf@, pos + 8, pos + 12, pos + 16);
            lemma_subrange_concat(buf@, pos + 12, pos + 14, pos + 16);
        }
        v
    }

    fn encode(&self, out: &mut Vec<u8>) {
        let mut b0 = encoded(&self.resource_locator);
        let mut b1 = encoded(&self.offset);
        let mut b2 = encoded(&self.size);
        let mut b3 = encoded(&self.resource_type);
        let mut b4 = encoded(&self.unknown);
        b3.append(&mut b4);
        b2.append(&mut b3);
        b0.append(&mut b1);
        b0.append(&mut b2);
        out.append(&mut b0);
    }
}

/// https://gibberlings3.github.io/iesdp/file_formats/ie_formats/bif_v1.htm#bif_v1_TilesetEntry
#[derive(Debug, Clone, PartialEq)]
pub struct TilesetEntry {
    pub resource_locator: Strref,
    pub offset: u32,
    pub tile_count: u32,
    pub tile_size: u32,
    /// Type of this resource (always 0x3eb - TIS)
    pub resource_type: u16,
    pub unknown: u16,
}

impl TilesetEntry {
    /// Encoding of the fields 0 to 5, in order.
    pub open spec fn bytes_0_6(&self) -> Seq<u8> {
        self.bytes_0_3() + self.bytes_3_6()
    }

    /// Encoding of the fields 0 to 2, in order.
    pub open spec fn bytes_0_3(&self) -> Seq<u8> {
        self.resource_locator.enc() + self.bytes_1_3()
    }

    /// Encoding of the fields 1 to 2, in order.
    pub open spec fn bytes_1_3(&self) -> Seq<u8> {
        self.offset.enc() + self.tile_count.enc()
    }

    /// Encoding of the fields 3 to 5, in order.
    pub open spec fn bytes_3_6(&self) -> Seq<u8> {
        self.tile_size.enc() + self.bytes_4_6()
    }

    /// Encoding of the fields 4 to 5, in order.
    pub open spec fn bytes_4_6(&self) -> Seq<u8> {
        self.resource_type.enc() + self.unknown.enc()
    }
}

impl Codec for TilesetEntry {
    open spec fn width() -> nat {
        20
    }

    open spec fn enc(&self) -> Seq<u8> {
        self.bytes_0_6()
    }

    open spec fn wf(&self) -> bool {
        true
    }

    open spec fn same(&self, other: &Self) -> bool {
        &&& self.resource_locator.same(&other.resource_locator)
        &&& self.offset == other.offset
        &&& self.tile_count == other.tile_count
        &&& self.tile_size == other.tile_size
        &&& self.resource_type == other.resource_type
        &&& self.unknown == other.unknown
    }

    fn byte_width() -> (n: usize) {
        20
    }

    fn check_wf(&self) -> (b: bool) {
        true
    }

    proof fn lemma_enc_len(&self) {
        self.resource_locator.lemma_enc_len();
        self.offset.lemma_enc_len();
        self.tile_count.lemma_enc_len();
        self.tile_size.lemma_enc_len();
        self.resource_type.lemma_enc_len();
        self.unknown.lemma_enc_len();
    }

    proof fn lemma_enc_injective(&self, other: &Self) {
        self.resource_locator.lemma_enc_len();
        self.offset.lemma_enc_len();
        self.tile_count.lemma_enc_len();
        self.tile_size.lemma_enc_len();
        self.resource_type.lemma_enc_len();
        self.unknown.lemma_enc_len();
        other.resource_locator.lemma_enc_len();
        other.offset.lemma_enc_len();
        other.tile_count.lemma_enc_len();
        other.tile_size.lemma_enc_len();
        other.resource_type.lemma_enc_len();
        other.unknown.lemma_enc_len();
        lemma_concat_peel(self.bytes_0_3(), self.bytes_3_6(), other.bytes_0_3(), other.bytes_3_6());
        lemma_concat_peel(self.resource_locator.enc(), self.bytes_1_3(), other.resource_locator.enc(), other.bytes_1_3());
        lemma_concat_peel(self.offset.enc(), self.tile_count.enc(), other.offset.enc(), other.tile_count.enc());
        lemma_concat_peel(self.tile_size.enc(), self.bytes_4_6(), other.tile_size.enc(), other.bytes_4_6());
        lemma_concat_peel(self.resource_type.enc(), self.unknown.enc(), other.resource_type.enc(), other.unknown.enc());
        self.resource_locator.lemma_enc_injective(&other.resource_locator);
        self.offset.lemma_enc_injective(&other.offset);
        self.tile_count.lemma_enc_injective(&other.tile_count);
        self.tile_size.lemma_enc_injective(&other.tile_size);
        self.resource_type.lemma_enc_injective(&other.resource_type);
        self.unknown.lemma_enc_injective(&other.unknown);
    }

    fn decode(buf: &[u8], pos: usize) -> (v: Self) {
        let len = buf.len();
        let fld0 = Strref::decode(buf, pos + 0);
        let fld1 = u32::decode(buf, pos + 4);
        let fld2 = u32::decode(buf, pos + 8);
        let fld3 = u32::decode(buf, pos + 12);
        let fld4 = u16::decode(buf, pos + 16);
        let fld5 = u16::decode(buf, pos + 18);
        let v = TilesetEntry {
            resource_locator: fld0,
            offset: fld1,
            tile_count: fld2,
            tile_size: fld3,
            resource_type: fld4,
            unknown: fld5,
        };
        proof {
            lemma_subrange_concat(buf@, pos + 0, pos + 12, pos + 20);
            lemma_subrange_concat(buf@, pos + 0, pos + 4, pos + 12);
            lemma_subrange_concat(buf@, pos + 4, pos + 8, pos + 12);
            lemma_subrange_concat(buf@, pos + 12, pos + 16, pos + 20);
            lemma_subrange_concat(buf@, pos + 16, pos + 18, pos + 20);
        }
        v
    }

    fn encode(&self, out: &mut Vec<u8>) {
        let mut b0 = encoded(&self.resource_locator);
        let mut b1 = encoded(&self.offset);
        let mut b2 = encoded(&self.tile_count);
        let mut b3 = encoded(&self.tile_size);
        let mut b4 = encoded(&self.resource_type);
        let mut b5 = encoded(&self.unknown);
        b4.append(&mut b5);
        b3.append(&mut b4);
        b1.append(&mut b2);
        b0.append(&mut b1);
        b0.append(&mut b3);
        out.append(&mut b0);
    }
}

/// Where a tileset's tiles end: its offset plus its tile count times its
/// tile size.
pub open spec fn tiles_end(e: TilesetEntry) -> int {
    e.offset + e.tile_count * e.tile_size
}

/// Where every file of the archive lies, with its type code: each fileset
/// entry gives `size` bytes at its `offset`, each tileset entry
/// `tile_count * tile_size` bytes at its `offset`, as a tileset (0x3eb).
/// The fileset entries come first, then the tileset entries, in table order.
pub open spec fn files(fs: Seq<FilesetEntry>, ts: Seq<TilesetEntry>) -> Seq<(int, int, u16)> {
    Seq::new(fs.len(), |i: int| (fs[i].offset as int, fs[i].offset + fs[i].size, fs[i].resource_type))
        + Seq::new(ts.len(), |i: int| (ts[i].offset as int, tiles_end(ts[i]), 0x3ebu16))
}

/// The bytes from `start` to `end`; none when that range is not inside
/// `buffer`.
pub open spec fn chunk(buffer: Seq<u8>, start: int, end: int) -> Seq<u8> {
    if 0 <= start <= end <= buffer.len() { buffer.subrange(start, end) } else { Seq::empty() }
}

/// The bytes of every file of `fl`, with its type code.
pub open spec fn chunks(buffer: Seq<u8>, fl: Seq<(int, int, u16)>) -> Seq<(Seq<u8>, u16)> {
    Seq::new(fl.len(), |j: int| (chunk(buffer, fl[j].0, fl[j].1), fl[j].2))
}

/// The files among `cs` that can be read as the type their code names.
pub open spec fn readable_files(cs: Seq<(Seq<u8>, u16)>) -> Seq<(Seq<u8>, u16)>
    decreases cs.len(),
{
    if cs.len() == 0 {
        Seq::empty()
    } else {
        let prev = readable_files(cs.drop_last());
        let c = cs.last();
        if IEModels::read_error(c.0, type_of_code(c.1)) is None { prev.push(c) } else { prev }
    }
}

/// Reading each file of `cs` does not panic.
pub open spec fn files_loadable(cs: Seq<(Seq<u8>, u16)>) -> bool {
    forall|j: int| 0 <= j < cs.len() ==> IEModels::loadable(#[trigger] cs[j].0, type_of_code(cs[j].1))
}

/// The models read from the files of `cs`, in order, with the unreadable
/// files left out.
pub open spec fn files_read(models: Seq<IEModels>, cs: Seq<(Seq<u8>, u16)>) -> bool {
    let kept = readable_files(cs);
    &&& models.len() == kept.len()
    &&& forall|i: int| 0 <= i < kept.len() ==> (#[trigger] models[i]).read_from(kept[i].0, type_of_code(kept[i].1))
}

/// The spans with their ends as integers.
pub open spec fn spans_view(v: Seq<(u64, u64, u16)>) -> Seq<(int, int, u16)> {
    Seq::new(v.len(), |i: int| (v[i].0 as int, v[i].1 as int, v[i].2))
}

/// Where every file of the archive lies, as `files` gives it.
fn file_spans(fs: &Vec<FilesetEntry>, ts: &Vec<TilesetEntry>) -> (spans: Vec<(u64, u64, u16)>)
    ensures
        spans_view(spans@) == files(fs@, ts@),
{
    let mut spans: Vec<(u64, u64, u16)> = Vec::new();
    let mut i: usize = 0;
    while i < fs.len()
        invariant
            i <= fs@.len(),
            spans_view(spans@) =~= files(fs@, ts@).take(i as int),
        decreases fs@.len() - i,
    {
        let e = &fs[i];
        let ghost before = spans_view(spans@);
        spans.push((e.offset as u64, e.offset as u64 + e.size as u64, e.resource_type));
        proof {
            let f = files(fs@, ts@);
            assert(f[i as int] == (fs@[i as int].offset as int, fs@[i as int].offset + fs@[i as int].size, fs@[i as int].resource_type));
            assert(spans_view(spans@) =~= before.push(f[i as int]));
            assert(f.take(i + 1) =~= f.take(i as int).push(f[i as int]));
        }
        i = i + 1;
    }
    let n = fs.len();
    let mut j: usize = 0;
    while j < ts.len()
        invariant
            j <= ts@.len(),
            n == fs@.len(),
            spans_view(spans@) =~= files(fs@, ts@).take(n + j),
        decreases ts@.len() - j,
    {
        let e = &ts[j];
        let c = e.tile_count as u64;
        let z = e.tile_size as u64;
        assert(c * z <= u32::MAX * u32::MAX) by (nonlinear_arith)
            requires
                c <= u32::MAX,
                z <= u32::MAX,
        ;
        let ghost before = spans_view(spans@);
        spans.push((e.offset as u64, e.offset as u64 + c * z, 0x3eb));
        proof {
            let f = files(fs@, ts@);
            assert(f[n + j] == (ts@[j as int].offset as int, tiles_end(ts@[j as int]), 0x3ebu16));
            assert(spans_view(spans@) =~= before.push(f[n + j]));
            assert(f.take(n + j + 1) =~= f.take(n + j).push(f[n + j]));
        }
        j = j + 1;
    }
    assert(files(fs@, ts@).take(n + j) =~= files(fs@, ts@));
    spans
}

/// The last file of `fl` that ends at each place, by where it ends: where
/// it starts and its type code.
pub open spec fn last_by_end(fl: Seq<(int, int, u16)>) -> Map<int, (int, u16)>
    decreases fl.len(),
{
    if fl.len() == 0 {
        Map::empty()
    } else {
        let f = fl.last();
        last_by_end(fl.drop_last()).insert(f.1, (f.0, f.2))
    }
}

/// `s` holds the files of `fl` in increasing order of where they end, one
/// for each end: the last file of `fl` that ends there.
pub open spec fn in_end_order(s: Seq<(int, int, u16)>, fl: Seq<(int, int, u16)>) -> bool {
    let m = last_by_end(fl);
    &&& forall|i: int, j: int| #![trigger s[i], s[j]] 0 <= i < j < s.len() ==> s[i].1 < s[j].1
    &&& forall|i: int| 0 <= i < s.len() ==> m.contains_key(#[trigger] s[i].1) && m[s[i].1] == (s[i].0, s[i].2)
    &&& forall|k: int| #[trigger] m.contains_key(k) ==> exists|i: int| 0 <= i < s.len() && #[trigger] s[i].1 == k
}

/// The files of `fl` in increasing order of where they end; of the files
/// that end at the same place, only the last one.
pub open spec fn by_end(fl: Seq<(int, int, u16)>) -> Seq<(int, int, u16)> {
    choose|s: Seq<(int, int, u16)>| in_end_order(s, fl)
}

/// Two strictly increasing sequences with the same elements are equal.
proof fn lemma_increasing_same(x: Seq<int>, y: Seq<int>)
    requires
        forall|i: int, j: int| #![trigger x[i], x[j]] 0 <= i < j < x.len() ==> x[i] < x[j],
        forall|i: int, j: int| #![trigger y[i], y[j]] 0 <= i < j < y.len() ==> y[i] < y[j],
        forall|v: int| x.contains(v) <==> y.contains(v),
    ensures
        x == y,
    decreases x.len(),
{
    if x.len() == 0 {
        if y.len() > 0 {
            assert(y.contains(y[0]));
        }
        assert(x =~= y);
    } else if y.len() == 0 {
        assert(x.contains(x[0]));
    } else {
        let xl = x.last();
        let yl = y.last();
        assert(x.contains(xl));
        assert(y.contains(yl));
        let jy = choose|j: int| 0 <= j < y.len() && y[j] == xl;
        let jx = choose|j: int| 0 <= j < x.len() && x[j] == yl;
        assert(xl <= yl) by {
            if jy < y.len() - 1 {
                assert(y[jy] < y[y.len() - 1]);
            }
        }
        assert(yl <= xl) by {
            if jx < x.len() - 1 {
                assert(x[jx] < x[x.len() - 1]);
            }
        }
        let x2 = x.drop_last();
        let y2 = y.drop_last();
        assert forall|v: int| x2.contains(v) <==> y2.contains(v) by {
            if x2.contains(v) {
                let i = choose|i: int| 0 <= i < x2.len() && x2[i] == v;
                assert(x[i] < x[x.len() - 1]);
                assert(x.contains(v));
                let k = choose|k: int| 0 <= k < y.len() && y[k] == v;
                assert(k != y.len() - 1);
                assert(y2[k] == v);
            }
            if y2.contains(v) {
                let i = choose|i: int| 0 <= i < y2.len() && y2[i] == v;
                assert(y[i] < y[y.len() - 1]);
                assert(y.contains(v));
                let k = choose|k: int| 0 <= k < x.len() && x[k] == v;
                assert(k != x.len() - 1);
                assert(x2[k] == v);
            }
        }
        lemma_increasing_same(x2, y2);
        assert(x =~= x2.push(xl));
        assert(y =~= y2.push(yl));
    }
}

/// The files of `fl` have one order by their ends.
pub proof fn lemma_end_order_unique(a: Seq<(int, int, u16)>, b: Seq<(int, int, u16)>, fl: Seq<(int, int, u16)>)
    requires
        in_end_order(a, fl),
        in_end_order(b, fl),
    ensures
        a == b,
{
    let m = last_by_end(fl);
    let ea = Seq::new(a.len(), |i: int| a[i].1);
    let eb = Seq::new(b.len(), |i: int| b[i].1);
    assert forall|i: int, j: int| #![trigger ea[i], ea[j]] 0 <= i < j < ea.len() implies ea[i] < ea[j] by {
        assert(a[i].1 < a[j].1);
    }
    assert forall|i: int, j: int| #![trigger eb[i], eb[j]] 0 <= i < j < eb.len() implies eb[i] < eb[j] by {
        assert(b[i].1 < b[j].1);
    }
    assert forall|v: int| ea.contains(v) <==> eb.contains(v) by {
        if ea.contains(v) {
            let i = choose|i: int| 0 <= i < ea.len() && ea[i] == v;
            assert(m.contains_key(a[i].1));
            let k = choose|k: int| 0 <= k < b.len() && #[trigger] b[k].1 == v;
            assert(eb[k] == v);
        }
        if eb.contains(v) {
            let i = choose|i: int| 0 <= i < eb.len() && eb[i] == v;
            assert(m.contains_key(b[i].1));
            let k = choose|k: int| 0 <= k < a.len() && #[trigger] a[k].1 == v;
            assert(ea[k] == v);
        }
    }
    lemma_increasing_same(ea, eb);
    assert forall|i: int| 0 <= i < a.len() implies a[i] == b[i] by {
        assert(ea[i] == eb[i]);
        assert(m.contains_key(a[i].1));
        assert(m.contains_key(b[i].1));
    }
    assert(a =~= b);
}

/// A map with `u64` keys seen with integer keys and starts.
pub open spec fn int_keys(m: Map<u64, (u64, u16)>) -> Map<int, (int, u16)> {
    Map::new(
        |k: int| 0 <= k <= u64::MAX && m.contains_key(k as u64),
        |k: int| (m[k as u64].0 as int, m[k as u64].1),
    )
}

/// The maps with `u64` keys order them as `u64` values are ordered.
pub open spec fn u64_keys_ordered() -> bool {
    &&& vstd::std_specs::btree::key_obeys_cmp_spec::<u64>()
    &&& vstd::laws_cmp::obeys_cmp::<u64>()
}

/// The keys of a map with `u64` keys are ordered as `u64` values are.
proof fn lemma_u64_keys_ordered()
    ensures
        u64_keys_ordered(),
{
    broadcast use vstd::laws_cmp::group_laws_cmp;
    broadcast use vstd::std_specs::btree::group_btree_axioms;
}

/// Keys listed in increasing order by a map with `u64` keys increase.
proof fn lemma_u64_increasing(keys: Seq<u64>)
    requires
        vstd::std_specs::btree::increasing_seq(keys),
    ensures
        forall|i: int, j: int| 0 <= i < j < keys.len() ==> keys[i] < keys[j],
{
    broadcast use vstd::laws_cmp::group_laws_cmp;
    vstd::std_specs::btree::axiom_increasing_seq_meaning(keys);
    assert forall|i: int, j: int| 0 <= i < j < keys.len() implies keys[i] < keys[j] by {
        assert(vstd::std_specs::cmp::OrdSpec::cmp_spec(&keys[i], &keys[j]) is Less);
    }
}

/// The entries of `order` in increasing order of their keys, each as its
/// start, its key and its type code.
fn entries_by_key(order: &BTreeMap<u64, (u64, u16)>) -> (out: Vec<(u64, u64, u16)>)
    ensures
        forall|i: int, j: int| #![trigger out@[i], out@[j]] 0 <= i < j < out@.len() ==> out@[i].1 < out@[j].1,
        forall|i: int| 0 <= i < out@.len() ==> order@.contains_key(#[trigger] out@[i].1) && order@[out@[i].1] == (out@[i].0, out@[i].2),
        forall|k: u64| order@.contains_key(k) ==> exists|i: int| 0 <= i < out@.len() && #[trigger] out@[i].1 == k,
{
    proof {
        lemma_u64_keys_ordered();
    }
    broadcast use vstd::std_specs::btree::group_btree_axioms;
    let mut out: Vec<(u64, u64, u16)> = Vec::new();
    let it0 = order.iter();
    let ghost rem = it0.remaining();
    proof {
        lemma_u64_increasing(rem.map_values(|kv: (&u64, &(u64, u16))| *kv.0));
    }
    for kv in it: it0
        invariant
            it.seq() == rem,
            out@.len() == it.index(),
            forall|i: int| 0 <= i < it.index() ==> #[trigger] out@[i] == ((*rem[i].1).0, *rem[i].0, (*rem[i].1).1),
    {
        let (k, v) = kv;
        out.push((v.0, *k, v.1));
    }
    proof {
        let keys = rem.map_values(|kv: (&u64, &(u64, u16))| *kv.0);
        assert forall|i: int, j: int| #![trigger out@[i], out@[j]] 0 <= i < j < out@.len() implies out@[i].1 < out@[j].1 by {
            assert(out@[i].1 == keys[i]);
            assert(out@[j].1 == keys[j]);
        }
        assert forall|k: u64| order@.contains_key(k) implies exists|i: int| 0 <= i < out@.len() && #[trigger] out@[i].1 == k by {
            assert(rem.contains((&k, &order@[k])));
            let i = choose|i: int| 0 <= i < rem.len() && rem[i] == (&k, &order@[k]);
            assert(out@[i].1 == k);
        }
    }
    out
}

/// Where every file of the archive lies, in increasing order of where the
/// files end; of the files that end at the same place, only the last one
/// in the tables.
fn ordered_spans(fs: &Vec<FilesetEntry>, ts: &Vec<TilesetEntry>) -> (spans: Vec<(u64, u64, u16)>)
    ensures
        spans_view(spans@) == by_end(files(fs@, ts@)),
{
    proof {
        lemma_u64_keys_ordered();
    }
    let all = file_spans(fs, ts);
    let ghost fl = spans_view(all@);
    let mut order: BTreeMap<u64, (u64, u16)> = BTreeMap::new();
    assert(int_keys(order@) =~= last_by_end(fl.take(0)));
    let mut i: usize = 0;
    while i < all.len()
        invariant
            i <= all@.len(),
            fl == spans_view(all@),
            u64_keys_ordered(),
            int_keys(order@) == last_by_end(fl.take(i as int)),
        decreases all@.len() - i,
    {
        let (start, end, v) = all[i];
        let ghost before = order@;
        order.insert(end, (start, v));
        proof {
            let t = fl.take(i + 1);
            assert(t.drop_last() =~= fl.take(i as int));
            assert(t.last() == fl[i as int]);
            assert(int_keys(order@) =~= int_keys(before).insert(end as int, (start as int, v)));
        }
        i = i + 1;
    }
    assert(fl.take(all@.len() as int) =~= fl);
    let out = entries_by_key(&order);
    proof {
        let s = spans_view(out@);
        let m = last_by_end(fl);
        assert forall|i: int, j: int| #![trigger s[i], s[j]] 0 <= i < j < s.len() implies s[i].1 < s[j].1 by {
            assert(out@[i].1 < out@[j].1);
        }
        assert forall|i: int| 0 <= i < s.len() implies m.contains_key(#[trigger] s[i].1) && m[s[i].1] == (s[i].0, s[i].2) by {
            assert(order@.contains_key(out@[i].1));
            assert((out@[i].1 as int) as u64 == out@[i].1);
        }
        assert forall|k: int| #[trigger] m.contains_key(k) implies exists|i: int| 0 <= i < s.len() && #[trigger] s[i].1 == k by {
            assert(order@.contains_key(k as u64));
            let i = choose|i: int| 0 <= i < out@.len() && #[trigger] out@[i].1 == k as u64;
            assert(s[i].1 == k);
        }
        assert(in_end_order(s, fl));
        lemma_end_order_unique(s, by_end(fl), fl);
    }
    out
}

/// The bytes of the file from `start` to `end`; none when that range is not
/// inside `buffer`.
fn file_bytes<'data>(buffer: &'data [u8], start: u64, end: u64) -> (b: &'data [u8])
    ensures
        b@ == chunk(buffer@, start as int, end as int),
{
    if start <= end && end <= buffer.len() as u64 {
        vstd::slice::slice_subrange(buffer, start as usize, end as usize)
    } else {
        let empty: &'data [u8] = &[];
        assert(empty@ =~= Seq::<u8>::empty());
        empty
    }
}

/// Reads every file of the archive from its own bytes, in increasing order
/// of where the files end; of the files that end at the same place only the
/// last one in the tables is read, and a file that cannot be read is left
/// out.
pub fn parse_contained_files<'data>(
    buffer: &'data [u8],
    fileset_entries: &Vec<FilesetEntry>,
    tileset_entries: &Vec<TilesetEntry>,
) -> (r: Result<Vec<IEModels<'data>>, Error>)
    requires
        files_loadable(chunks(buffer@, by_end(files(fileset_entries@, tileset_entries@)))),
    ensures
        r matches Ok(models) && files_read(models@, chunks(buffer@, by_end(files(fileset_entries@, tileset_entries@)))),
{
    let spans = ordered_spans(fileset_entries, tileset_entries);
    let ghost cs = chunks(buffer@, spans_view(spans@));
    let mut out: Vec<IEModels<'data>> = Vec::new();
    let mut j: usize = 0;
    while j < spans.len()
        invariant
            j <= spans@.len(),
            cs == chunks(buffer@, spans_view(spans@)),
            files_loadable(cs),
            files_read(out@, cs.take(j as int)),
        decreases spans@.len() - j,
    {
        let (start, end, v) = spans[j];
        let buff = file_bytes(buffer, start, end);
        proof {
            assert(buff@ == cs[j as int].0);
            assert(v == cs[j as int].1);
            assert(IEModels::loadable(cs[j as int].0, type_of_code(cs[j as int].1)));
            let t = cs.take(j + 1);
            assert(t.drop_last() =~= cs.take(j as int));
            assert(t.last() == cs[j as int]);
        }
        let ghost before = out@;
        match from_buffer(buff, v) {
            Ok(data) => {
                out.push(data);
                proof {
                    let kept = readable_files(cs.take(j + 1));
                    assert forall|i: int| 0 <= i < kept.len() implies (#[trigger] out@[i]).read_from(kept[i].0, type_of_code(kept[i].1)) by {
                        if i < before.len() {
                            assert(out@[i] == before[i]);
                        }
                    }
                }
            },
            Err(_) => {},
        }
        j = j + 1;
    }
    assert(cs.take(spans@.len() as int) =~= cs);
    Ok(out)
}

/// A resource archive: its header, its file and tileset entries, and the
/// files read from it.
/// <https://gibberlings3.github.io/iesdp/file_formats/ie_formats/bif_v1.htm>
pub struct Biff<'data> {
    pub header: BiffHeader,
    pub fileset_entries: Vec<FilesetEntry>,
    pub tileset_entries: Vec<TilesetEntry>,
    pub contained_files: Vec<IEModels<'data>>,
}

impl<'data> Parseable<'data> for Biff<'data> {}

impl<'data> Biff<'data> {
    /// Where the fileset entries end.
    pub open spec fn fileset_end(h: BiffHeader) -> int {
        h.offset_to_file_entries + h.count_of_fileset_entries * FilesetEntry::width()
    }

    /// Where the tileset entries end: they follow the fileset entries.
    pub open spec fn tileset_end(h: BiffHeader) -> int {
        Biff::fileset_end(h) + h.count_of_tileset_entries * TilesetEntry::width()
    }

    /// The number of fileset entries read: all of them, or none when they do
    /// not lie inside the file.
    pub open spec fn fileset_count(bytes: Seq<u8>, h: BiffHeader) -> int {
        if Biff::fileset_end(h) <= bytes.len() { h.count_of_fileset_entries as int } else { 0 }
    }

    /// The number of tileset entries read: all of them, or none when they do
    /// not lie inside the file.
    pub open spec fn tileset_count(bytes: Seq<u8>, h: BiffHeader) -> int {
        if Biff::tileset_end(h) <= bytes.len() { h.count_of_tileset_entries as int } else { 0 }
    }

    /// `fs` and `ts` are the entry tables read from `bytes` under the header `h`.
    pub open spec fn tables_read(bytes: Seq<u8>, h: BiffHeader, fs: Seq<FilesetEntry>, ts: Seq<TilesetEntry>) -> bool {
        &&& section_parsed(fs, bytes, h.offset_to_file_entries as int, Biff::fileset_count(bytes, h))
        &&& section_parsed(ts, bytes, Biff::fileset_end(h), Biff::tileset_count(bytes, h))
    }

    /// Reading `bytes` does not panic: whatever header and entries they
    /// hold, every file can be read without panicking.
    pub open spec fn loadable(bytes: Seq<u8>) -> bool {
        forall|h: BiffHeader, fs: Seq<FilesetEntry>, ts: Seq<TilesetEntry>|
            #![trigger record_parsed(h, bytes, 0), Biff::tables_read(bytes, h, fs, ts)]
            record_parsed(h, bytes, 0) && Biff::tables_read(bytes, h, fs, ts)
                ==> files_loadable(chunks(bytes, by_end(files(fs, ts))))
    }

    /// Reads an archive: the header, the entry tables, and every file that
    /// can be read, each from its own bytes. Fails with `HeaderTooShort` when `value` cannot hold the
    /// header.
    pub fn try_from(value: &'data [u8]) -> (r: Result<Biff<'data>, Error>)
        requires
            Biff::loadable(value@),
        ensures
            r is Err <==> value@.len() < BiffHeader::width(),
            r matches Err(e) ==> e == Error::HeaderTooShort,
            r matches Ok(b) ==> {
                &&& record_parsed(b.header, value@, 0)
                &&& Biff::tables_read(value@, b.header, b.fileset_entries@, b.tileset_entries@)
                &&& files_read(b.contained_files@, chunks(value@, by_end(files(b.fileset_entries@, b.tileset_entries@))))
            },
    {
        let header = match read_at::<BiffHeader>(value, 0) {
            Some(h) => h,
            None => return Err(Error::HeaderTooShort),
        };
        let len = value.len() as u64;
        let fs_start = header.offset_to_file_entries as u64;
        let fs_end = fs_start + header.count_of_fileset_entries as u64 * 16;
        let fs_count: u64 = if fs_end <= len { header.count_of_fileset_entries as u64 } else { 0 };
        let fileset_entries = match read_section::<FilesetEntry>(value, fs_start, fs_count) {
            Some(v) => v,
            None => {
                assert(false);
                return Err(Error::HeaderTooShort);
            },
        };
        let ts_end = fs_end + header.count_of_tileset_entries as u64 * 20;
        let ts_count: u64 = if ts_end <= len { header.count_of_tileset_entries as u64 } else { 0 };
        let tileset_entries = match read_section::<TilesetEntry>(value, fs_end, ts_count) {
            Some(v) => v,
            None => {
                assert(false);
                return Err(Error::HeaderTooShort);
            },
        };
        proof {
            assert(record_parsed(header, value@, 0));
            assert(Biff::tables_read(value@, header, fileset_entries@, tileset_entries@));
        }
        let contained_files = match parse_contained_files(value, &fileset_entries, &tileset_entries) {
            Ok(v) => v,
            Err(e) => return Err(e),
        };
        Ok(Biff { header, fileset_entries, tileset_entries, contained_files })
    }

    /// Writes an archive. The header is copied into the output buffer as it
    /// stands, which is empty and so never the header's size: writing always
    /// fails with `HeaderNotWritten`.
    pub fn try_into(self) -> (r: Result<Vec<u8>, Error>)
        ensures
            r is Err && r->Err_0 == Error::HeaderNotWritten,
    {
        let buffer: Vec<u8> = Vec::new();
        if buffer.len() != BiffHeader::byte_width() {
            return Err(Error::HeaderNotWritten);
        }
        Ok(buffer)
    }
}

/// Two tables of fileset entries with the same contents are equal.
proof fn lemma_filesets_same(a: Seq<FilesetEntry>, b: Seq<FilesetEntry>)
    requires
        seq_same(a, b),
    ensures
        a == b,
{
    assert forall|i: int| 0 <= i < a.len() implies a[i] == b[i] by {
        assert(a[i].same(&b[i]));
    }
    assert(a =~= b);
}

/// Two tables of tileset entries with the same contents are equal.
proof fn lemma_tilesets_same(a: Seq<TilesetEntry>, b: Seq<TilesetEntry>)
    requires
        seq_same(a, b),
    ensures
        a == b,
{
    assert forall|i: int| 0 <= i < a.len() implies a[i] == b[i] by {
        assert(a[i].same(&b[i]));
    }
    assert(a =~= b);
}

/// Under the header read from `bytes`, the entry tables read are the only
/// ones, so reading runs to its end exactly when their files can be read.
proof fn lemma_biff_tables(bytes: Seq<u8>, header: BiffHeader, fs: Seq<FilesetEntry>, ts: Seq<TilesetEntry>)
    requires
        record_parsed(header, bytes, 0),
        Biff::tables_read(bytes, header, fs, ts),
    ensures
        Biff::loadable(bytes) == files_loadable(chunks(bytes, by_end(files(fs, ts)))),
{
    assert forall|h: BiffHeader, fs2: Seq<FilesetEntry>, ts2: Seq<TilesetEntry>|
        record_parsed(h, bytes, 0) && Biff::tables_read(bytes, h, fs2, ts2) implies fs2 == fs && ts2 == ts by {
        lemma_decoded_at(bytes, 0, h);
        lemma_decoded_at(bytes, 0, header);
        let n = Biff::fileset_count(bytes, h);
        let m = Biff::tileset_count(bytes, h);
        let at = h.offset_to_file_entries as int;
        lemma_section_entries(bytes, at, n, fs2);
        lemma_section_entries(bytes, at, n, fs);
        lemma_filesets_same(section_entries::<FilesetEntry>(bytes, at, n), fs2);
        lemma_filesets_same(section_entries::<FilesetEntry>(bytes, at, n), fs);
        lemma_section_entries(bytes, Biff::fileset_end(h), m, ts2);
        lemma_section_entries(bytes, Biff::fileset_end(h), m, ts);
        lemma_tilesets_same(section_entries::<TilesetEntry>(bytes, Biff::fileset_end(h), m), ts2);
        lemma_tilesets_same(section_entries::<TilesetEntry>(bytes, Biff::fileset_end(h), m), ts);
    }
}

/// Whether every file of the archive can be read without panicking.
fn check_files(buffer: &[u8], fs: &Vec<FilesetEntry>, ts: &Vec<TilesetEntry>) -> (b: bool)
    ensures
        b == files_loadable(chunks(buffer@, by_end(files(fs@, ts@)))),
{
    let spans = ordered_spans(fs, ts);
    let ghost cs = chunks(buffer@, spans_view(spans@));
    let mut j: usize = 0;
    while j < spans.len()
        invariant
            j <= spans@.len(),
            cs == chunks(buffer@, spans_view(spans@)),
            spans_view(spans@) == by_end(files(fs@, ts@)),
            forall|i: int| 0 <= i < j ==> IEModels::loadable(#[trigger] cs[i].0, type_of_code(cs[i].1)),
        decreases spans@.len() - j,
    {
        let (start, end, v) = spans[j];
        let buff = file_bytes(buffer, start, end);
        assert(buff@ == cs[j as int].0);
        let t = match ResourceType::from_code(v) {
            Some(t) => t,
            None => ResourceType::NotFound,
        };
        assert(v == cs[j as int].1);
        assert(t == type_of_code(v));
        if !IEModels::is_loadable(buff, t) {
            assert(!IEModels::loadable(cs[j as int].0, type_of_code(cs[j as int].1)));
            return false;
        }
        j = j + 1;
    }
    true
}

impl<'data> Biff<'data> {
    /// Whether reading `bytes` runs to its end, as `loadable` says.
    pub fn check_loadable(value: &[u8]) -> (b: bool)
        ensures
            b == Biff::loadable(value@),
    {
        let header = match read_at::<BiffHeader>(value, 0) {
            Some(h) => h,
            None => return true,
        };
        let len = value.len() as u64;
        let fs_start = header.offset_to_file_entries as u64;
        let fs_end = fs_start + header.count_of_fileset_entries as u64 * 16;
        let fs_count: u64 = if fs_end <= len { header.count_of_fileset_entries as u64 } else { 0 };
        let fileset_entries = match read_section::<FilesetEntry>(value, fs_start, fs_count) {
            Some(v) => v,
            None => {
                assert(false);
                return false;
            },
        };
        let ts_end = fs_end + header.count_of_tileset_entries as u64 * 20;
        let ts_count: u64 = if ts_end <= len { header.count_of_tileset_entries as u64 } else { 0 };
        let tileset_entries = match read_section::<TilesetEntry>(value, fs_end, ts_count) {
            Some(v) => v,
            None => {
                assert(false);
                return false;
            },
        };
        proof {
            assert(record_parsed(header, value@, 0));
            assert(Biff::tables_read(value@, header, fileset_entries@, tileset_entries@));
            lemma_biff_tables(value@, header, fileset_entries@, tileset_entries@);
        }
        check_files(value, &fileset_entries, &tileset_entries)
    }
}

} // verus!
