//! World maps (WMAP V1.0).
use vstd::prelude::*;

use crate::common::binary::{Codec, check_all_wf, enc_seq, all_wf, seq_same, lemma_subrange_concat, lemma_concat_peel, lemma_enc_seq_len, lemma_enc_seq_injective, decode_vec, encoded, encoded_slice, encode_slice, decoded_at, lemma_decoded_at, record_parsed, section_parsed, section_entries, lemma_section_entries, read_at, read_section, read_until_eof, section_ok, until_eof_count};
use crate::common::char_array::CharArray;
use crate::common::strref::Strref;
use crate::common::Resref;
use crate::model::Model;

verus! {

/// https://gibberlings3.github.io/iesdp/file_formats/ie_formats/wmap_v1.htm#wmapv1_0_Header
#[derive(Debug, Clone, PartialEq)]
pub struct WorldMapHeader {
    pub signature: CharArray<4>,
    pub version: CharArray<4>,
    pub count_of_worldmap_entries: u32,
    pub offset_to_worldmap_entries: u32,
}

impl WorldMapHeader {
    /// Encoding of the fields 0 to 3, in order.
    pub open spec fn bytes_0_4(&self) -> Seq<u8> {
        self.bytes_0_2() + self.bytes_2_4()
    }

    /// Encoding of the fields 0 to 1, in order.
    pub open spec fn bytes_0_2(&self) -> Seq<u8> {
        self.signature.enc() + self.version.enc()
    }

    /// Encoding of the fields 2 to 3, in order.
    pub open spec fn bytes_2_4(&self) -> Seq<u8> {
        self.count_of_worldmap_entries.enc() + self.offset_to_worldmap_entries.enc()
    }
}

impl Codec for WorldMapHeader {
    open spec fn width() -> nat {
        16
    }

    open spec fn enc(&self) -> Seq<u8> {
        self.bytes_0_4()
    }

    open spec fn wf(&self) -> bool {
        true
    }

    open spec fn same(&self, other: &Self) -> bool {
        &&& self.signature.same(&other.signature)
        &&& self.version.same(&other.version)
        &&& self.count_of_worldmap_entries == other.count_of_worldmap_entries
        &&& self.offset_to_worldmap_entries == other.offset_to_worldmap_entries
    }

    fn byte_width() -> (n: usize) {
        16
    }

    fn check_wf(&self) -> (b: bool) {
        true
    }

    proof fn lemma_enc_len(&self) {
        self.signature.lemma_enc_len();
        self.version.lemma_enc_len();
        self.count_of_worldmap_entries.lemma_enc_len();
        self.offset_to_worldmap_entries.lemma_enc_len();
    }

    proof fn lemma_enc_injective(&self, other: &Self) {
        self.signature.lemma_enc_len();
        self.version.lemma_enc_len();
        self.count_of_worldmap_entries.lemma_enc_len();
        self.offset_to_worldmap_entries.lemma_enc_len();
        other.signature.lemma_enc_len();
        other.version.lemma_enc_len();
        other.count_of_worldmap_entries.lemma_enc_len();
        other.offset_to_worldmap_entries.lemma_enc_len();
        lemma_concat_peel(self.bytes_0_2(), self.bytes_2_4(), other.bytes_0_2(), other.bytes_2_4());
        lemma_concat_peel(self.signature.enc(), self.version.enc(), other.signature.enc(), other.version.enc());
        lemma_concat_peel(self.count_of_worldmap_entries.enc(), self.offset_to_worldmap_entries.enc(), other.count_of_worldmap_entries.enc(), other.offset_to_worldmap_entries.enc());
        self.signature.lemma_enc_injective(&other.signature);
        self.version.lemma_enc_injective(&other.version);
        self.count_of_worldmap_entries.lemma_enc_injective(&other.count_of_worldmap_entries);
        self.offset_to_worldmap_entries.lemma_enc_injective(&other.offset_to_worldmap_entries);
    }

    fn decode(buf: &[u8], pos: usize) -> (v: Self) {
        let len = buf.len();
        let fld0 = <CharArray<4>>::decode(buf, pos + 0);
        let fld1 = <CharArray<4>>::decode(buf, pos + 4);
        let fld2 = u32::decode(buf, pos + 8);
        let fld3 = u32::decode(buf, pos + 12);
        let v = WorldMapHeader {
            signature: fld0,
            version: fld1,
            count_of_worldmap_entries: fld2,
            offset_to_worldmap_entries: fld3,
        };
        proof {
            lemma_subrange_concat(buf@, pos + 0, pos + 8, pos + 16);
            lemma_subrange_concat(buf@, pos + 0, pos + 4, pos + 8);
            lemma_subrange_concat(buf@, pos + 8, pos + 12, pos + 16);
        }
        v
    }

    fn encode(&self, out: &mut Vec<u8>) {
        let mut b0 = encoded(&self.signature);
        let mut b1 = encoded(&self.version);
        let mut b2 = encoded(&self.count_of_worldmap_entries);
        let mut b3 = encoded(&self.offset_to_worldmap_entries);
        b2.append(&mut b3);
        b0.append(&mut b1);
        b0.append(&mut b2);
        out.append(&mut b0);
    }
}

/// https://gibberlings3.github.io/iesdp/file_formats/ie_formats/wmap_v1.htm#wmapv1_0_Entry
#[derive(Debug, Clone, PartialEq)]
pub struct WorldMapEntry {
    pub background_image_mos_file: Resref,
    pub width: u32,
    pub height: u32,
    pub map_number: u32,
    pub area_name: Strref,
    pub start_centered_on_x: u32,
    pub start_centered_on_y: u32,
    pub count_of_area_entries: u32,
    pub offset_to_area_entries: u32,
    pub offset_to_area_link_entries: u32,
    pub count_of_area_link_entries: u32,
    pub map_icons_bam_file: Resref,
    /// BGEE field only
    pub flags: u32,
    pub _unused: Vec<u8>,
}

impl WorldMapEntry {
    /// Encoding of the fields 0 to 13, in order.
    pub open spec fn bytes_0_14(&self) -> Seq<u8> {
        self.bytes_0_7() + self.bytes_7_14()
    }

    /// Encoding of the fields 0 to 6, in order.
    pub open spec fn bytes_0_7(&self) -> Seq<u8> {
        self.bytes_0_3() + self.bytes_3_7()
    }

    /// Encoding of the fields 0 to 2, in order.
    pub open spec fn bytes_0_3(&self) -> Seq<u8> {
        self.background_image_mos_file.enc() + self.bytes_1_3()
    }

    /// Encoding of the fields 1 to 2, in order.
    pub open spec fn bytes_1_3(&self) -> Seq<u8> {
        self.width.enc() + self.height.enc()
    }

    /// Encoding of the fields 3 to 6, in order.
    pub open spec fn bytes_3_7(&self) -> Seq<u8> {
        self.bytes_3_5() + self.bytes_5_7()
    }

    /// Encoding of the fields 3 to 4, in order.
    pub open spec fn bytes_3_5(&self) -> Seq<u8> {
        self.map_number.enc() + self.area_name.enc()
    }

    /// Encoding of the fields 5 to 6, in order.
    pub open spec fn bytes_5_7(&self) -> Seq<u8> {
        self.start_centered_on_x.enc() + self.start_centered_on_y.enc()
    }

    /// Encoding of the fields 7 to 13, in order.
    pub open spec fn bytes_7_14(&self) -> Seq<u8> {
        self.bytes_7_10() + self.bytes_10_14()
    }

    /// Encoding of the fields 7 to 9, in order.
    pub open spec fn bytes_7_10(&self) -> Seq<u8> {
        self.count_of_area_entries.enc() + self.bytes_8_10()
    }

    /// Encoding of the fields 8 to 9, in order.
    pub open spec fn bytes_8_10(&self) -> Seq<u8> {
        self.offset_to_area_entries.enc() + self.offset_to_area_link_entries.enc()
    }

    /// Encoding of the fields 10 to 13, in order.
    pub open spec fn bytes_10_14(&self) -> Seq<u8> {
        self.bytes_10_12() + self.bytes_12_14()
    }

    /// Encoding of the fields 10 to 11, in order.
    pub open spec fn bytes_10_12(&self) -> Seq<u8> {
        self.count_of_area_link_entries.enc() + self.map_icons_bam_file.enc()
    }

    /// Encoding of the fields 12 to 13, in order.
    pub open spec fn bytes_12_14(&self) -> Seq<u8> {
        self.flags.enc() + enc_seq(self._unused@)
    }
}

impl Codec for WorldMapEntry {
    open spec fn width() -> nat {
        184
    }

    open spec fn enc(&self) -> Seq<u8> {
        self.bytes_0_14()
    }

    open spec fn wf(&self) -> bool {
        &&& self._unused@.len() == 124
        &&& all_wf(self._unused@)
    }

    open spec fn same(&self, other: &Self) -> bool {
        &&& self.background_image_mos_file.same(&other.background_image_mos_file)
        &&& self.width == other.width
        &&& self.height == other.height
        &&& self.map_number == other.map_number
        &&& self.area_name.same(&other.area_name)
        &&& self.start_centered_on_x == other.start_centered_on_x
        &&& self.start_centered_on_y == other.start_centered_on_y
        &&& self.count_of_area_entries == other.count_of_area_entries
        &&& self.offset_to_area_entries == other.offset_to_area_entries
        &&& self.offset_to_area_link_entries == other.offset_to_area_link_entries
        &&& self.count_of_area_link_entries == other.count_of_area_link_entries
        &&& self.map_icons_bam_file.same(&other.map_icons_bam_file)
        &&& self.flags == other.flags
        &&& seq_same(self._unused@, other._unused@)
    }

    fn byte_width() -> (n: usize) {
        184
    }

    fn check_wf(&self) -> (b: bool) {
        self._unused.len() == 124 && check_all_wf(self._unused.as_slice())
    }

    proof fn lemma_enc_len(&self) {
        self.background_image_mos_file.lemma_enc_len();
        self.width.lemma_enc_len();
        self.height.lemma_enc_len();
        self.map_number.lemma_enc_len();
        self.area_name.lemma_enc_len();
        self.start_centered_on_x.lemma_enc_len();
        self.start_centered_on_y.lemma_enc_len();
        self.count_of_area_entries.lemma_enc_len();
        self.offset_to_area_entries.lemma_enc_len();
        self.offset_to_area_link_entries.lemma_enc_len();
        self.count_of_area_link_entries.lemma_enc_len();
        self.map_icons_bam_file.lemma_enc_len();
        self.flags.lemma_enc_len();
        lemma_enc_seq_len(self._unused@);
    }

    proof fn lemma_enc_injective(&self, other: &Self) {
        self.background_image_mos_file.lemma_enc_len();
        self.width.lemma_enc_len();
        self.height.lemma_enc_len();
        self.map_number.lemma_enc_len();
        self.area_name.lemma_enc_len();
        self.start_centered_on_x.lemma_enc_len();
        self.start_centered_on_y.lemma_enc_len();
        self.count_of_area_entries.lemma_enc_len();
        self.offset_to_area_entries.lemma_enc_len();
        self.offset_to_area_link_entries.lemma_enc_len();
        self.count_of_area_link_entries.lemma_enc_len();
        self.map_icons_bam_file.lemma_enc_len();
        self.flags.lemma_enc_len();
        lemma_enc_seq_len(self._unused@);
        other.background_image_mos_file.lemma_enc_len();
        other.width.lemma_enc_len();
        other.height.lemma_enc_len();
        other.map_number.lemma_enc_len();
        other.area_name.lemma_enc_len();
        other.start_centered_on_x.lemma_enc_len();
        other.start_centered_on_y.lemma_enc_len();
        other.count_of_area_entries.lemma_enc_len();
        other.offset_to_area_entries.lemma_enc_len();
        other.offset_to_area_link_entries.lemma_enc_len();
        other.count_of_area_link_entries.lemma_enc_len();
        other.map_icons_bam_file.lemma_enc_len();
        other.flags.lemma_enc_len();
        lemma_enc_seq_len(other._unused@);
        lemma_concat_peel(self.bytes_0_7(), self.bytes_7_14(), other.bytes_0_7(), other.bytes_7_14());
        lemma_concat_peel(self.bytes_0_3(), self.bytes_3_7(), other.bytes_0_3(), other.bytes_3_7());
        lemma_concat_peel(self.background_image_mos_file.enc(), self.bytes_1_3(), other.background_image_mos_file.enc(), other.bytes_1_3());
        lemma_concat_peel(self.width.enc(), self.height.enc(), other.width.enc(), other.height.enc());
        lemma_concat_peel(self.bytes_3_5(), self.bytes_5_7(), other.bytes_3_5(), other.bytes_5_7());
        lemma_concat_peel(self.map_number.enc(), self.area_name.enc(), other.map_number.enc(), other.area_name.enc());
        lemma_concat_peel(self.start_centered_on_x.enc(), self.start_centered_on_y.enc(), other.start_centered_on_x.enc(), other.start_centered_on_y.enc());
        lemma_concat_peel(self.bytes_7_10(), self.bytes_10_14(), other.bytes_7_10(), other.bytes_10_14());
        lemma_concat_peel(self.count_of_area_entries.enc(), self.bytes_8_10(), other.count_of_area_entries.enc(), other.bytes_8_10());
        lemma_concat_peel(self.offset_to_area_entries.enc(), self.offset_to_area_link_entries.enc(), other.offset_to_area_entries.enc(), other.offset_to_area_link_entries.enc());
        lemma_concat_peel(self.bytes_10_12(), self.bytes_12_14(), other.bytes_10_12(), other.bytes_12_14());
        lemma_concat_peel(self.count_of_area_link_entries.enc(), self.map_icons_bam_file.enc(), other.count_of_area_link_entries.enc(), other.map_icons_bam_file.enc());
        lemma_concat_peel(self.flags.enc(), enc_seq(self._unused@), other.flags.enc(), enc_seq(other._unused@));
        self.background_image_mos_file.lemma_enc_injective(&other.background_image_mos_file);
        self.width.lemma_enc_injective(&other.width);
        self.height.lemma_enc_injective(&other.height);
        self.map_number.lemma_enc_injective(&other.map_number);
        self.area_name.lemma_enc_injective(&other.area_name);
        self.start_centered_on_x.lemma_enc_injective(&other.start_centered_on_x);
        self.start_centered_on_y.lemma_enc_injective(&other.start_centered_on_y);
        self.count_of_area_entries.lemma_enc_injective(&other.count_of_area_entries);
        self.offset_to_area_entries.lemma_enc_injective(&other.offset_to_area_entries);
        self.offset_to_area_link_entries.lemma_enc_injective(&other.offset_to_area_link_entries);
        self.count_of_area_link_entries.lemma_enc_injective(&other.count_of_area_link_entries);
        self.map_icons_bam_file.lemma_enc_injective(&other.map_icons_bam_file);
        self.flags.lemma_enc_injective(&other.flags);
        lemma_enc_seq_injective(self._unused@, other._unused@);
    }

    fn decode(buf: &[u8], pos: usize) -> (v: Self) {
        let len = buf.len();
        let fld0 = Resref::decode(buf, pos + 0);
        let fld1 = u32::decode(buf, pos + 8);
        let fld2 = u32::decode(buf, pos + 12);
        let fld3 = u32::decode(buf, pos + 16);
        let fld4 = Strref::decode(buf, pos + 20);
        let fld5 = u32::decode(buf, pos + 24);
        let fld6 = u32::decode(buf, pos + 28);
        let fld7 = u32::decode(buf, pos + 32);
        let fld8 = u32::decode(buf, pos + 36);
        let fld9 = u32::decode(buf, pos + 40);
        let fld10 = u32::decode(buf, pos + 44);
        let fld11 = Resref::decode(buf, pos + 48);
        let fld12 = u32::decode(buf, pos + 56);
        let fld13 = decode_vec::<u8>(buf, pos + 60, 124);
        let v = WorldMapEntry {
            background_image_mos_file: fld0,
            width: fld1,
            height: fld2,
            map_number: fld3,
            area_name: fld4,
            start_centered_on_x: fld5,
            start_centered_on_y: fld6,
            count_of_area_entries: fld7,
            offset_to_area_entries: fld8,
            offset_to_area_link_entries: fld9,
            count_of_area_link_entries: fld10,
            map_icons_bam_file: fld11,
            flags: fld12,
            _unused: fld13,
        };
        proof {
            lemma_subrange_concat(buf@, pos + 0, pos + 32, pos + 184);
            lemma_subrange_concat(buf@, pos + 0, pos + 16, pos + 32);
            lemma_subrange_concat(buf@, pos + 0, pos + 8, pos + 16);
            lemma_subrange_concat(buf@, pos + 8, pos + 12, pos + 16);
            lemma_subrange_concat(buf@, pos + 16, pos + 24, pos + 32);
            lemma_subrange_concat(buf@, pos + 16, pos + 20, pos + 24);
            lemma_subrange_concat(buf@, pos + 24, pos + 28, pos + 32);
            lemma_subrange_concat(buf@, pos + 32, pos + 44, pos + 184);
            lemma_subrange_concat(buf@, pos + 32, pos + 36, pos + 44);
            lemma_subrange_concat(buf@, pos + 36, pos + 40, pos + 44);
            lemma_subrange_concat(buf@, pos + 44, pos + 56, pos + 184);
            lemma_subrange_concat(buf@, pos + 44, pos + 48, pos + 56);
            lemma_subrange_concat(buf@, pos + 56, pos + 60, pos + 184);
        }
        v
    }

    fn encode(&self, out: &mut Vec<u8>) {
        let mut b0 = encoded(&self.background_image_mos_file);
        let mut b1 = encoded(&self.width);
        let mut b2 = encoded(&self.height);
        let mut b3 = encoded(&self.map_number);
        let mut b4 = encoded(&self.area_name);
        let mut b5 = encoded(&self.start_centered_on_x);
        let mut b6 = encoded(&self.start_centered_on_y);
        let mut b7 = encoded(&self.count_of_area_entries);
        let mut b8 = encoded(&self.offset_to_area_entries);
        let mut b9 = encoded(&self.offset_to_area_link_entries);
        let mut b10 = encoded(&self.count_of_area_link_entries);
        let mut b11 = encoded(&self.map_icons_bam_file);
        let mut b12 = encoded(&self.flags);
        let mut b13 = encoded_slice(self._unused.as_slice());
        b12.append(&mut b13);
        b10.append(&mut b11);
        b10.append(&mut b12);
        b8.append(&mut b9);
        b7.append(&mut b8);
        b7.append(&mut b10);
        b5.append(&mut b6);
        b3.append(&mut b4);
        b3.append(&mut b5);
        b1.append(&mut b2);
        b0.append(&mut b1);
        b0.append(&mut b3);
        b0.append(&mut b7);
        out.append(&mut b0);
    }
}

/// https://gibberlings3.github.io/iesdp/file_formats/ie_formats/wmap_v1.htm#wmapv1_0_Area
#[derive(Debug, Clone, PartialEq)]
pub struct AreaEntry {
    pub area_resref: Resref,
    pub area_name_short: Resref,
    pub area_name_long: CharArray<32>,
    pub bitmask_indicating_status_of_area: Vec<u8>,
    pub bam_file_sequence_icons: u32,
    pub x_coordinate: u32,
    pub y_coordinate: u32,
    pub name_caption: Strref,
    pub name_tooltips: Strref,
    pub loading_screen_mos_file: Resref,
    pub link_index_north: u32,
    pub link_count_north: u32,
    pub link_index_west: u32,
    pub link_count_west: u32,
    pub link_index_south: u32,
    pub link_count_south: u32,
    pub link_index_east: u32,
    pub link_count_east: u32,
    pub _unused: Vec<u8>,
}

impl AreaEntry {
    /// Encoding of the fields 0 to 18, in order.
    pub open spec fn bytes_0_19(&self) -> Seq<u8> {
        self.bytes_0_9() + self.bytes_9_19()
    }

    /// Encoding of the fields 0 to 8, in order.
    pub open spec fn bytes_0_9(&self) -> Seq<u8> {
        self.bytes_0_4() + self.bytes_4_9()
    }

    /// Encoding of the fields 0 to 3, in order.
    pub open spec fn bytes_0_4(&self) -> Seq<u8> {
        self.bytes_0_2() + self.bytes_2_4()
    }

    /// Encoding of the fields 0 to 1, in order.
    pub open spec fn bytes_0_2(&self) -> Seq<u8> {
        self.area_resref.enc() + self.area_name_short.enc()
    }

    /// Encoding of the fields 2 to 3, in order.
    pub open spec fn bytes_2_4(&self) -> Seq<u8> {
        self.area_name_long.enc() + enc_seq(self.bitmask_indicating_status_of_area@)
    }

    /// Encoding of the fields 4 to 8, in order.
    pub open spec fn bytes_4_9(&self) -> Seq<u8> {
        self.bytes_4_6() + self.bytes_6_9()
    }

    /// Encoding of the fields 4 to 5, in order.
    pub open spec fn bytes_4_6(&self) -> Seq<u8> {
        self.bam_file_sequence_icons.enc() + self.x_coordinate.enc()
    }

    /// Encoding of the fields 6 to 8, in order.
    pub open spec fn bytes_6_9(&self) -> Seq<u8> {
        self.y_coordinate.enc() + self.bytes_7_9()
    }

    /// Encoding of the fields 7 to 8, in order.
    pub open spec fn bytes_7_9(&self) -> Seq<u8> {
        self.name_caption.enc() + self.name_tooltips.enc()
    }

    /// Encoding of the fields 9 to 18, in order.
    pub open spec fn bytes_9_19(&self) -> Seq<u8> {
        self.bytes_9_14() + self.bytes_14_19()
    }

    /// Encoding of the fields 9 to 13, in order.
    pub open spec fn bytes_9_14(&self) -> Seq<u8> {
        self.bytes_9_11() + self.bytes_11_14()
    }

    /// Encoding of the fields 9 to 10, in order.
    pub open spec fn bytes_9_11(&self) -> Seq<u8> {
        self.loading_screen_mos_file.enc() + self.link_index_north.enc()
    }

    /// Encoding of the fields 11 to 13, in order.
    pub open spec fn bytes_11_14(&self) -> Seq<u8> {
        self.link_count_north.enc() + self.bytes_12_14()
    }

    /// Encoding of the fields 12 to 13, in order.
    pub open spec fn bytes_12_14(&self) -> Seq<u8> {
        self.link_index_west.enc() + self.link_count_west.enc()
    }

    /// Encoding of the fields 14 to 18, in order.
    pub open spec fn bytes_14_19(&self) -> Seq<u8> {
        self.bytes_14_16() + self.bytes_16_19()
    }

    /// Encoding of the fields 14 to 15, in order.
    pub open spec fn bytes_14_16(&self) -> Seq<u8> {
        self.link_index_south.enc() + self.link_count_south.enc()
    }

    /// Encoding of the fields 16 to 18, in order.
    pub open spec fn bytes_16_19(&self) -> Seq<u8> {
        self.link_index_east.enc() + self.bytes_17_19()
    }

    /// Encoding of the fields 17 to 18, in order.
    pub open spec fn bytes_17_19(&self) -> Seq<u8> {
        self.link_count_east.enc() + enc_seq(self._unused@)
    }
}

impl Codec for AreaEntry {
    open spec fn width() -> nat {
        240
    }

    open spec fn enc(&self) -> Seq<u8> {
        self.bytes_0_19()
    }

    open spec fn wf(&self) -> bool {
        &&& self.bitmask_indicating_status_of_area@.len() == 4
        &&& all_wf(self.bitmask_indicating_status_of_area@)
        &&& self._unused@.len() == 128
        &&& all_wf(self._unused@)
    }

    open spec fn same(&self, other: &Self) -> bool {
        &&& self.area_resref.same(&other.area_resref)
        &&& self.area_name_short.same(&other.area_name_short)
        &&& self.area_name_long.same(&other.area_name_long)
        &&& seq_same(self.bitmask_indicating_status_of_area@, other.bitmask_indicating_status_of_area@)
        &&& self.bam_file_sequence_icons == other.bam_file_sequence_icons
        &&& self.x_coordinate == other.x_coordinate
        &&& self.y_coordinate == other.y_coordinate
        &&& self.name_caption.same(&other.name_caption)
        &&& self.name_tooltips.same(&other.name_tooltips)
        &&& self.loading_screen_mos_file.same(&other.loading_screen_mos_file)
        &&& self.link_index_north == other.link_index_north
        &&& self.link_count_north == other.link_count_north
        &&& self.link_index_west == other.link_index_west
        &&& self.link_count_west == other.link_count_west
        &&& self.link_index_south == other.link_index_south
        &&& self.link_count_south == other.link_count_south
        &&& self.link_index_east == other.link_index_east
        &&& self.link_count_east == other.link_count_east
        &&& seq_same(self._unused@, other._unused@)
    }

    fn byte_width() -> (n: usize) {
        240
    }

    fn check_wf(&self) -> (b: bool) {
        self.bitmask_indicating_status_of_area.len() == 4 && check_all_wf(self.bitmask_indicating_status_of_area.as_slice()) && self._unused.len() == 128 && check_all_wf(self._unused.as_slice())
    }

    proof fn lemma_enc_len(&self) {
        self.area_resref.lemma_enc_len();
        self.area_name_short.lemma_enc_len();
        self.area_name_long.lemma_enc_len();
        lemma_enc_seq_len(self.bitmask_indicating_status_of_area@);
        self.bam_file_sequence_icons.lemma_enc_len();
        self.x_coordinate.lemma_enc_len();
        self.y_coordinate.lemma_enc_len();
        self.name_caption.lemma_enc_len();
        self.name_tooltips.lemma_enc_len();
        self.loading_screen_mos_file.lemma_enc_len();
        self.link_index_north.lemma_enc_len();
        self.link_count_north.lemma_enc_len();
        self.link_index_west.lemma_enc_len();
        self.link_count_west.lemma_enc_len();
        self.link_index_south.lemma_enc_len();
        self.link_count_south.lemma_enc_len();
        self.link_index_east.lemma_enc_len();
        self.link_count_east.lemma_enc_len();
        lemma_enc_seq_len(self._unused@);
    }

    proof fn lemma_enc_injective(&self, other: &Self) {
        self.area_resref.lemma_enc_len();
        self.area_name_short.lemma_enc_len();
        self.area_name_long.lemma_enc_len();
        lemma_enc_seq_len(self.bitmask_indicating_status_of_area@);
        self.bam_file_sequence_icons.lemma_enc_len();
        self.x_coordinate.lemma_enc_len();
        self.y_coordinate.lemma_enc_len();
        self.name_caption.lemma_enc_len();
        self.name_tooltips.lemma_enc_len();
        self.loading_screen_mos_file.lemma_enc_len();
        self.link_index_north.lemma_enc_len();
        self.link_count_north.lemma_enc_len();
        self.link_index_west.lemma_enc_len();
        self.link_count_west.lemma_enc_len();
        self.link_index_south.lemma_enc_len();
        self.link_count_south.lemma_enc_len();
        self.link_index_east.lemma_enc_len();
        self.link_count_east.lemma_enc_len();
        lemma_enc_seq_len(self._unused@);
        other.area_resref.lemma_enc_len();
        other.area_name_short.lemma_enc_len();
        other.area_name_long.lemma_enc_len();
        lemma_enc_seq_len(other.bitmask_indicating_status_of_area@);
        other.bam_file_sequence_icons.lemma_enc_len();
        other.x_coordinate.lemma_enc_len();
        other.y_coordinate.lemma_enc_len();
        other.name_caption.lemma_enc_len();
        other.name_tooltips.lemma_enc_len();
        other.loading_screen_mos_file.lemma_enc_len();
        other.link_index_north.lemma_enc_len();
        other.link_count_north.lemma_enc_len();
        other.link_index_west.lemma_enc_len();
        other.link_count_west.lemma_enc_len();
        other.link_index_south.lemma_enc_len();
        other.link_count_south.lemma_enc_len();
        other.link_index_east.lemma_enc_len();
        other.link_count_east.lemma_enc_len();
        lemma_enc_seq_len(other._unused@);
        lemma_concat_peel(self.bytes_0_9(), self.bytes_9_19(), other.bytes_0_9(), other.bytes_9_19());
        lemma_concat_peel(self.bytes_0_4(), self.bytes_4_9(), other.bytes_0_4(), other.bytes_4_9());
        lemma_concat_peel(self.bytes_0_2(), self.bytes_2_4(), other.bytes_0_2(), other.bytes_2_4());
        lemma_concat_peel(self.area_resref.enc(), self.area_name_short.enc(), other.area_resref.enc(), other.area_name_short.enc());
        lemma_concat_peel(self.area_name_long.enc(), enc_seq(self.bitmask_indicating_status_of_area@), other.area_name_long.enc(), enc_seq(other.bitmask_indicating_status_of_area@));
        lemma_concat_peel(self.bytes_4_6(), self.bytes_6_9(), other.bytes_4_6(), other.bytes_6_9());
        lemma_concat_peel(self.bam_file_sequence_icons.enc(), self.x_coordinate.enc(), other.bam_file_sequence_icons.enc(), other.x_coordinate.enc());
        lemma_concat_peel(self.y_coordinate.enc(), self.bytes_7_9(), other.y_coordinate.enc(), other.bytes_7_9());
        lemma_concat_peel(self.name_caption.enc(), self.name_tooltips.enc(), other.name_caption.enc(), other.name_tooltips.enc());
        lemma_concat_peel(self.bytes_9_14(), self.bytes_14_19(), other.bytes_9_14(), other.bytes_14_19());
        lemma_concat_peel(self.bytes_9_11(), self.bytes_11_14(), other.bytes_9_11(), other.bytes_11_14());
        lemma_concat_peel(self.loading_screen_mos_file.enc(), self.link_index_north.enc(), other.loading_screen_mos_file.enc(), other.link_index_north.enc());
        lemma_concat_peel(self.link_count_north.enc(), self.bytes_12_14(), other.link_count_north.enc(), other.bytes_12_14());
        lemma_concat_peel(self.link_index_west.enc(), self.link_count_west.enc(), other.link_index_west.enc(), other.link_count_west.enc());
        lemma_concat_peel(self.bytes_14_16(), self.bytes_16_19(), other.bytes_14_16(), other.bytes_16_19());
        lemma_concat_peel(self.link_index_south.enc(), self.link_count_south.enc(), other.link_index_south.enc(), other.link_count_south.enc());
        lemma_concat_peel(self.link_index_east.enc(), self.bytes_17_19(), other.link_index_east.enc(), other.bytes_17_19());
        lemma_concat_peel(self.link_count_east.enc(), enc_seq(self._unused@), other.link_count_east.enc(), enc_seq(other._unused@));
        self.area_resref.lemma_enc_injective(&other.area_resref);
        self.area_name_short.lemma_enc_injective(&other.area_name_short);
        self.area_name_long.lemma_enc_injective(&other.area_name_long);
        lemma_enc_seq_injective(self.bitmask_indicating_status_of_area@, other.bitmask_indicating_status_of_area@);
        self.bam_file_sequence_icons.lemma_enc_injective(&other.bam_file_sequence_icons);
        self.x_coordinate.lemma_enc_injective(&other.x_coordinate);
        self.y_coordinate.lemma_enc_injective(&other.y_coordinate);
        self.name_caption.lemma_enc_injective(&other.name_caption);
        self.name_tooltips.lemma_enc_injective(&other.name_tooltips);
        self.loading_screen_mos_file.lemma_enc_injective(&other.loading_screen_mos_file);
        self.link_index_north.lemma_enc_injective(&other.link_index_north);
        self.link_count_north.lemma_enc_injective(&other.link_count_north);
        self.link_index_west.lemma_enc_injective(&other.link_index_west);
        self.link_count_west.lemma_enc_injective(&other.link_count_west);
        self.link_index_south.lemma_enc_injective(&other.link_index_south);
        self.link_count_south.lemma_enc_injective(&other.link_count_south);
        self.link_index_east.lemma_enc_injective(&other.link_index_east);
        self.link_count_east.lemma_enc_injective(&other.link_count_east);
        lemma_enc_seq_injective(self._unused@, other._unused@);
    }

    fn decode(buf: &[u8], pos: usize) -> (v: Self) {
        let len = buf.len();
        let fld0 = Resref::decode(buf, pos + 0);
        let fld1 = Resref::decode(buf, pos + 8);
        let fld2 = <CharArray<32>>::decode(buf, pos + 16);
        let fld3 = decode_vec::<u8>(buf, pos + 48, 4);
        let fld4 = u32::decode(buf, pos + 52);
        let fld5 = u32::decode(buf, pos + 56);
        let fld6 = u32::decode(buf, pos + 60);
        let fld7 = Strref::decode(buf, pos + 64);
        let fld8 = Strref::decode(buf, pos + 68);
        let fld9 = Resref::decode(buf, pos + 72);
        let fld10 = u32::decode(buf, pos + 80);
        let fld11 = u32::decode(buf, pos + 84);
        let fld12 = u32::decode(buf, pos + 88);
        let fld13 = u32::decode(buf, pos + 92);
        let fld14 = u32::decode(buf, pos + 96);
        let fld15 = u32::decode(buf, pos + 100);
        let fld16 = u32::decode(buf, pos + 104);
        let fld17 = u32::decode(buf, pos + 108);
        let fld18 = decode_vec::<u8>(buf, pos + 112, 128);
        let v = AreaEntry {
            area_resref: fld0,
            area_name_short: fld1,
            area_name_long: fld2,
            bitmask_indicating_status_of_area: fld3,
            bam_file_sequence_icons: fld4,
            x_coordinate: fld5,
            y_coordinate: fld6,
            name_caption: fld7,
            name_tooltips: fld8,
            loading_screen_mos_file: fld9,
            link_index_north: fld10,
            link_count_north: fld11,
            link_index_west: fld12,
            link_count_west: fld13,
            link_index_south: fld14,
            link_count_south: fld15,
            link_index_east: fld16,
            link_count_east: fld17,
            _unused: fld18,
        };
        proof {
            lemma_subrange_concat(buf@, pos + 0, pos + 72, pos + 240);
            lemma_subrange_concat(buf@, pos + 0, pos + 52, pos + 72);
            lemma_subrange_concat(buf@, pos + 0, pos + 16, pos + 52);
            lemma_subrange_concat(buf@, pos + 0, pos + 8, pos + 16);
            lemma_subrange_concat(buf@, pos + 16, pos + 48, pos + 52);
            lemma_subrange_concat(buf@, pos + 52, pos + 60, pos + 72);
            lemma_subrange_concat(buf@, pos + 52, pos + 56, pos + 60);
            lemma_subrange_concat(buf@, pos + 60, pos + 64, pos + 72);
            lemma_subrange_concat(buf@, pos + 64, pos + 68, pos + 72);
            lemma_subrange_concat(buf@, pos + 72, pos + 96, pos + 240);
            lemma_subrange_concat(buf@, pos + 72, pos + 84, pos + 96);
            lemma_subrange_concat(buf@, pos + 72, pos + 80, pos + 84);
            lemma_subrange_concat(buf@, pos + 84, pos + 88, pos + 96);
            lemma_subrange_concat(buf@, pos + 88, pos + 92, pos + 96);
            lemma_subrange_concat(buf@, pos + 96, pos + 104, pos + 240);
            lemma_subrange_concat(buf@, pos + 96, pos + 100, pos + 104);
            lemma_subrange_concat(buf@, pos + 104, pos + 108, pos + 240);
            lemma_subrange_concat(buf@, pos + 108, pos + 112, pos + 240);
        }
        v
    }

    fn encode(&self, out: &mut Vec<u8>) {
        let mut b0 = encoded(&self.area_resref);
        let mut b1 = encoded(&self.area_name_short);
        let mut b2 = encoded(&self.area_name_long);
        let mut b3 = encoded_slice(self.bitmask_indicating_status_of_area.as_slice());
        let mut b4 = encoded(&self.bam_file_sequence_icons);
        let mut b5 = encoded(&self.x_coordinate);
        let mut b6 = encoded(&self.y_coordinate);
        let mut b7 = encoded(&self.name_caption);
        let mut b8 = encoded(&self.name_tooltips);
        let mut b9 = encoded(&self.loading_screen_mos_file);
        let mut b10 = encoded(&self.link_index_north);
        let mut b11 = encoded(&self.link_count_north);
        let mut b12 = encoded(&self.link_index_west);
        let mut b13 = encoded(&self.link_count_west);
        let mut b14 = encoded(&self.link_index_south);
        let mut b15 = encoded(&self.link_count_south);
        let mut b16 = encoded(&self.link_index_east);
        let mut b17 = encoded(&self.link_count_east);
        let mut b18 = encoded_slice(self._unused.as_slice());
        b17.append(&mut b18);
        b16.append(&mut b17);
        b14.append(&mut b15);
        b14.append(&mut b16);
        b12.append(&mut b13);
        b11.append(&mut b12);
        b9.append(&mut b10);
        b9.append(&mut b11);
        b9.append(&mut b14);
        b7.append(&mut b8);
        b6.append(&mut b7);
        b4.append(&mut b5);
        b4.append(&mut b6);
        b2.append(&mut b3);
        b0.append(&mut b1);
        b0.append(&mut b2);
        b0.append(&mut b4);
        b0.append(&mut b9);
        out.append(&mut b0);
    }
}

/// https://gibberlings3.github.io/iesdp/file_formats/ie_formats/wmap_v1.htm#wmapv1_0_AreaLink
#[derive(Debug, Clone, PartialEq)]
pub struct AreaLink {
    pub index_of_destination_area: u32,
    pub entry_point: CharArray<32>,
    pub travel_time: u32,
    pub default_entry_location: u32,
    pub random_encounter_area_1: Resref,
    pub random_encounter_area_2: Resref,
    pub random_encounter_area_3: Resref,
    pub random_encounter_area_4: Resref,
    pub random_encounter_area_5: Resref,
    pub random_encounter_probability: u32,
    pub _unused: Vec<u8>,
}

impl AreaLink {
    /// Encoding of the fields 0 to 10, in order.
    pub open spec fn bytes_0_11(&self) -> Seq<u8> {
        self.bytes_0_5() + self.bytes_5_11()
    }

    /// Encoding of the fields 0 to 4, in order.
    pub open spec fn bytes_0_5(&self) -> Seq<u8> {
        self.bytes_0_2() + self.bytes_2_5()
    }

    /// Encoding of the fields 0 to 1, in order.
    pub open spec fn bytes_0_2(&self) -> Seq<u8> {
        self.index_of_destination_area.enc() + self.entry_point.enc()
    }

    /// Encoding of the fields 2 to 4, in order.
    pub open spec fn bytes_2_5(&self) -> Seq<u8> {
        self.travel_time.enc() + self.bytes_3_5()
    }

    /// Encoding of the fields 3 to 4, in order.
    pub open spec fn bytes_3_5(&self) -> Seq<u8> {
        self.default_entry_location.enc() + self.random_encounter_area_1.enc()
    }

    /// Encoding of the fields 5 to 10, in order.
    pub open spec fn bytes_5_11(&self) -> Seq<u8> {
        self.bytes_5_8() + self.bytes_8_11()
    }

    /// Encoding of the fields 5 to 7, in order.
    pub open spec fn bytes_5_8(&self) -> Seq<u8> {
        self.random_encounter_area_2.enc() + self.bytes_6_8()
    }

    /// Encoding of the fields 6 to 7, in order.
    pub open spec fn bytes_6_8(&self) -> Seq<u8> {
        self.random_encounter_area_3.enc() + self.random_encounter_area_4.enc()
    }

    /// Encoding of the fields 8 to 10, in order.
    pub open spec fn bytes_8_11(&self) -> Seq<u8> {
        self.random_encounter_area_5.enc() + self.bytes_9_11()
    }

    /// Encoding of the fields 9 to 10, in order.
    pub open spec fn bytes_9_11(&self) -> Seq<u8> {
        self.random_encounter_probability.enc() + enc_seq(self._unused@)
    }
}

impl Codec for AreaLink {
    open spec fn width() -> nat {
        216
    }

    open spec fn enc(&self) -> Seq<u8> {
        self.bytes_0_11()
    }

    open spec fn wf(&self) -> bool {
        &&& self._unused@.len() == 128
        &&& all_wf(self._unused@)
    }

    open spec fn same(&self, other: &Self) -> bool {
        &&& self.index_of_destination_area == other.index_of_destination_area
        &&& self.entry_point.same(&other.entry_point)
        &&& self.travel_time == other.travel_time
        &&& self.default_entry_location == other.default_entry_location
        &&& self.random_encounter_area_1.same(&other.random_encounter_area_1)
        &&& self.random_encounter_area_2.same(&other.random_encounter_area_2)
        &&& self.random_encounter_area_3.same(&other.random_encounter_area_3)
        &&& self.random_encounter_area_4.same(&other.random_encounter_area_4)
        &&& self.random_encounter_area_5.same(&other.random_encounter_area_5)
        &&& self.random_encounter_probability == other.random_encounter_probability
        &&& seq_same(self._unused@, other._unused@)
    }

    fn byte_width() -> (n: usize) {
        216
    }

    fn check_wf(&self) -> (b: bool) {
        self._unused.len() == 128 && check_all_wf(self._unused.as_slice())
    }

    proof fn lemma_enc_len(&self) {
        self.index_of_destination_area.lemma_enc_len();
        self.entry_point.lemma_enc_len();
        self.travel_time.lemma_enc_len();
        self.default_entry_location.lemma_enc_len();
        self.random_encounter_area_1.lemma_enc_len();
        self.random_encounter_area_2.lemma_enc_len();
        self.random_encounter_area_3.lemma_enc_len();
        self.random_encounter_area_4.lemma_enc_len();
        self.random_encounter_area_5.lemma_enc_len();
        self.random_encounter_probability.lemma_enc_len();
        lemma_enc_seq_len(self._unused@);
    }

    proof fn lemma_enc_injective(&self, other: &Self) {
        self.index_of_destination_area.lemma_enc_len();
        self.entry_point.lemma_enc_len();
        self.travel_time.lemma_enc_len();
        self.default_entry_location.lemma_enc_len();
        self.random_encounter_area_1.lemma_enc_len();
        self.random_encounter_area_2.lemma_enc_len();
        self.random_encounter_area_3.lemma_enc_len();
        self.random_encounter_area_4.lemma_enc_len();
        self.random_encounter_area_5.lemma_enc_len();
        self.random_encounter_probability.lemma_enc_len();
        lemma_enc_seq_len(self._unused@);
        other.index_of_destination_area.lemma_enc_len();
        other.entry_point.lemma_enc_len();
        other.travel_time.lemma_enc_len();
        other.default_entry_location.lemma_enc_len();
        other.random_encounter_area_1.lemma_enc_len();
        other.random_encounter_area_2.lemma_enc_len();
        other.random_encounter_area_3.lemma_enc_len();
        other.random_encounter_area_4.lemma_enc_len();
        other.random_encounter_area_5.lemma_enc_len();
        other.random_encounter_probability.lemma_enc_len();
        lemma_enc_seq_len(other._unused@);
        lemma_concat_peel(self.bytes_0_5(), self.bytes_5_11(), other.bytes_0_5(), other.bytes_5_11());
        lemma_concat_peel(self.bytes_0_2(), self.bytes_2_5(), other.bytes_0_2(), other.bytes_2_5());
        lemma_concat_peel(self.index_of_destination_area.enc(), self.entry_point.enc(), other.index_of_destination_area.enc(), other.entry_point.enc());
        lemma_concat_peel(self.travel_time.enc(), self.bytes_3_5(), other.travel_time.enc(), other.bytes_3_5());
        lemma_concat_peel(self.default_entry_location.enc(), self.random_encounter_area_1.enc(), other.default_entry_location.enc(), other.random_encounter_area_1.enc());
        lemma_concat_peel(self.bytes_5_8(), self.bytes_8_11(), other.bytes_5_8(), other.bytes_8_11());
        lemma_concat_peel(self.random_encounter_area_2.enc(), self.bytes_6_8(), other.random_encounter_area_2.enc(), other.bytes_6_8());
        lemma_concat_peel(self.random_encounter_area_3.enc(), self.random_encounter_area_4.enc(), other.random_encounter_area_3.enc(), other.random_encounter_area_4.enc());
        lemma_concat_peel(self.random_encounter_area_5.enc(), self.bytes_9_11(), other.random_encounter_area_5.enc(), other.bytes_9_11());
        lemma_concat_peel(self.random_encounter_probability.enc(), enc_seq(self._unused@), other.random_encounter_probability.enc(), enc_seq(other._unused@));
        self.index_of_destination_area.lemma_enc_injective(&other.index_of_destination_area);
        self.entry_point.lemma_enc_injective(&other.entry_point);
        self.travel_time.lemma_enc_injective(&other.travel_time);
        self.default_entry_location.lemma_enc_injective(&other.default_entry_location);
        self.random_encounter_area_1.lemma_enc_injective(&other.random_encounter_area_1);
        self.random_encounter_area_2.lemma_enc_injective(&other.random_encounter_area_2);
        self.random_encounter_area_3.lemma_enc_injective(&other.random_encounter_area_3);
        self.random_encounter_area_4.lemma_enc_injective(&other.random_encounter_area_4);
        self.random_encounter_area_5.lemma_enc_injective(&other.random_encounter_area_5);
        self.random_encounter_probability.lemma_enc_injective(&other.random_encounter_probability);
        lemma_enc_seq_injective(self._unused@, other._unused@);
    }

    fn decode(buf: &[u8], pos: usize) -> (v: Self) {
        let len = buf.len();
        let fld0 = u32::decode(buf, pos + 0);
        let fld1 = <CharArray<32>>::decode(buf, pos + 4);
        let fld2 = u32::decode(buf, pos + 36);
        let fld3 = u32::decode(buf, pos + 40);
        let fld4 = Resref::decode(buf, pos + 44);
        let fld5 = Resref::decode(buf, pos + 52);
        let fld6 = Resref::decode(buf, pos + 60);
        let fld7 = Resref::decode(buf, pos + 68);
        let fld8 = Resref::decode(buf, pos + 76);
        let fld9 = u32::decode(buf, pos + 84);
        let fld10 = decode_vec::<u8>(buf, pos + 88, 128);
        let v = AreaLink {
            index_of_destination_area: fld0,
            entry_point: fld1,
            travel_time: fld2,
            default_entry_location: fld3,
            random_encounter_area_1: fld4,
            random_encounter_area_2: fld5,
            random_encounter_area_3: fld6,
            random_encounter_area_4: fld7,
            random_encounter_area_5: fld8,
            random_encounter_probability: fld9,
            _unused: fld10,
        };
        proof {
            lemma_subrange_concat(buf@, pos + 0, pos + 52, pos + 216);
            lemma_subrange_concat(buf@, pos + 0, pos + 36, pos + 52);
            lemma_subrange_concat(buf@, pos + 0, pos + 4, pos + 36);
            lemma_subrange_concat(buf@, pos + 36, pos + 40, pos + 52);
            lemma_subrange_concat(buf@, pos + 40, pos + 44, pos + 52);
            lemma_subrange_concat(buf@, pos + 52, pos + 76, pos + 216);
            lemma_subrange_concat(buf@, pos + 52, pos + 60, pos + 76);
            lemma_subrange_concat(buf@, pos + 60, pos + 68, pos + 76);
            lemma_subrange_concat(buf@, pos + 76, pos + 84, pos + 216);
            lemma_subrange_concat(buf@, pos + 84, pos + 88, pos + 216);
        }
        v
    }

    fn encode(&self, out: &mut Vec<u8>) {
        let mut b0 = encoded(&self.index_of_destination_area);
        let mut b1 = encoded(&self.entry_point);
        let mut b2 = encoded(&self.travel_time);
        let mut b3 = encoded(&self.default_entry_location);
        let mut b4 = encoded(&self.random_encounter_area_1);
        let mut b5 = encoded(&self.random_encounter_area_2);
        let mut b6 = encoded(&self.random_encounter_area_3);
        let mut b7 = encoded(&self.random_encounter_area_4);
        let mut b8 = encoded(&self.random_encounter_area_5);
        let mut b9 = encoded(&self.random_encounter_probability);
        let mut b10 = encoded_slice(self._unused.as_slice());
        b9.append(&mut b10);
        b8.append(&mut b9);
        b6.append(&mut b7);
        b5.append(&mut b6);
        b5.append(&mut b8);
        b3.append(&mut b4);
        b2.append(&mut b3);
        b0.append(&mut b1);
        b0.append(&mut b2);
        b0.append(&mut b5);
        out.append(&mut b0);
    }
}

/// The total number of area entries that the world map entries announce.
pub open spec fn area_count(entries: Seq<WorldMapEntry>) -> int
    decreases entries.len(),
{
    if entries.len() == 0 {
        0
    } else {
        area_count(entries.drop_last()) + entries.last().count_of_area_entries
    }
}

/// A world map: its header, the map entries the header places, the area
/// entries that follow them (as many as the map entries announce together),
/// and every whole area link from there to the end of the file.
/// <https://gibberlings3.github.io/iesdp/file_formats/ie_formats/wmap_v1.htm>
#[derive(Debug)]
pub struct WorldMap {
    pub header: WorldMapHeader,
    pub world_map_entries: Vec<WorldMapEntry>,
    pub area_entries: Vec<AreaEntry>,
    pub area_link_entries: Vec<AreaLink>,
}

impl WorldMap {
    /// Where the area entries start: right after the map entries.
    pub open spec fn areas_at(h: WorldMapHeader) -> int {
        h.offset_to_worldmap_entries + h.count_of_worldmap_entries * WorldMapEntry::width()
    }

    /// Where the area links start: right after the area entries.
    pub open spec fn links_at(h: WorldMapHeader, entries: Seq<WorldMapEntry>) -> int {
        WorldMap::areas_at(h) + area_count(entries) * AreaEntry::width()
    }

    /// Adds up the area counts of the map entries; nothing when the sum does
    /// not fit in 32 bits.
    fn total_area_count(entries: &Vec<WorldMapEntry>) -> (r: Option<u32>)
        ensures
            r is Some <==> area_count(entries@) <= u32::MAX,
            r matches Some(n) ==> n == area_count(entries@),
    {
        let mut total: u32 = 0;
        let mut i: usize = 0;
        while i < entries.len()
            invariant
                i <= entries@.len(),
                total == area_count(entries@.take(i as int)),
                forall|j: int| 0 <= j <= i ==> area_count(#[trigger] entries@.take(j)) <= u32::MAX,
            decreases entries@.len() - i,
        {
            assert(entries@.take(i + 1).drop_last() =~= entries@.take(i as int));
            match total.checked_add(entries[i].count_of_area_entries) {
                Some(t) => total = t,
                None => {
                    proof {
                        lemma_area_count_prefix(entries@, i + 1);
                    }
                    return None;
                },
            }
            i = i + 1;
        }
        assert(entries@.take(i as int) =~= entries@);
        Some(total)
    }
}

/// The total of a prefix never exceeds the total.
proof fn lemma_area_count_prefix(entries: Seq<WorldMapEntry>, n: int)
    requires
        0 <= n <= entries.len(),
    ensures
        area_count(entries.take(n)) <= area_count(entries),
    decreases entries.len(),
{
    if n < entries.len() {
        assert(entries.drop_last().take(n) =~= entries.take(n));
        lemma_area_count_prefix(entries.drop_last(), n);
    } else {
        assert(entries.take(n) =~= entries);
    }
}

proof fn lemma_area_count_same(a: Seq<WorldMapEntry>, b: Seq<WorldMapEntry>)
    requires
        seq_same(a, b),
    ensures
        area_count(a) == area_count(b),
    decreases a.len(),
{
    if a.len() > 0 {
        assert(a.last().same(&b.last()));
        lemma_area_count_same(a.drop_last(), b.drop_last());
    }
}

impl Model for WorldMap {
    open spec fn spec_parses(buffer: Seq<u8>) -> bool {
        let h = decoded_at::<WorldMapHeader>(buffer, 0);
        let len = buffer.len();
        &&& WorldMapHeader::width() <= len
        &&& section_ok(len, h.offset_to_worldmap_entries as int, h.count_of_worldmap_entries as int, WorldMapEntry::width())
        &&& {
            let entries = section_entries::<WorldMapEntry>(buffer, h.offset_to_worldmap_entries as int, h.count_of_worldmap_entries as int);
            &&& area_count(entries) <= u32::MAX
            &&& section_ok(len, WorldMap::areas_at(h), area_count(entries), AreaEntry::width())
        }
    }

    open spec fn parsed_from(&self, buffer: Seq<u8>) -> bool {
        let h = self.header;
        let links_at = WorldMap::links_at(h, self.world_map_entries@);
        &&& record_parsed(h, buffer, 0)
        &&& section_parsed(self.world_map_entries@, buffer, h.offset_to_worldmap_entries as int, h.count_of_worldmap_entries as int)
        &&& section_parsed(self.area_entries@, buffer, WorldMap::areas_at(h), area_count(self.world_map_entries@))
        &&& section_parsed(self.area_link_entries@, buffer, links_at, until_eof_count(buffer.len(), links_at, AreaLink::width()))
    }

    open spec fn spec_writable(&self) -> bool {
        &&& self.header.wf()
        &&& all_wf(self.world_map_entries@)
        &&& all_wf(self.area_entries@)
        &&& all_wf(self.area_link_entries@)
    }

    fn writable(&self) -> (b: bool) {
        self.header.check_wf() && check_all_wf(self.world_map_entries.as_slice()) && check_all_wf(self.area_entries.as_slice()) && check_all_wf(self.area_link_entries.as_slice())
    }

    /// Every table written one after another, with no gaps.
    open spec fn spec_bytes(&self) -> Seq<u8> {
        self.header.enc() + enc_seq(self.world_map_entries@) + enc_seq(self.area_entries@) + enc_seq(
            self.area_link_entries@,
        )
    }

    fn parse(buffer: &[u8]) -> (r: Option<Self>) {
        let header = match read_at::<WorldMapHeader>(buffer, 0) {
            Some(h) => h,
            None => return None,
        };
        proof {
            lemma_decoded_at(buffer@, 0, header);
        }
        let world_map_entries = match read_section::<WorldMapEntry>(buffer, header.offset_to_worldmap_entries as u64, header.count_of_worldmap_entries as u64) {
            Some(v) => v,
            None => return None,
        };
        proof {
            let h = header;
            lemma_section_entries(buffer@, h.offset_to_worldmap_entries as int, h.count_of_worldmap_entries as int, world_map_entries@);
            lemma_area_count_same(
                section_entries::<WorldMapEntry>(buffer@, h.offset_to_worldmap_entries as int, h.count_of_worldmap_entries as int),
                world_map_entries@,
            );
        }
        let count = match WorldMap::total_area_count(&world_map_entries) {
            Some(n) => n,
            None => return None,
        };
        let at = header.offset_to_worldmap_entries as u64 + header.count_of_worldmap_entries as u64 * WorldMapEntry::byte_width() as u64;
        let area_entries = match read_section::<AreaEntry>(buffer, at, count as u64) {
            Some(v) => v,
            None => return None,
        };
        let links = at + count as u64 * AreaEntry::byte_width() as u64;
        let area_link_entries = read_until_eof::<AreaLink>(buffer, links);
        Some(WorldMap { header, world_map_entries, area_entries, area_link_entries })
    }

    fn to_bytes(&self) -> (b: Vec<u8>) {
        let mut out = encoded(&self.header);
        encode_slice(self.world_map_entries.as_slice(), &mut out);
        encode_slice(self.area_entries.as_slice(), &mut out);
        encode_slice(self.area_link_entries.as_slice(), &mut out);
        out
    }
}

} // verus!
