//! Animations (BAM V1, BAM V2 and compressed BAMC).
use vstd::prelude::*;

use crate::common::binary::{Codec, read_bytes, section_end, seq_same, lemma_subrange_concat, lemma_concat_peel, encoded, decoded_at, lemma_decoded_at, record_parsed, section_parsed, section_entries, lemma_section_entries, read_at, read_section, section_ok, section_bytes};
use crate::common::header::Header;
use crate::common::inflate::{inflate, zlib_inflated};
use crate::common::parsers::{rest, rest_bytes};
use crate::model::Model;

verus! {

/// https://gibberlings3.github.io/iesdp/file_formats/ie_formats/bam_v1.htm#bamv1_Header
#[derive(Debug, Clone, PartialEq)]
pub struct BamV1Header {
    pub count_of_frame_entries: u16,
    /// Yes its unsized for some horrible reason
    pub count_of_cycles: i8,
    /// Yes its unsized for some horrible reason
    pub compressed_color_index: i8,
    /// Offset (from start of file) to frame entries (which are immediately followed by cycle entries)
    pub offset_to_frame_entries: u32,
    /// Offset (from start of file) to palette
    pub offset_to_palette: u32,
    /// Offset (from start of file) to frame lookup table
    pub offset_to_lookup_table: u32,
}

impl BamV1Header {
    /// Encoding of the fields 0 to 5, in order.
    pub open spec fn bytes_0_6(&self) -> Seq<u8> {
        self.bytes_0_3() + self.bytes_3_6()
    }

    /// Encoding of the fields 0 to 2, in order.
    pub open spec fn bytes_0_3(&self) -> Seq<u8> {
        self.count_of_frame_entries.enc() + self.bytes_1_3()
    }

    /// Encoding of the fields 1 to 2, in order.
    pub open spec fn bytes_1_3(&self) -> Seq<u8> {
        self.count_of_cycles.enc() + self.compressed_color_index.enc()
    }

    /// Encoding of the fields 3 to 5, in order.
    pub open spec fn bytes_3_6(&self) -> Seq<u8> {
        self.offset_to_frame_entries.enc() + self.bytes_4_6()
    }

    /// Encoding of the fields 4 to 5, in order.
    pub open spec fn bytes_4_6(&self) -> Seq<u8> {
        self.offset_to_palette.enc() + self.offset_to_lookup_table.enc()
    }
}

impl Codec for BamV1Header {
    open spec fn width() -> nat {
        16
    }

    open spec fn enc(&self) -> Seq<u8> {
        self.bytes_0_6()
    }

    open spec fn wf(&self) -> bool {
        true
    }

    open spec fn same(&self, other: &Self) -> bool {
        &&& self.count_of_frame_entries == other.count_of_frame_entries
        &&& self.count_of_cycles == other.count_of_cycles
        &&& self.compressed_color_index == other.compressed_color_index
        &&& self.offset_to_frame_entries == other.offset_to_frame_entries
        &&& self.offset_to_palette == other.offset_to_palette
        &&& self.offset_to_lookup_table == other.offset_to_lookup_table
    }

    fn byte_width() -> (n: usize) {
        16
    }

    fn check_wf(&self) -> (b: bool) {
        true
    }

    proof fn lemma_enc_len(&self) {
        self.count_of_frame_entries.lemma_enc_len();
        self.count_of_cycles.lemma_enc_len();
        self.compressed_color_index.lemma_enc_len();
        self.offset_to_frame_entries.lemma_enc_len();
        self.offset_to_palette.lemma_enc_len();
        self.offset_to_lookup_table.lemma_enc_len();
    }

    proof fn lemma_enc_injective(&self, other: &Self) {
        self.count_of_frame_entries.lemma_enc_len();
        self.count_of_cycles.lemma_enc_len();
        self.compressed_color_index.lemma_enc_len();
        self.offset_to_frame_entries.lemma_enc_len();
        self.offset_to_palette.lemma_enc_len();
        self.offset_to_lookup_table.lemma_enc_len();
        other.count_of_frame_entries.lemma_enc_len();
        other.count_of_cycles.lemma_enc_len();
        other.compressed_color_index.lemma_enc_len();
        other.offset_to_frame_entries.lemma_enc_len();
        other.offset_to_palette.lemma_enc_len();
        other.offset_to_lookup_table.lemma_enc_len();
        lemma_concat_peel(self.bytes_0_3(), self.bytes_3_6(), other.bytes_0_3(), other.bytes_3_6());
        lemma_concat_peel(self.count_of_frame_entries.enc(), self.bytes_1_3(), other.count_of_frame_entries.enc(), other.bytes_1_3());
        lemma_concat_peel(self.count_of_cycles.enc(), self.compressed_color_index.enc(), other.count_of_cycles.enc(), other.compressed_color_index.enc());
        lemma_concat_peel(self.offset_to_frame_entries.enc(), self.bytes_4_6(), other.offset_to_frame_entries.enc(), other.bytes_4_6());
        lemma_concat_peel(self.offset_to_palette.enc(), self.offset_to_lookup_table.enc(), other.offset_to_palette.enc(), other.offset_to_lookup_table.enc());
        self.count_of_frame_entries.lemma_enc_injective(&other.count_of_frame_entries);
        self.count_of_cycles.lemma_enc_injective(&other.count_of_cycles);
        self.compressed_color_index.lemma_enc_injective(&other.compressed_color_index);
        self.offset_to_frame_entries.lemma_enc_injective(&other.offset_to_frame_entries);
        self.offset_to_palette.lemma_enc_injective(&other.offset_to_palette);
        self.offset_to_lookup_table.lemma_enc_injective(&other.offset_to_lookup_table);
    }

    fn decode(buf: &[u8], pos: usize) -> (v: Self) {
        let len = buf.len();
        let fld0 = u16::decode(buf, pos + 0);
        let fld1 = i8::decode(buf, pos + 2);
        let fld2 = i8::decode(buf, pos + 3);
        let fld3 = u32::decode(buf, pos + 4);
        let fld4 = u32::decode(buf, pos + 8);
        let fld5 = u32::decode(buf, pos + 12);
        let v = BamV1Header {
            count_of_frame_entries: fld0,
            count_of_cycles: fld1,
            compressed_color_index: fld2,
            offset_to_frame_entries: fld3,
            offset_to_palette: fld4,
            offset_to_lookup_table: fld5,
        };
        proof {
            lemma_subrange_concat(buf@, pos + 0, pos + 4, pos + 16);
            lemma_subrange_concat(buf@, pos + 0, pos + 2, pos + 4);
            lemma_subrange_concat(buf@, pos + 2, pos + 3, pos + 4);
            lemma_subrange_concat(buf@, pos + 4, pos + 8, pos + 16);
            lemma_subrange_concat(buf@, pos + 8, pos + 12, pos + 16);
        }
        v
    }

    fn encode(&self, out: &mut Vec<u8>) {
        let mut b0 = encoded(&self.count_of_frame_entries);
        let mut b1 = encoded(&self.count_of_cycles);
        let mut b2 = encoded(&self.compressed_color_index);
        let mut b3 = encoded(&self.offset_to_frame_entries);
        let mut b4 = encoded(&self.offset_to_palette);
        let mut b5 = encoded(&self.offset_to_lookup_table);
        b4.append(&mut b5);
        b3.append(&mut b4);
        b1.append(&mut b2);
        b0.append(&mut b1);
        b0.append(&mut b3);
        out.append(&mut b0);
    }
}

/// https://gibberlings3.github.io/iesdp/file_formats/ie_formats/bam_v1.htm#bamv1_FrameEntry
#[derive(Debug, Clone, PartialEq)]
pub struct BamV1FrameEntry {
    pub frame_width: u16,
    pub frame_hieght: u16,
    /// Yes its unsized for some horrible reason
    pub frame_center_x_coordinate: i16,
    /// Yes its unsized for some horrible reason
    pub frame_center_y_coordinate: i16,
    /// bits 30-0: Offset to frame data, bit 31: 0=Compressed (RLE), 1=Uncompressed
    pub offset_to_frame_data: u32,
}

impl BamV1FrameEntry {
    /// Encoding of the fields 0 to 4, in order.
    pub open spec fn bytes_0_5(&self) -> Seq<u8> {
        self.bytes_0_2() + self.bytes_2_5()
    }

    /// Encoding of the fields 0 to 1, in order.
    pub open spec fn bytes_0_2(&self) -> Seq<u8> {
        self.frame_width.enc() + self.frame_hieght.enc()
    }

    /// Encoding of the fields 2 to 4, in order.
    pub open spec fn bytes_2_5(&self) -> Seq<u8> {
        self.frame_center_x_coordinate.enc() + self.bytes_3_5()
    }

    /// Encoding of the fields 3 to 4, in order.
    pub open spec fn bytes_3_5(&self) -> Seq<u8> {
        self.frame_center_y_coordinate.enc() + self.offset_to_frame_data.enc()
    }
}

impl Codec for BamV1FrameEntry {
    open spec fn width() -> nat {
        12
    }

    open spec fn enc(&self) -> Seq<u8> {
        self.bytes_0_5()
    }

    open spec fn wf(&self) -> bool {
        true
    }

    open spec fn same(&self, other: &Self) -> bool {
        &&& self.frame_width == other.frame_width
        &&& self.frame_hieght == other.frame_hieght
        &&& self.frame_center_x_coordinate == other.frame_center_x_coordinate
        &&& self.frame_center_y_coordinate == other.frame_center_y_coordinate
        &&& self.offset_to_frame_data == other.offset_to_frame_data
    }

    fn byte_width() -> (n: usize) {
        12
    }

    fn check_wf(&self) -> (b: bool) {
        true
    }

    proof fn lemma_enc_len(&self) {
        self.frame_width.lemma_enc_len();
        self.frame_hieght.lemma_enc_len();
        self.frame_center_x_coordinate.lemma_enc_len();
        self.frame_center_y_coordinate.lemma_enc_len();
        self.offset_to_frame_data.lemma_enc_len();
    }

    proof fn lemma_enc_injective(&self, other: &Self) {
        self.frame_width.lemma_enc_len();
        self.frame_hieght.lemma_enc_len();
        self.frame_center_x_coordinate.lemma_enc_len();
        self.frame_center_y_coordinate.lemma_enc_len();
        self.offset_to_frame_data.lemma_enc_len();
        other.frame_width.lemma_enc_len();
        other.frame_hieght.lemma_enc_len();
        other.frame_center_x_coordinate.lemma_enc_len();
        other.frame_center_y_coordinate.lemma_enc_len();
        other.offset_to_frame_data.lemma_enc_len();
        lemma_concat_peel(self.bytes_0_2(), self.bytes_2_5(), other.bytes_0_2(), other.bytes_2_5());
        lemma_concat_peel(self.frame_width.enc(), self.frame_hieght.enc(), other.frame_width.enc(), other.frame_hieght.enc());
        lemma_concat_peel(self.frame_center_x_coordinate.enc(), self.bytes_3_5(), other.frame_center_x_coordinate.enc(), other.bytes_3_5());
        lemma_concat_peel(self.frame_center_y_coordinate.enc(), self.offset_to_frame_data.enc(), other.frame_center_y_coordinate.enc(), other.offset_to_frame_data.enc());
        self.frame_width.lemma_enc_injective(&other.frame_width);
        self.frame_hieght.lemma_enc_injective(&other.frame_hieght);
        self.frame_center_x_coordinate.lemma_enc_injective(&other.frame_center_x_coordinate);
        self.frame_center_y_coordinate.lemma_enc_injective(&other.frame_center_y_coordinate);
        self.offset_to_frame_data.lemma_enc_injective(&other.offset_to_frame_data);
    }

    fn decode(buf: &[u8], pos: usize) -> (v: Self) {
        let len = buf.len();
        let fld0 = u16::decode(buf, pos + 0);
        let fld1 = u16::decode(buf, pos + 2);
        let fld2 = i16::decode(buf, pos + 4);
        let fld3 = i16::decode(buf, pos + 6);
        let fld4 = u32::decode(buf, pos + 8);
        let v = BamV1FrameEntry {
            frame_width: fld0,
            frame_hieght: fld1,
            frame_center_x_coordinate: fld2,
            frame_center_y_coordinate: fld3,
            offset_to_frame_data: fld4,
        };
        proof {
            lemma_subrange_concat(buf@, pos + 0, pos + 4, pos + 12);
            lemma_subrange_concat(buf@, pos + 0, pos + 2, pos + 4);
            lemma_subrange_concat(buf@, pos + 4, pos + 6, pos + 12);
            lemma_subrange_concat(buf@, pos + 6, pos + 8, pos + 12);
        }
        v
    }

    fn encode(&self, out: &mut Vec<u8>) {
        let mut b0 = encoded(&self.frame_width);
        let mut b1 = encoded(&self.frame_hieght);
        let mut b2 = encoded(&self.frame_center_x_coordinate);
        let mut b3 = encoded(&self.frame_center_y_coordinate);
        let mut b4 = encoded(&self.offset_to_frame_data);
        b3.append(&mut b4);
        b2.append(&mut b3);
        b0.append(&mut b1);
        b0.append(&mut b2);
        out.append(&mut b0);
    }
}

/// https://gibberlings3.github.io/iesdp/file_formats/ie_formats/bam_v1.htm#bamv1_CycleEntry
#[derive(Debug, Clone, PartialEq)]
pub struct CycleEntry {
    pub count_of_frame_indices: u16,
    pub index_into_frame_lookup_table: u16,
}

impl CycleEntry {
    /// Encoding of the fields 0 to 1, in order.
    pub open spec fn bytes_0_2(&self) -> Seq<u8> {
        self.count_of_frame_indices.enc() + self.index_into_frame_lookup_table.enc()
    }
}

impl Codec for CycleEntry {
    open spec fn width() -> nat {
        4
    }

    open spec fn enc(&self) -> Seq<u8> {
        self.bytes_0_2()
    }

    open spec fn wf(&self) -> bool {
        true
    }

    open spec fn same(&self, other: &Self) -> bool {
        &&& self.count_of_frame_indices == other.count_of_frame_indices
        &&& self.index_into_frame_lookup_table == other.index_into_frame_lookup_table
    }

    fn byte_width() -> (n: usize) {
        4
    }

    fn check_wf(&self) -> (b: bool) {
        true
    }

    proof fn lemma_enc_len(&self) {
        self.count_of_frame_indices.lemma_enc_len();
        self.index_into_frame_lookup_table.lemma_enc_len();
    }

    proof fn lemma_enc_injective(&self, other: &Self) {
        self.count_of_frame_indices.lemma_enc_len();
        self.index_into_frame_lookup_table.lemma_enc_len();
        other.count_of_frame_indices.lemma_enc_len();
        other.index_into_frame_lookup_table.lemma_enc_len();
        lemma_concat_peel(self.count_of_frame_indices.enc(), self.index_into_frame_lookup_table.enc(), other.count_of_frame_indices.enc(), other.index_into_frame_lookup_table.enc());
        self.count_of_frame_indices.lemma_enc_injective(&other.count_of_frame_indices);
        self.index_into_frame_lookup_table.lemma_enc_injective(&other.index_into_frame_lookup_table);
    }

    fn decode(buf: &[u8], pos: usize) -> (v: Self) {
        let len = buf.len();
        let fld0 = u16::decode(buf, pos + 0);
        let fld1 = u16::decode(buf, pos + 2);
        let v = CycleEntry {
            count_of_frame_indices: fld0,
            index_into_frame_lookup_table: fld1,
        };
        proof {
            lemma_subrange_concat(buf@, pos + 0, pos + 2, pos + 4);
        }
        v
    }

    fn encode(&self, out: &mut Vec<u8>) {
        let mut b0 = encoded(&self.count_of_frame_indices);
        let mut b1 = encoded(&self.index_into_frame_lookup_table);
        b0.append(&mut b1);
        out.append(&mut b0);
    }
}

/// https://gibberlings3.github.io/iesdp/file_formats/ie_formats/bam_v2.htm#bamv2_Header
#[derive(Debug, Clone, PartialEq)]
pub struct BamV2Header {
    pub count_of_frame_entries: u32,
    pub count_of_cycle_entries: u32,
    pub count_of_data_blocks: u32,
    /// Offset (from start of file) to frame entries
    pub offset_to_frame_entries: u32,
    /// Offset (from start of file) to cycle entries
    pub offset_to_cycle_entries: u32,
    /// Offset (from start of file) to data blocks
    pub offset_to_data_blocks: u32,
}

impl BamV2Header {
    /// Encoding of the fields 0 to 5, in order.
    pub open spec fn bytes_0_6(&self) -> Seq<u8> {
        self.bytes_0_3() + self.bytes_3_6()
    }

    /// Encoding of the fields 0 to 2, in order.
    pub open spec fn bytes_0_3(&self) -> Seq<u8> {
        self.count_of_frame_entries.enc() + self.bytes_1_3()
    }

    /// Encoding of the fields 1 to 2, in order.
    pub open spec fn bytes_1_3(&self) -> Seq<u8> {
        self.count_of_cycle_entries.enc() + self.count_of_data_blocks.enc()
    }

    /// Encoding of the fields 3 to 5, in order.
    pub open spec fn bytes_3_6(&self) -> Seq<u8> {
        self.offset_to_frame_entries.enc() + self.bytes_4_6()
    }

    /// Encoding of the fields 4 to 5, in order.
    pub open spec fn bytes_4_6(&self) -> Seq<u8> {
        self.offset_to_cycle_entries.enc() + self.offset_to_data_blocks.enc()
    }
}

impl Codec for BamV2Header {
    open spec fn width() -> nat {
        24
    }

    open spec fn enc(&self) -> Seq<u8> {
        self.bytes_0_6()
    }

    open spec fn wf(&self) -> bool {
        true
    }

    open spec fn same(&self, other: &Self) -> bool {
        &&& self.count_of_frame_entries == other.count_of_frame_entries
        &&& self.count_of_cycle_entries == other.count_of_cycle_entries
        &&& self.count_of_data_blocks == other.count_of_data_blocks
        &&& self.offset_to_frame_entries == other.offset_to_frame_entries
        &&& self.offset_to_cycle_entries == other.offset_to_cycle_entries
        &&& self.offset_to_data_blocks == other.offset_to_data_blocks
    }

    fn byte_width() -> (n: usize) {
        24
    }

    fn check_wf(&self) -> (b: bool) {
        true
    }

    proof fn lemma_enc_len(&self) {
        self.count_of_frame_entries.lemma_enc_len();
        self.count_of_cycle_entries.lemma_enc_len();
        self.count_of_data_blocks.lemma_enc_len();
        self.offset_to_frame_entries.lemma_enc_len();
        self.offset_to_cycle_entries.lemma_enc_len();
        self.offset_to_data_blocks.lemma_enc_len();
    }

    proof fn lemma_enc_injective(&self, other: &Self) {
        self.count_of_frame_entries.lemma_enc_len();
        self.count_of_cycle_entries.lemma_enc_len();
        self.count_of_data_blocks.lemma_enc_len();
        self.offset_to_frame_entries.lemma_enc_len();
        self.offset_to_cycle_entries.lemma_enc_len();
        self.offset_to_data_blocks.lemma_enc_len();
        other.count_of_frame_entries.lemma_enc_len();
        other.count_of_cycle_entries.lemma_enc_len();
        other.count_of_data_blocks.lemma_enc_len();
        other.offset_to_frame_entries.lemma_enc_len();
        other.offset_to_cycle_entries.lemma_enc_len();
        other.offset_to_data_blocks.lemma_enc_len();
        lemma_concat_peel(self.bytes_0_3(), self.bytes_3_6(), other.bytes_0_3(), other.bytes_3_6());
        lemma_concat_peel(self.count_of_frame_entries.enc(), self.bytes_1_3(), other.count_of_frame_entries.enc(), other.bytes_1_3());
        lemma_concat_peel(self.count_of_cycle_entries.enc(), self.count_of_data_blocks.enc(), other.count_of_cycle_entries.enc(), other.count_of_data_blocks.enc());
        lemma_concat_peel(self.offset_to_frame_entries.enc(), self.bytes_4_6(), other.offset_to_frame_entries.enc(), other.bytes_4_6());
        lemma_concat_peel(self.offset_to_cycle_entries.enc(), self.offset_to_data_blocks.enc(), other.offset_to_cycle_entries.enc(), other.offset_to_data_blocks.enc());
        self.count_of_frame_entries.lemma_enc_injective(&other.count_of_frame_entries);
        self.count_of_cycle_entries.lemma_enc_injective(&other.count_of_cycle_entries);
        self.count_of_data_blocks.lemma_enc_injective(&other.count_of_data_blocks);
        self.offset_to_frame_entries.lemma_enc_injective(&other.offset_to_frame_entries);
        self.offset_to_cycle_entries.lemma_enc_injective(&other.offset_to_cycle_entries);
        self.offset_to_data_blocks.lemma_enc_injective(&other.offset_to_data_blocks);
    }

    fn decode(buf: &[u8], pos: usize) -> (v: Self) {
        let len = buf.len();
        let fld0 = u32::decode(buf, pos + 0);
        let fld1 = u32::decode(buf, pos + 4);
        let fld2 = u32::decode(buf, pos + 8);
        let fld3 = u32::decode(buf, pos + 12);
        let fld4 = u32::decode(buf, pos + 16);
        let fld5 = u32::decode(buf, pos + 20);
        let v = BamV2Header {
            count_of_frame_entries: fld0,
            count_of_cycle_entries: fld1,
            count_of_data_blocks: fld2,
            offset_to_frame_entries: fld3,
            offset_to_cycle_entries: fld4,
            offset_to_data_blocks: fld5,
        };
        proof {
            lemma_subrange_concat(buf@, pos + 0, pos + 12, pos + 24);
            lemma_subrange_concat(buf@, pos + 0, pos + 4, pos + 12);
            lemma_subrange_concat(buf@, pos + 4, pos + 8, pos + 12);
            lemma_subrange_concat(buf@, pos + 12, pos + 16, pos + 24);
            lemma_subrange_concat(buf@, pos + 16, pos + 20, pos + 24);
        }
        v
    }

    fn encode(&self, out: &mut Vec<u8>) {
        let mut b0 = encoded(&self.count_of_frame_entries);
        let mut b1 = encoded(&self.count_of_cycle_entries);
        let mut b2 = encoded(&self.count_of_data_blocks);
        let mut b3 = encoded(&self.offset_to_frame_entries);
        let mut b4 = encoded(&self.offset_to_cycle_entries);
        let mut b5 = encoded(&self.offset_to_data_blocks);
        b4.append(&mut b5);
        b3.append(&mut b4);
        b1.append(&mut b2);
        b0.append(&mut b1);
        b0.append(&mut b3);
        out.append(&mut b0);
    }
}

/// https://gibberlings3.github.io/iesdp/file_formats/ie_formats/bam_v2.htm#bamv2_FrameEntry
#[derive(Debug, Clone, PartialEq)]
pub struct BamV2FrameEntry {
    pub frame_width: u16,
    pub frame_hieght: u16,
    /// Yes its unsized for some horrible reason
    pub frame_center_x_coordinate: i8,
    /// Yes its unsized for some horrible reason
    pub frame_center_y_coordinate: i8,
    pub compressed_color_index: i8,
    /// bits 30-0: Offset to frame data, bit 31: 0=Compressed (RLE), 1=Uncompressed
    pub offset_to_frame_data: u32,
}

impl BamV2FrameEntry {
    /// Encoding of the fields 0 to 5, in order.
    pub open spec fn bytes_0_6(&self) -> Seq<u8> {
        self.bytes_0_3() + self.bytes_3_6()
    }

    /// Encoding of the fields 0 to 2, in order.
    pub open spec fn bytes_0_3(&self) -> Seq<u8> {
        self.frame_width.enc() + self.bytes_1_3()
    }

    /// Encoding of the fields 1 to 2, in order.
    pub open spec fn bytes_1_3(&self) -> Seq<u8> {
        self.frame_hieght.enc() + self.frame_center_x_coordinate.enc()
    }

    /// Encoding of the fields 3 to 5, in order.
    pub open spec fn bytes_3_6(&self) -> Seq<u8> {
        self.frame_center_y_coordinate.enc() + self.bytes_4_6()
    }

    /// Encoding of the fields 4 to 5, in order.
    pub open spec fn bytes_4_6(&self) -> Seq<u8> {
        self.compressed_color_index.enc() + self.offset_to_frame_data.enc()
    }
}

impl Codec for BamV2FrameEntry {
    open spec fn width() -> nat {
        11
    }

    open spec fn enc(&self) -> Seq<u8> {
        self.bytes_0_6()
    }

    open spec fn wf(&self) -> bool {
        true
    }

    open spec fn same(&self, other: &Self) -> bool {
        &&& self.frame_width == other.frame_width
        &&& self.frame_hieght == other.frame_hieght
        &&& self.frame_center_x_coordinate == other.frame_center_x_coordinate
        &&& self.frame_center_y_coordinate == other.frame_center_y_coordinate
        &&& self.compressed_color_index == other.compressed_color_index
        &&& self.offset_to_frame_data == other.offset_to_frame_data
    }

    fn byte_width() -> (n: usize) {
        11
    }

    fn check_wf(&self) -> (b: bool) {
        true
    }

    proof fn lemma_enc_len(&self) {
        self.frame_width.lemma_enc_len();
        self.frame_hieght.lemma_enc_len();
        self.frame_center_x_coordinate.lemma_enc_len();
        self.frame_center_y_coordinate.lemma_enc_len();
        self.compressed_color_index.lemma_enc_len();
        self.offset_to_frame_data.lemma_enc_len();
    }

    proof fn lemma_enc_injective(&self, other: &Self) {
        self.frame_width.lemma_enc_len();
        self.frame_hieght.lemma_enc_len();
        self.frame_center_x_coordinate.lemma_enc_len();
        self.frame_center_y_coordinate.lemma_enc_len();
        self.compressed_color_index.lemma_enc_len();
        self.offset_to_frame_data.lemma_enc_len();
        other.frame_width.lemma_enc_len();
        other.frame_hieght.lemma_enc_len();
        other.frame_center_x_coordinate.lemma_enc_len();
        other.frame_center_y_coordinate.lemma_enc_len();
        other.compressed_color_index.lemma_enc_len();
        other.offset_to_frame_data.lemma_enc_len();
        lemma_concat_peel(self.bytes_0_3(), self.bytes_3_6(), other.bytes_0_3(), other.bytes_3_6());
        lemma_concat_peel(self.frame_width.enc(), self.bytes_1_3(), other.frame_width.enc(), other.bytes_1_3());
        lemma_concat_peel(self.frame_hieght.enc(), self.frame_center_x_coordinate.enc(), other.frame_hieght.enc(), other.frame_center_x_coordinate.enc());
        lemma_concat_peel(self.frame_center_y_coordinate.enc(), self.bytes_4_6(), other.frame_center_y_coordinate.enc(), other.bytes_4_6());
        lemma_concat_peel(self.compressed_color_index.enc(), self.offset_to_frame_data.enc(), other.compressed_color_index.enc(), other.offset_to_frame_data.enc());
        self.frame_width.lemma_enc_injective(&other.frame_width);
        self.frame_hieght.lemma_enc_injective(&other.frame_hieght);
        self.frame_center_x_coordinate.lemma_enc_injective(&other.frame_center_x_coordinate);
        self.frame_center_y_coordinate.lemma_enc_injective(&other.frame_center_y_coordinate);
        self.compressed_color_index.lemma_enc_injective(&other.compressed_color_index);
        self.offset_to_frame_data.lemma_enc_injective(&other.offset_to_frame_data);
    }

    fn decode(buf: &[u8], pos: usize) -> (v: Self) {
        let len = buf.len();
        let fld0 = u16::decode(buf, pos + 0);
        let fld1 = u16::decode(buf, pos + 2);
        let fld2 = i8::decode(buf, pos + 4);
        let fld3 = i8::decode(buf, pos + 5);
        let fld4 = i8::decode(buf, pos + 6);
        let fld5 = u32::decode(buf, pos + 7);
        let v = BamV2FrameEntry {
            frame_width: fld0,
            frame_hieght: fld1,
            frame_center_x_coordinate: fld2,
            frame_center_y_coordinate: fld3,
            compressed_color_index: fld4,
            offset_to_frame_data: fld5,
        };
        proof {
            lemma_subrange_concat(buf@, pos + 0, pos + 5, pos + 11);
            lemma_subrange_concat(buf@, pos + 0, pos + 2, pos + 5);
            lemma_subrange_concat(buf@, pos + 2, pos + 4, pos + 5);
            lemma_subrange_concat(buf@, pos + 5, pos + 6, pos + 11);
            lemma_subrange_concat(buf@, pos + 6, pos + 7, pos + 11);
        }
        v
    }

    fn encode(&self, out: &mut Vec<u8>) {
        let mut b0 = encoded(&self.frame_width);
        let mut b1 = encoded(&self.frame_hieght);
        let mut b2 = encoded(&self.frame_center_x_coordinate);
        let mut b3 = encoded(&self.frame_center_y_coordinate);
        let mut b4 = encoded(&self.compressed_color_index);
        let mut b5 = encoded(&self.offset_to_frame_data);
        b4.append(&mut b5);
        b3.append(&mut b4);
        b1.append(&mut b2);
        b0.append(&mut b1);
        b0.append(&mut b3);
        out.append(&mut b0);
    }
}

/// https://gibberlings3.github.io/iesdp/file_formats/ie_formats/bam_v2.htm#bamv2_DataBlock
#[derive(Debug, Clone, PartialEq)]
pub struct DataBlock {
    pub pvrz_page: u32,
    pub source_x_coordinate: u32,
    pub source_y_coordinate: u32,
    pub width: u32,
    pub height: u32,
    pub target_x_coordinate: u32,
    pub target_y_coordinate: u32,
}

impl DataBlock {
    /// Encoding of the fields 0 to 6, in order.
    pub open spec fn bytes_0_7(&self) -> Seq<u8> {
        self.bytes_0_3() + self.bytes_3_7()
    }

    /// Encoding of the fields 0 to 2, in order.
    pub open spec fn bytes_0_3(&self) -> Seq<u8> {
        self.pvrz_page.enc() + self.bytes_1_3()
    }

    /// Encoding of the fields 1 to 2, in order.
    pub open spec fn bytes_1_3(&self) -> Seq<u8> {
        self.source_x_coordinate.enc() + self.source_y_coordinate.enc()
    }

    /// Encoding of the fields 3 to 6, in order.
    pub open spec fn bytes_3_7(&self) -> Seq<u8> {
        self.bytes_3_5() + self.bytes_5_7()
    }

    /// Encoding of the fields 3 to 4, in order.
    pub open spec fn bytes_3_5(&self) -> Seq<u8> {
        self.width.enc() + self.height.enc()
    }

    /// Encoding of the fields 5 to 6, in order.
    pub open spec fn bytes_5_7(&self) -> Seq<u8> {
        self.target_x_coordinate.enc() + self.target_y_coordinate.enc()
    }
}

impl Codec for DataBlock {
    open spec fn width() -> nat {
        28
    }

    open spec fn enc(&self) -> Seq<u8> {
        self.bytes_0_7()
    }

    open spec fn wf(&self) -> bool {
        true
    }

    open spec fn same(&self, other: &Self) -> bool {
        &&& self.pvrz_page == other.pvrz_page
        &&& self.source_x_coordinate == other.source_x_coordinate
        &&& self.source_y_coordinate == other.source_y_coordinate
        &&& self.width == other.width
        &&& self.height == other.height
        &&& self.target_x_coordinate == other.target_x_coordinate
        &&& self.target_y_coordinate == other.target_y_coordinate
    }

    fn byte_width() -> (n: usize) {
        28
    }

    fn check_wf(&self) -> (b: bool) {
        true
    }

    proof fn lemma_enc_len(&self) {
        self.pvrz_page.lemma_enc_len();
        self.source_x_coordinate.lemma_enc_len();
        self.source_y_coordinate.lemma_enc_len();
        self.width.lemma_enc_len();
        self.height.lemma_enc_len();
        self.target_x_coordinate.lemma_enc_len();
        self.target_y_coordinate.lemma_enc_len();
    }

    proof fn lemma_enc_injective(&self, other: &Self) {
        self.pvrz_page.lemma_enc_len();
        self.source_x_coordinate.lemma_enc_len();
        self.source_y_coordinate.lemma_enc_len();
        self.width.lemma_enc_len();
        self.height.lemma_enc_len();
        self.target_x_coordinate.lemma_enc_len();
        self.target_y_coordinate.lemma_enc_len();
        other.pvrz_page.lemma_enc_len();
        other.source_x_coordinate.lemma_enc_len();
        other.source_y_coordinate.lemma_enc_len();
        other.width.lemma_enc_len();
        other.height.lemma_enc_len();
        other.target_x_coordinate.lemma_enc_len();
        other.target_y_coordinate.lemma_enc_len();
        lemma_concat_peel(self.bytes_0_3(), self.bytes_3_7(), other.bytes_0_3(), other.bytes_3_7());
        lemma_concat_peel(self.pvrz_page.enc(), self.bytes_1_3(), other.pvrz_page.enc(), other.bytes_1_3());
        lemma_concat_peel(self.source_x_coordinate.enc(), self.source_y_coordinate.enc(), other.source_x_coordinate.enc(), other.source_y_coordinate.enc());
        lemma_concat_peel(self.bytes_3_5(), self.bytes_5_7(), other.bytes_3_5(), other.bytes_5_7());
        lemma_concat_peel(self.width.enc(), self.height.enc(), other.width.enc(), other.height.enc());
        lemma_concat_peel(self.target_x_coordinate.enc(), self.target_y_coordinate.enc(), other.target_x_coordinate.enc(), other.target_y_coordinate.enc());
        self.pvrz_page.lemma_enc_injective(&other.pvrz_page);
        self.source_x_coordinate.lemma_enc_injective(&other.source_x_coordinate);
        self.source_y_coordinate.lemma_enc_injective(&other.source_y_coordinate);
        self.width.lemma_enc_injective(&other.width);
        self.height.lemma_enc_injective(&other.height);
        self.target_x_coordinate.lemma_enc_injective(&other.target_x_coordinate);
        self.target_y_coordinate.lemma_enc_injective(&other.target_y_coordinate);
    }

    fn decode(buf: &[u8], pos: usize) -> (v: Self) {
        let len = buf.len();
        let fld0 = u32::decode(buf, pos + 0);
        let fld1 = u32::decode(buf, pos + 4);
        let fld2 = u32::decode(buf, pos + 8);
        let fld3 = u32::decode(buf, pos + 12);
        let fld4 = u32::decode(buf, pos + 16);
        let fld5 = u32::decode(buf, pos + 20);
        let fld6 = u32::decode(buf, pos + 24);
        let v = DataBlock {
            pvrz_page: fld0,
            source_x_coordinate: fld1,
            source_y_coordinate: fld2,
            width: fld3,
            height: fld4,
            target_x_coordinate: fld5,
            target_y_coordinate: fld6,
        };
        proof {
            lemma_subrange_concat(buf@, pos + 0, pos + 12, pos + 28);
            lemma_subrange_concat(buf@, pos + 0, pos + 4, pos + 12);
            lemma_subrange_concat(buf@, pos + 4, pos + 8, pos + 12);
            lemma_subrange_concat(buf@, pos + 12, pos + 20, pos + 28);
            lemma_subrange_concat(buf@, pos + 12, pos + 16, pos + 20);
            lemma_subrange_concat(buf@, pos + 20, pos + 24, pos + 28);
        }
        v
    }

    fn encode(&self, out: &mut Vec<u8>) {
        let mut b0 = encoded(&self.pvrz_page);
        let mut b1 = encoded(&self.source_x_coordinate);
        let mut b2 = encoded(&self.source_y_coordinate);
        let mut b3 = encoded(&self.width);
        let mut b4 = encoded(&self.height);
        let mut b5 = encoded(&self.target_x_coordinate);
        let mut b6 = encoded(&self.target_y_coordinate);
        b5.append(&mut b6);
        b3.append(&mut b4);
        b3.append(&mut b5);
        b1.append(&mut b2);
        b0.append(&mut b1);
        b0.append(&mut b3);
        out.append(&mut b0);
    }
}

/// Whether `a` holds the four bytes `b0`, `b1`, `b2`, `b3`.
fn is_tag(a: &[u8; 4], b0: u8, b1: u8, b2: u8, b3: u8) -> (r: bool)
    ensures
        r == (a@ == seq![b0, b1, b2, b3]),
{
    let r = a[0] == b0 && a[1] == b1 && a[2] == b2 && a[3] == b3;
    proof {
        if r {
            assert(a@ =~= seq![b0, b1, b2, b3]);
        } else {
            let t = seq![b0, b1, b2, b3];
            assert(a@[0] != t[0] || a@[1] != t[1] || a@[2] != t[2] || a@[3] != t[3]);
        }
    }
    r
}

/// The size of the frame lookup table that `cycles` index into: the largest
/// `index_into_frame_lookup_table + count_of_frame_indices` over them, or 0.
pub open spec fn lookup_size(cycles: Seq<CycleEntry>) -> int
    decreases cycles.len(),
{
    if cycles.len() == 0 {
        0
    } else {
        let accum = lookup_size(cycles.drop_last());
        let e = cycles.last();
        let size_entry = e.index_into_frame_lookup_table + e.count_of_frame_indices;
        if accum > size_entry { accum } else { size_entry }
    }
}

/// The number of entries of the frame lookup table: the largest value of
/// start plus count over the cycle entries, computed without overflow.
pub fn lookup_table_size(cycle_entries: &[CycleEntry]) -> (r: u64)
    ensures
        r == lookup_size(cycle_entries@),
{
    let mut accum: u64 = 0;
    let mut i: usize = 0;
    while i < cycle_entries.len()
        invariant
            i <= cycle_entries@.len(),
            accum == lookup_size(cycle_entries@.take(i as int)),
            accum <= 2 * (u16::MAX as int),
        decreases cycle_entries@.len() - i,
    {
        let e = &cycle_entries[i];
        let size_entry = e.index_into_frame_lookup_table as u64 + e.count_of_frame_indices as u64;
        accum = if accum > size_entry { accum } else { size_entry };
        proof {
            let t = cycle_entries@.take(i + 1);
            assert(t.drop_last() =~= cycle_entries@.take(i as int));
            assert(t.last() == cycle_entries@[i as int]);
        }
        i = i + 1;
    }
    assert(cycle_entries@.take(cycle_entries@.len() as int) =~= cycle_entries@);
    accum
}

/// Two tables of cycle entries with the same contents are equal.
proof fn lemma_cycles_same(a: Seq<CycleEntry>, b: Seq<CycleEntry>)
    requires
        seq_same(a, b),
    ensures
        a == b,
{
    assert forall|i: int| 0 <= i < a.len() implies a[i] == b[i] by {
        assert(a[i].same(&b[i]));
    }
    assert(a =~= b);
}

/// The parts of a BAM V1 animation, in file order.
type BamV1Parts = (BamV1Header, Vec<BamV1FrameEntry>, Vec<CycleEntry>, Vec<u8>, Vec<u8>, Vec<u8>);

/// The parts of a BAM V2 animation, in file order.
type BamV2Parts = (BamV2Header, Vec<BamV2FrameEntry>, Vec<CycleEntry>, Vec<DataBlock>);

/// An animation: BAM V1 with its frames, cycles, palette, lookup table and
/// frame data; compressed BAMC with its data and the data inflated; or BAM V2
/// with its frames, cycles and data blocks. The parts of the other kinds are
/// left empty. It keeps the bytes it was read from.
/// <https://gibberlings3.github.io/iesdp/file_formats/ie_formats/bam_v1.htm>
/// <https://gibberlings3.github.io/iesdp/file_formats/ie_formats/bam_v2.htm>
/// <https://gibberlings3.github.io/iesdp/file_formats/ie_formats/bamcv1.htm>
#[derive(Debug, PartialEq)]
pub struct Bam {
    /// The whole file; it is what an animation is written back as.
    pub original_bytes: Vec<u8>,
    pub header: Header,
    pub bamv1header: BamV1Header,
    pub bamv1_frame_entries: Vec<BamV1FrameEntry>,
    pub bamv1_cycle_entries: Vec<CycleEntry>,
    /// <https://gibberlings3.github.io/iesdp/file_formats/ie_formats/bam_v1.htm#bamv1_Palette>
    pub bamv1_palette: Vec<u8>,
    /// <https://gibberlings3.github.io/iesdp/file_formats/ie_formats/bam_v1.htm#bamv1_FrameLUT>
    pub bamv1_lookup_table: Vec<u8>,
    /// <https://gibberlings3.github.io/iesdp/file_formats/ie_formats/bam_v1.htm#bamv1_Data>
    pub bamv1_frame_data: Vec<u8>,
    pub uncompressed_length: u32,
    pub compressed_data: Vec<u8>,
    pub uncompressed_data: Vec<u8>,
    pub bamv2header: BamV2Header,
    pub bamv2_frame_entries: Vec<BamV2FrameEntry>,
    /// <https://gibberlings3.github.io/iesdp/file_formats/ie_formats/bam_v2.htm#bamv2_CycleEntry>
    pub bamv2_cycle_entries: Vec<CycleEntry>,
    pub bamv2_data_blocks: Vec<DataBlock>,
}

impl Bam {
    /// "BAM\0" with version "V1  ".
    pub open spec fn is_v1(h: Header) -> bool {
        &&& h.signature.0@ == seq![66u8, 65, 77, 0]
        &&& h.version.0@ == seq![118u8, 49, 32, 32]
    }

    /// "BAMC", whatever the version.
    pub open spec fn is_compressed(h: Header) -> bool {
        h.signature.0@ == seq![66u8, 65, 77, 67]
    }

    /// "BAM\0" with version "V2  ".
    pub open spec fn is_v2(h: Header) -> bool {
        &&& h.signature.0@ == seq![66u8, 65, 77, 0]
        &&& h.version.0@ == seq![118u8, 50, 32, 32]
    }

    /// Where the V1 header starts: right after the signature and version.
    pub open spec fn v1_at() -> int {
        Header::width() as int
    }

    /// Where the V1 frame entries start: right after the V1 header.
    pub open spec fn v1_frames_at() -> int {
        Bam::v1_at() + BamV1Header::width()
    }

    /// Where the V1 cycle entries start: right after the frame entries.
    pub open spec fn v1_cycles_at(v: BamV1Header) -> int {
        Bam::v1_frames_at() + v.count_of_frame_entries * BamV1FrameEntry::width()
    }

    /// Where the V1 palette starts: right after the cycle entries.
    pub open spec fn v1_palette_at(v: BamV1Header) -> int {
        Bam::v1_cycles_at(v) + v.count_of_cycles * CycleEntry::width()
    }

    /// The size of the V1 palette: from its offset to the lookup table's.
    pub open spec fn v1_palette_len(v: BamV1Header) -> int {
        v.offset_to_lookup_table - v.offset_to_palette
    }

    /// Where the V1 frame lookup table starts: right after the palette.
    pub open spec fn v1_lookup_at(v: BamV1Header) -> int {
        Bam::v1_palette_at(v) + Bam::v1_palette_len(v)
    }

    /// The V1 cycle entries stored in `buffer`.
    pub open spec fn v1_cycles(buffer: Seq<u8>, v: BamV1Header) -> Seq<CycleEntry> {
        section_entries::<CycleEntry>(buffer, Bam::v1_cycles_at(v), v.count_of_cycles as int)
    }

    /// Where the V1 frame data starts: right after the lookup table.
    pub open spec fn v1_data_at(v: BamV1Header, cycles: Seq<CycleEntry>) -> int {
        Bam::v1_lookup_at(v) + lookup_size(cycles)
    }

    /// `buffer` holds a whole BAM V1 body: a count of cycles that is not
    /// negative, a palette offset not past the lookup table's, and every
    /// table inside the buffer.
    pub open spec fn v1_ok(buffer: Seq<u8>) -> bool {
        let len = buffer.len();
        let v = decoded_at::<BamV1Header>(buffer, Bam::v1_at());
        let cycles = Bam::v1_cycles(buffer, v);
        &&& Bam::v1_frames_at() <= len
        &&& section_ok(len, Bam::v1_frames_at(), v.count_of_frame_entries as int, BamV1FrameEntry::width())
        &&& v.count_of_cycles >= 0
        &&& section_ok(len, Bam::v1_cycles_at(v), v.count_of_cycles as int, CycleEntry::width())
        &&& v.offset_to_palette <= v.offset_to_lookup_table
        &&& section_ok(len, Bam::v1_palette_at(v), Bam::v1_palette_len(v), 1)
        &&& section_ok(len, Bam::v1_lookup_at(v), lookup_size(cycles), 1)
    }

    /// `p` are the parts of the BAM V1 body of `buffer`.
    pub open spec fn v1_parsed(p: BamV1Parts, buffer: Seq<u8>) -> bool {
        let v = p.0;
        &&& record_parsed(v, buffer, Bam::v1_at())
        &&& section_parsed(p.1@, buffer, Bam::v1_frames_at(), v.count_of_frame_entries as int)
        &&& section_parsed(p.2@, buffer, Bam::v1_cycles_at(v), v.count_of_cycles as int)
        &&& p.3@ == section_bytes(buffer, Bam::v1_palette_at(v), Bam::v1_palette_len(v), 1)
        &&& p.4@ == section_bytes(buffer, Bam::v1_lookup_at(v), lookup_size(p.2@), 1)
        &&& p.5@ == rest(buffer, Bam::v1_data_at(v, p.2@))
    }

    /// Where the V2 header starts: right after the signature and version.
    pub open spec fn v2_at() -> int {
        Header::width() as int
    }

    /// Where the V2 frame entries start: right after the V2 header.
    pub open spec fn v2_frames_at() -> int {
        Bam::v2_at() + BamV2Header::width()
    }

    /// Where the V2 cycle entries start: right after the frame entries.
    pub open spec fn v2_cycles_at(v: BamV2Header) -> int {
        Bam::v2_frames_at() + v.count_of_frame_entries * BamV2FrameEntry::width()
    }

    /// Where the V2 data blocks start: right after the cycle entries.
    pub open spec fn v2_blocks_at(v: BamV2Header) -> int {
        Bam::v2_cycles_at(v) + v.count_of_cycle_entries * CycleEntry::width()
    }

    /// `buffer` holds a whole BAM V2 body: the header and every table, one
    /// after another.
    pub open spec fn v2_ok(buffer: Seq<u8>) -> bool {
        let len = buffer.len();
        let v = decoded_at::<BamV2Header>(buffer, Bam::v2_at());
        &&& Bam::v2_frames_at() <= len
        &&& section_ok(len, Bam::v2_frames_at(), v.count_of_frame_entries as int, BamV2FrameEntry::width())
        &&& section_ok(len, Bam::v2_cycles_at(v), v.count_of_cycle_entries as int, CycleEntry::width())
        &&& section_ok(len, Bam::v2_blocks_at(v), v.count_of_data_blocks as int, DataBlock::width())
    }

    /// `p` are the parts of the BAM V2 body of `buffer`.
    pub open spec fn v2_parsed(p: BamV2Parts, buffer: Seq<u8>) -> bool {
        let v = p.0;
        &&& record_parsed(v, buffer, Bam::v2_at())
        &&& section_parsed(p.1@, buffer, Bam::v2_frames_at(), v.count_of_frame_entries as int)
        &&& section_parsed(p.2@, buffer, Bam::v2_cycles_at(v), v.count_of_cycle_entries as int)
        &&& section_parsed(p.3@, buffer, Bam::v2_blocks_at(v), v.count_of_data_blocks as int)
    }

    /// Where the compressed data starts: right after the uncompressed length.
    pub open spec fn compressed_at() -> int {
        Header::width() + 4int
    }

    /// The V1 parts are empty.
    pub open spec fn no_v1(&self) -> bool {
        &&& self.bamv1header == Bam::empty_v1_header()
        &&& self.bamv1_frame_entries@.len() == 0
        &&& self.bamv1_cycle_entries@.len() == 0
        &&& self.bamv1_palette@.len() == 0
        &&& self.bamv1_lookup_table@.len() == 0
        &&& self.bamv1_frame_data@.len() == 0
    }

    /// The BAMC parts are empty.
    pub open spec fn no_compressed(&self) -> bool {
        &&& self.uncompressed_length == 0
        &&& self.compressed_data@.len() == 0
        &&& self.uncompressed_data@.len() == 0
    }

    /// The V2 parts are empty.
    pub open spec fn no_v2(&self) -> bool {
        &&& self.bamv2header == Bam::empty_v2_header()
        &&& self.bamv2_frame_entries@.len() == 0
        &&& self.bamv2_cycle_entries@.len() == 0
        &&& self.bamv2_data_blocks@.len() == 0
    }

    /// A V1 header of zeros.
    pub open spec fn empty_v1_header() -> BamV1Header {
        BamV1Header {
            count_of_frame_entries: 0,
            count_of_cycles: 0,
            compressed_color_index: 0,
            offset_to_frame_entries: 0,
            offset_to_palette: 0,
            offset_to_lookup_table: 0,
        }
    }

    /// A V2 header of zeros.
    pub open spec fn empty_v2_header() -> BamV2Header {
        BamV2Header {
            count_of_frame_entries: 0,
            count_of_cycle_entries: 0,
            count_of_data_blocks: 0,
            offset_to_frame_entries: 0,
            offset_to_cycle_entries: 0,
            offset_to_data_blocks: 0,
        }
    }

    /// The BAMC parts of `self` are those of `buffer`, with `inflated` as
    /// the inflated data.
    pub open spec fn compressed_parsed(&self, buffer: Seq<u8>, inflated: Seq<u8>) -> bool {
        &&& record_parsed(self.uncompressed_length, buffer, Header::width() as int)
        &&& self.compressed_data@ == rest(buffer, Bam::compressed_at())
        &&& self.uncompressed_data@ == inflated
    }

    fn v1_header_zero() -> (v: BamV1Header)
        ensures
            v == Bam::empty_v1_header(),
    {
        BamV1Header {
            count_of_frame_entries: 0,
            count_of_cycles: 0,
            compressed_color_index: 0,
            offset_to_frame_entries: 0,
            offset_to_palette: 0,
            offset_to_lookup_table: 0,
        }
    }

    fn v2_header_zero() -> (v: BamV2Header)
        ensures
            v == Bam::empty_v2_header(),
    {
        BamV2Header {
            count_of_frame_entries: 0,
            count_of_cycle_entries: 0,
            count_of_data_blocks: 0,
            offset_to_frame_entries: 0,
            offset_to_cycle_entries: 0,
            offset_to_data_blocks: 0,
        }
    }

    /// Reads the BAM V1 body that follows the signature and version.
    fn parse_v1(buffer: &[u8]) -> (r: Option<BamV1Parts>)
        ensures
            r is Some <==> Bam::v1_ok(buffer@),
            r matches Some(p) ==> Bam::v1_parsed(p, buffer@),
    {
        let len = buffer.len();
        let v = match read_at::<BamV1Header>(buffer, Header::byte_width() as u64) {
            Some(v) => v,
            None => return None,
        };
        proof {
            lemma_decoded_at(buffer@, Bam::v1_at(), v);
        }
        let frames_at = Header::byte_width() as u64 + BamV1Header::byte_width() as u64;
        let frames = match read_section::<BamV1FrameEntry>(buffer, frames_at, v.count_of_frame_entries as u64) {
            Some(f) => f,
            None => return None,
        };
        if v.count_of_cycles < 0 {
            return None;
        }
        let cycles_at = section_end::<BamV1FrameEntry>(len, frames_at, v.count_of_frame_entries as u64);
        let cycles = match read_section::<CycleEntry>(buffer, cycles_at, v.count_of_cycles as u64) {
            Some(c) => c,
            None => return None,
        };
        proof {
            lemma_section_entries(buffer@, Bam::v1_cycles_at(v), v.count_of_cycles as int, cycles@);
            lemma_cycles_same(Bam::v1_cycles(buffer@, v), cycles@);
        }
        if v.offset_to_palette > v.offset_to_lookup_table {
            return None;
        }
        let palette_at = section_end::<CycleEntry>(len, cycles_at, v.count_of_cycles as u64);
        let palette_len = (v.offset_to_lookup_table - v.offset_to_palette) as u64;
        let palette = match read_bytes(buffer, palette_at, palette_len) {
            Some(p) => p,
            None => return None,
        };
        let lookup_at = if palette_len == 0 { palette_at } else { palette_at + palette_len };
        let lookup_len = lookup_table_size(cycles.as_slice());
        let lookup = match read_bytes(buffer, lookup_at, lookup_len) {
            Some(l) => l,
            None => return None,
        };
        let data_at = if lookup_len == 0 { lookup_at } else { lookup_at + lookup_len };
        let data = rest_bytes(buffer, data_at);
        Some((v, frames, cycles, palette, lookup, data))
    }

    /// Reads the BAM V2 body that follows the signature and version.
    fn parse_v2(buffer: &[u8]) -> (r: Option<BamV2Parts>)
        ensures
            r is Some <==> Bam::v2_ok(buffer@),
            r matches Some(p) ==> Bam::v2_parsed(p, buffer@),
    {
        let len = buffer.len();
        let v = match read_at::<BamV2Header>(buffer, Header::byte_width() as u64) {
            Some(v) => v,
            None => return None,
        };
        proof {
            lemma_decoded_at(buffer@, Bam::v2_at(), v);
        }
        let frames_at = Header::byte_width() as u64 + BamV2Header::byte_width() as u64;
        let frames = match read_section::<BamV2FrameEntry>(buffer, frames_at, v.count_of_frame_entries as u64) {
            Some(f) => f,
            None => return None,
        };
        let cycles_at = section_end::<BamV2FrameEntry>(len, frames_at, v.count_of_frame_entries as u64);
        let cycles = match read_section::<CycleEntry>(buffer, cycles_at, v.count_of_cycle_entries as u64) {
            Some(c) => c,
            None => return None,
        };
        let blocks_at = section_end::<CycleEntry>(len, cycles_at, v.count_of_cycle_entries as u64);
        let blocks = match read_section::<DataBlock>(buffer, blocks_at, v.count_of_data_blocks as u64) {
            Some(b) => b,
            None => return None,
        };
        Some((v, frames, cycles, blocks))
    }

    /// Assembles a compressed animation from `buffer` and the inflated data:
    /// the uncompressed length and the compressed data are read from the
    /// buffer, `uncompressed_data` is kept as it is. Nothing when the buffer
    /// is not a "BAMC" file or is too short for the uncompressed length.
    pub fn from_compressed(buffer: &[u8], uncompressed_data: Vec<u8>) -> (r: Option<Bam>)
        ensures
            r is Some <==> {
                &&& Header::width() <= buffer@.len()
                &&& Bam::is_compressed(decoded_at::<Header>(buffer@, 0))
                &&& Bam::compressed_at() <= buffer@.len()
            },
            r matches Some(b) ==> {
                &&& b.original_bytes@ == buffer@
                &&& record_parsed(b.header, buffer@, 0)
                &&& b.compressed_parsed(buffer@, uncompressed_data@)
                &&& b.no_v1()
                &&& b.no_v2()
            },
    {
        let header = match read_at::<Header>(buffer, 0) {
            Some(h) => h,
            None => return None,
        };
        proof {
            lemma_decoded_at(buffer@, 0, header);
            assert(header.signature.0@ == decoded_at::<Header>(buffer@, 0).signature.0@);
        }
        if !is_tag(&header.signature.0, 66, 65, 77, 67) {
            return None;
        }
        let uncompressed_length = match read_at::<u32>(buffer, Header::byte_width() as u64) {
            Some(n) => n,
            None => return None,
        };
        let compressed_data = rest_bytes(buffer, Header::byte_width() as u64 + 4);
        Some(Bam {
            original_bytes: vstd::slice::slice_to_vec(buffer),
            header,
            bamv1header: Bam::v1_header_zero(),
            bamv1_frame_entries: Vec::new(),
            bamv1_cycle_entries: Vec::new(),
            bamv1_palette: Vec::new(),
            bamv1_lookup_table: Vec::new(),
            bamv1_frame_data: Vec::new(),
            uncompressed_length,
            compressed_data,
            uncompressed_data,
            bamv2header: Bam::v2_header_zero(),
            bamv2_frame_entries: Vec::new(),
            bamv2_cycle_entries: Vec::new(),
            bamv2_data_blocks: Vec::new(),
        })
    }
}

impl Model for Bam {
    open spec fn spec_parses(buffer: Seq<u8>) -> bool {
        let h = decoded_at::<Header>(buffer, 0);
        &&& Header::width() <= buffer.len()
        &&& Bam::is_v1(h) ==> Bam::v1_ok(buffer)
        &&& Bam::is_compressed(h) ==> Bam::compressed_at() <= buffer.len()
        &&& Bam::is_v2(h) ==> Bam::v2_ok(buffer)
    }

    open spec fn parsed_from(&self, buffer: Seq<u8>) -> bool {
        let h = self.header;
        &&& self.original_bytes@ == buffer
        &&& record_parsed(h, buffer, 0)
        &&& if Bam::is_v1(h) {
            Bam::v1_parsed(
                (self.bamv1header, self.bamv1_frame_entries, self.bamv1_cycle_entries, self.bamv1_palette, self.bamv1_lookup_table, self.bamv1_frame_data),
                buffer,
            )
        } else {
            self.no_v1()
        }
        &&& if Bam::is_compressed(h) {
            self.compressed_parsed(buffer, zlib_inflated(rest(buffer, Bam::compressed_at())).0)
        } else {
            self.no_compressed()
        }
        &&& if Bam::is_v2(h) {
            Bam::v2_parsed((self.bamv2header, self.bamv2_frame_entries, self.bamv2_cycle_entries, self.bamv2_data_blocks), buffer)
        } else {
            self.no_v2()
        }
    }

    open spec fn spec_writable(&self) -> bool {
        true
    }

    fn writable(&self) -> (b: bool) {
        true
    }

    open spec fn spec_bytes(&self) -> Seq<u8> {
        self.original_bytes@
    }

    fn parse(buffer: &[u8]) -> (r: Option<Self>) {
        let header = match read_at::<Header>(buffer, 0) {
            Some(h) => h,
            None => return None,
        };
        proof {
            lemma_decoded_at(buffer@, 0, header);
            assert(header.signature.0@ == decoded_at::<Header>(buffer@, 0).signature.0@);
            assert(header.version.0@ == decoded_at::<Header>(buffer@, 0).version.0@);
            assert(seq![66u8, 65, 77, 0][3] != seq![66u8, 65, 77, 67][3]);
            assert(seq![118u8, 49, 32, 32][1] != seq![118u8, 50, 32, 32][1]);
        }
        let bam_sig = is_tag(&header.signature.0, 66, 65, 77, 0);
        if bam_sig && is_tag(&header.version.0, 118, 49, 32, 32) {
            let (v, frames, cycles, palette, lookup, data) = match Bam::parse_v1(buffer) {
                Some(p) => p,
                None => return None,
            };
            Some(Bam {
                original_bytes: vstd::slice::slice_to_vec(buffer),
                header,
                bamv1header: v,
                bamv1_frame_entries: frames,
                bamv1_cycle_entries: cycles,
                bamv1_palette: palette,
                bamv1_lookup_table: lookup,
                bamv1_frame_data: data,
                uncompressed_length: 0,
                compressed_data: Vec::new(),
                uncompressed_data: Vec::new(),
                bamv2header: Bam::v2_header_zero(),
                bamv2_frame_entries: Vec::new(),
                bamv2_cycle_entries: Vec::new(),
                bamv2_data_blocks: Vec::new(),
            })
        } else if is_tag(&header.signature.0, 66, 65, 77, 67) {
            if buffer.len() < Header::byte_width() + 4 {
                return None;
            }
            let tail = vstd::slice::slice_subrange(buffer, Header::byte_width() + 4, buffer.len());
            proof {
                assert(tail@ =~= rest(buffer@, Bam::compressed_at()));
            }
            let (inflated, _complete) = inflate(tail);
            let r = Bam::from_compressed(buffer, inflated);
            proof {
                if r is Some {
                    lemma_decoded_at(buffer@, 0, r->Some_0.header);
                }
            }
            r
        } else if bam_sig && is_tag(&header.version.0, 118, 50, 32, 32) {
            let (v, frames, cycles, blocks) = match Bam::parse_v2(buffer) {
                Some(p) => p,
                None => return None,
            };
            Some(Bam {
                original_bytes: vstd::slice::slice_to_vec(buffer),
                header,
                bamv1header: Bam::v1_header_zero(),
                bamv1_frame_entries: Vec::new(),
                bamv1_cycle_entries: Vec::new(),
                bamv1_palette: Vec::new(),
                bamv1_lookup_table: Vec::new(),
                bamv1_frame_data: Vec::new(),
                uncompressed_length: 0,
                compressed_data: Vec::new(),
                uncompressed_data: Vec::new(),
                bamv2header: v,
                bamv2_frame_entries: frames,
                bamv2_cycle_entries: cycles,
                bamv2_data_blocks: blocks,
            })
        } else {
            Some(Bam {
                original_bytes: vstd::slice::slice_to_vec(buffer),
                header,
                bamv1header: Bam::v1_header_zero(),
                bamv1_frame_entries: Vec::new(),
                bamv1_cycle_entries: Vec::new(),
                bamv1_palette: Vec::new(),
                bamv1_lookup_table: Vec::new(),
                bamv1_frame_data: Vec::new(),
                uncompressed_length: 0,
                compressed_data: Vec::new(),
                uncompressed_data: Vec::new(),
                bamv2header: Bam::v2_header_zero(),
                bamv2_frame_entries: Vec::new(),
                bamv2_cycle_entries: Vec::new(),
                bamv2_data_blocks: Vec::new(),
            })
        }
    }

    fn to_bytes(&self) -> (b: Vec<u8>) {
        self.original_bytes.clone()
    }
}

} // verus!
