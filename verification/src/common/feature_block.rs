//! Feature blocks: the effects that items and spells carry.
use vstd::prelude::*;

use crate::common::binary::{Codec, check_all_wf, enc_seq, all_wf, seq_same, lemma_subrange_concat, lemma_concat_peel, lemma_enc_seq_len, lemma_enc_seq_injective, decode_vec, encoded, encoded_slice};
use crate::common::Resref;

verus! {

/// An effect applied by an item or a spell (a feature block).
/// <https://gibberlings3.github.io/iesdp/file_formats/ie_formats/itm_v1.htm#itmv1_Feature_Block>
#[derive(Debug, Clone, PartialEq)]
pub struct FeatureBlock {
    pub opcode_number: u16,
    pub target_type: u8,
    pub power: u8,
    pub parameter_1: u32,
    pub parameter_2: u32,
    pub timing_mode: u8,
    pub dispel_resistance: u8,
    pub duration: u32,
    pub probability_1: u8,
    pub probability_2: u8,
    pub resource: Resref,
    pub dice_thrown_max_level: u32,
    pub dice_sides_min_level: u32,
    pub saving_throw_type: Vec<u8>,
    pub saving_throw_bonus: u32,
    pub stacking_id: u32,
}

impl FeatureBlock {
    /// Encoding of the fields 0 to 15, in order.
    pub open spec fn bytes_0_16(&self) -> Seq<u8> {
        self.bytes_0_8() + self.bytes_8_16()
    }

    /// Encoding of the fields 0 to 7, in order.
    pub open spec fn bytes_0_8(&self) -> Seq<u8> {
        self.bytes_0_4() + self.bytes_4_8()
    }

    /// Encoding of the fields 0 to 3, in order.
    pub open spec fn bytes_0_4(&self) -> Seq<u8> {
        self.bytes_0_2() + self.bytes_2_4()
    }

    /// Encoding of the fields 0 to 1, in order.
    pub open spec fn bytes_0_2(&self) -> Seq<u8> {
        self.opcode_number.enc() + self.target_type.enc()
    }

    /// Encoding of the fields 2 to 3, in order.
    pub open spec fn bytes_2_4(&self) -> Seq<u8> {
        self.power.enc() + self.parameter_1.enc()
    }

    /// Encoding of the fields 4 to 7, in order.
    pub open spec fn bytes_4_8(&self) -> Seq<u8> {
        self.bytes_4_6() + self.bytes_6_8()
    }

    /// Encoding of the fields 4 to 5, in order.
    pub open spec fn bytes_4_6(&self) -> Seq<u8> {
        self.parameter_2.enc() + self.timing_mode.enc()
    }

    /// Encoding of the fields 6 to 7, in order.
    pub open spec fn bytes_6_8(&self) -> Seq<u8> {
        self.dispel_resistance.enc() + self.duration.enc()
    }

    /// Encoding of the fields 8 to 15, in order.
    pub open spec fn bytes_8_16(&self) -> Seq<u8> {
        self.bytes_8_12() + self.bytes_12_16()
    }

    /// Encoding of the fields 8 to 11, in order.
    pub open spec fn bytes_8_12(&self) -> Seq<u8> {
        self.bytes_8_10() + self.bytes_10_12()
    }

    /// Encoding of the fields 8 to 9, in order.
    pub open spec fn bytes_8_10(&self) -> Seq<u8> {
        self.probability_1.enc() + self.probability_2.enc()
    }

    /// Encoding of the fields 10 to 11, in order.
    pub open spec fn bytes_10_12(&self) -> Seq<u8> {
        self.resource.enc() + self.dice_thrown_max_level.enc()
    }

    /// Encoding of the fields 12 to 15, in order.
    pub open spec fn bytes_12_16(&self) -> Seq<u8> {
        self.bytes_12_14() + self.bytes_14_16()
    }

    /// Encoding of the fields 12 to 13, in order.
    pub open spec fn bytes_12_14(&self) -> Seq<u8> {
        self.dice_sides_min_level.enc() + enc_seq(self.saving_throw_type@)
    }

    /// Encoding of the fields 14 to 15, in order.
    pub open spec fn bytes_14_16(&self) -> Seq<u8> {
        self.saving_throw_bonus.enc() + self.stacking_id.enc()
    }
}

impl Codec for FeatureBlock {
    open spec fn width() -> nat {
        48
    }

    open spec fn enc(&self) -> Seq<u8> {
        self.bytes_0_16()
    }

    open spec fn wf(&self) -> bool {
        &&& self.saving_throw_type@.len() == 4
        &&& all_wf(self.saving_throw_type@)
    }

    open spec fn same(&self, other: &Self) -> bool {
        &&& self.opcode_number == other.opcode_number
        &&& self.target_type == other.target_type
        &&& self.power == other.power
        &&& self.parameter_1 == other.parameter_1
        &&& self.parameter_2 == other.parameter_2
        &&& self.timing_mode == other.timing_mode
        &&& self.dispel_resistance == other.dispel_resistance
        &&& self.duration == other.duration
        &&& self.probability_1 == other.probability_1
        &&& self.probability_2 == other.probability_2
        &&& self.resource.same(&other.resource)
        &&& self.dice_thrown_max_level == other.dice_thrown_max_level
        &&& self.dice_sides_min_level == other.dice_sides_min_level
        &&& seq_same(self.saving_throw_type@, other.saving_throw_type@)
        &&& self.saving_throw_bonus == other.saving_throw_bonus
        &&& self.stacking_id == other.stacking_id
    }

    fn byte_width() -> (n: usize) {
        48
    }

    fn check_wf(&self) -> (b: bool) {
        self.saving_throw_type.len() == 4 && check_all_wf(self.saving_throw_type.as_slice())
    }

    proof fn lemma_enc_len(&self) {
        self.opcode_number.lemma_enc_len();
        self.target_type.lemma_enc_len();
        self.power.lemma_enc_len();
        self.parameter_1.lemma_enc_len();
        self.parameter_2.lemma_enc_len();
        self.timing_mode.lemma_enc_len();
        self.dispel_resistance.lemma_enc_len();
        self.duration.lemma_enc_len();
        self.probability_1.lemma_enc_len();
        self.probability_2.lemma_enc_len();
        self.resource.lemma_enc_len();
        self.dice_thrown_max_level.lemma_enc_len();
        self.dice_sides_min_level.lemma_enc_len();
        lemma_enc_seq_len(self.saving_throw_type@);
        self.saving_throw_bonus.lemma_enc_len();
        self.stacking_id.lemma_enc_len();
    }

    proof fn lemma_enc_injective(&self, other: &Self) {
        self.opcode_number.lemma_enc_len();
        self.target_type.lemma_enc_len();
        self.power.lemma_enc_len();
        self.parameter_1.lemma_enc_len();
        self.parameter_2.lemma_enc_len();
        self.timing_mode.lemma_enc_len();
        self.dispel_resistance.lemma_enc_len();
        self.duration.lemma_enc_len();
        self.probability_1.lemma_enc_len();
        self.probability_2.lemma_enc_len();
        self.resource.lemma_enc_len();
        self.dice_thrown_max_level.lemma_enc_len();
        self.dice_sides_min_level.lemma_enc_len();
        lemma_enc_seq_len(self.saving_throw_type@);
        self.saving_throw_bonus.lemma_enc_len();
        self.stacking_id.lemma_enc_len();
        other.opcode_number.lemma_enc_len();
        other.target_type.lemma_enc_len();
        other.power.lemma_enc_len();
        other.parameter_1.lemma_enc_len();
        other.parameter_2.lemma_enc_len();
        other.timing_mode.lemma_enc_len();
        other.dispel_resistance.lemma_enc_len();
        other.duration.lemma_enc_len();
        other.probability_1.lemma_enc_len();
        other.probability_2.lemma_enc_len();
        other.resource.lemma_enc_len();
        other.dice_thrown_max_level.lemma_enc_len();
        other.dice_sides_min_level.lemma_enc_len();
        lemma_enc_seq_len(other.saving_throw_type@);
        other.saving_throw_bonus.lemma_enc_len();
        other.stacking_id.lemma_enc_len();
        lemma_concat_peel(self.bytes_0_8(), self.bytes_8_16(), other.bytes_0_8(), other.bytes_8_16());
        lemma_concat_peel(self.bytes_0_4(), self.bytes_4_8(), other.bytes_0_4(), other.bytes_4_8());
        lemma_concat_peel(self.bytes_0_2(), self.bytes_2_4(), other.bytes_0_2(), other.bytes_2_4());
        lemma_concat_peel(self.opcode_number.enc(), self.target_type.enc(), other.opcode_number.enc(), other.target_type.enc());
        lemma_concat_peel(self.power.enc(), self.parameter_1.enc(), other.power.enc(), other.parameter_1.enc());
        lemma_concat_peel(self.bytes_4_6(), self.bytes_6_8(), other.bytes_4_6(), other.bytes_6_8());
        lemma_concat_peel(self.parameter_2.enc(), self.timing_mode.enc(), other.parameter_2.enc(), other.timing_mode.enc());
        lemma_concat_peel(self.dispel_resistance.enc(), self.duration.enc(), other.dispel_resistance.enc(), other.duration.enc());
        lemma_concat_peel(self.bytes_8_12(), self.bytes_12_16(), other.bytes_8_12(), other.bytes_12_16());
        lemma_concat_peel(self.bytes_8_10(), self.bytes_10_12(), other.bytes_8_10(), other.bytes_10_12());
        lemma_concat_peel(self.probability_1.enc(), self.probability_2.enc(), other.probability_1.enc(), other.probability_2.enc());
        lemma_concat_peel(self.resource.enc(), self.dice_thrown_max_level.enc(), other.resource.enc(), other.dice_thrown_max_level.enc());
        lemma_concat_peel(self.bytes_12_14(), self.bytes_14_16(), other.bytes_12_14(), other.bytes_14_16());
        lemma_concat_peel(self.dice_sides_min_level.enc(), enc_seq(self.saving_throw_type@), other.dice_sides_min_level.enc(), enc_seq(other.saving_throw_type@));
        lemma_concat_peel(self.saving_throw_bonus.enc(), self.stacking_id.enc(), other.saving_throw_bonus.enc(), other.stacking_id.enc());
        self.opcode_number.lemma_enc_injective(&other.opcode_number);
        self.target_type.lemma_enc_injective(&other.target_type);
        self.power.lemma_enc_injective(&other.power);
        self.parameter_1.lemma_enc_injective(&other.parameter_1);
        self.parameter_2.lemma_enc_injective(&other.parameter_2);
        self.timing_mode.lemma_enc_injective(&other.timing_mode);
        self.dispel_resistance.lemma_enc_injective(&other.dispel_resistance);
        self.duration.lemma_enc_injective(&other.duration);
        self.probability_1.lemma_enc_injective(&other.probability_1);
        self.probability_2.lemma_enc_injective(&other.probability_2);
        self.resource.lemma_enc_injective(&other.resource);
        self.dice_thrown_max_level.lemma_enc_injective(&other.dice_thrown_max_level);
        self.dice_sides_min_level.lemma_enc_injective(&other.dice_sides_min_level);
        lemma_enc_seq_injective(self.saving_throw_type@, other.saving_throw_type@);
        self.saving_throw_bonus.lemma_enc_injective(&other.saving_throw_bonus);
        self.stacking_id.lemma_enc_injective(&other.stacking_id);
    }

    fn decode(buf: &[u8], pos: usize) -> (v: Self) {
        let len = buf.len();
        let fld0 = u16::decode(buf, pos + 0);
        let fld1 = u8::decode(buf, pos + 2);
        let fld2 = u8::decode(buf, pos + 3);
        let fld3 = u32::decode(buf, pos + 4);
        let fld4 = u32::decode(buf, pos + 8);
        let fld5 = u8::decode(buf, pos + 12);
        let fld6 = u8::decode(buf, pos + 13);
        let fld7 = u32::decode(buf, pos + 14);
        let fld8 = u8::decode(buf, pos + 18);
        let fld9 = u8::decode(buf, pos + 19);
        let fld10 = Resref::decode(buf, pos + 20);
        let fld11 = u32::decode(buf, pos + 28);
        let fld12 = u32::decode(buf, pos + 32);
        let fld13 = decode_vec::<u8>(buf, pos + 36, 4);
        let fld14 = u32::decode(buf, pos + 40);
        let fld15 = u32::decode(buf, pos + 44);
        let v = FeatureBlock {
            opcode_number: fld0,
            target_type: fld1,
            power: fld2,
            parameter_1: fld3,
            parameter_2: fld4,
            timing_mode: fld5,
            dispel_resistance: fld6,
            duration: fld7,
            probability_1: fld8,
            probability_2: fld9,
            resource: fld10,
            dice_thrown_max_level: fld11,
            dice_sides_min_level: fld12,
            saving_throw_type: fld13,
            saving_throw_bonus: fld14,
            stacking_id: fld15,
        };
        proof {
            lemma_subrange_concat(buf@, pos + 0, pos + 18, pos + 48);
            lemma_subrange_concat(buf@, pos + 0, pos + 8, pos + 18);
            lemma_subrange_concat(buf@, pos + 0, pos + 3, pos + 8);
            lemma_subrange_concat(buf@, pos + 0, pos + 2, pos + 3);
            lemma_subrange_concat(buf@, pos + 3, pos + 4, pos + 8);
            lemma_subrange_concat(buf@, pos + 8, pos + 13, pos + 18);
            lemma_subrange_concat(buf@, pos + 8, pos + 12, pos + 13);
            lemma_subrange_concat(buf@, pos + 13, pos + 14, pos + 18);
            lemma_subrange_concat(buf@, pos + 18, pos + 32, pos + 48);
            lemma_subrange_concat(buf@, pos + 18, pos + 20, pos + 32);
            lemma_subrange_concat(buf@, pos + 18, pos + 19, pos + 20);
            lemma_subrange_concat(buf@, pos + 20, pos + 28, pos + 32);
            lemma_subrange_concat(buf@, pos + 32, pos + 40, pos + 48);
            lemma_subrange_concat(buf@, pos + 32, pos + 36, pos + 40);
            lemma_subrange_concat(buf@, pos + 40, pos + 44, pos + 48);
        }
        v
    }

    fn encode(&self, out: &mut Vec<u8>) {
        let mut b0 = encoded(&self.opcode_number);
        let mut b1 = encoded(&self.target_type);
        let mut b2 = encoded(&self.power);
        let mut b3 = encoded(&self.parameter_1);
        let mut b4 = encoded(&self.parameter_2);
        let mut b5 = encoded(&self.timing_mode);
        let mut b6 = encoded(&self.dispel_resistance);
        let mut b7 = encoded(&self.duration);
        let mut b8 = encoded(&self.probability_1);
        let mut b9 = encoded(&self.probability_2);
        let mut b10 = encoded(&self.resource);
        let mut b11 = encoded(&self.dice_thrown_max_level);
        let mut b12 = encoded(&self.dice_sides_min_level);
        let mut b13 = encoded_slice(self.saving_throw_type.as_slice());
        let mut b14 = encoded(&self.saving_throw_bonus);
        let mut b15 = encoded(&self.stacking_id);
        b14.append(&mut b15);
        b12.append(&mut b13);
        b12.append(&mut b14);
        b10.append(&mut b11);
        b8.append(&mut b9);
        b8.append(&mut b10);
        b8.append(&mut b12);
        b6.append(&mut b7);
        b4.append(&mut b5);
        b4.append(&mut b6);
        b2.append(&mut b3);
        b0.append(&mut b1);
        b0.append(&mut b2);
        b0.append(&mut b4);
        b0.append(&mut b8);
        out.append(&mut b0);
    }
}

} // verus!
