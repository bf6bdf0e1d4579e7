//! Effects (EFF V1.0), as creatures embed them.
use vstd::prelude::*;

use crate::common::binary::{Codec, lemma_subrange_concat, lemma_concat_peel, encoded, record_parsed, read_at};
use crate::common::Resref;
use crate::model::Model;

verus! {

/// https://gibberlings3.github.io/iesdp/file_formats/ie_formats/eff_v1.htm#effv1_Header
#[derive(Debug, Clone, PartialEq)]
pub struct EffectV1 {
    pub effect_type: u16,
    pub target_type: u8,
    pub power: u8,
    pub parameter_1: u32,
    pub parameter_2: u32,
    pub timing_mode: u8,
    pub dispel_resistance: u8,
    pub duration: u32,
    pub probability_1: u8,
    pub probability_2: u8,
    pub resref_key: Resref,
    pub dice_thrown_maximum_level: u32,
    pub dice_sides_minimum_level: u32,
    pub saving_throw_type: u32,
    pub saving_throw_bonus: u32,
    pub _unknown: u32,
}

impl EffectV1 {
    /// Encoding of the fields 0 to 15, in order.
    pub open spec fn bytes_0_16(&self) -> Seq<u8> {
        self.bytes_0_8() + self.bytes_8_16()
    }

    /// Encoding of the fields 0 to 7, in order.
    pub open spec fn bytes_0_8(&self) -> Seq<u8> {
        self.bytes_0_4() + self.bytes_4_8()
    }

    /// Encoding of the fields 0 to 3, in order.
    pub open spec fn bytes_0_4(&self) -> Seq<u8> {
        self.bytes_0_2() + self.bytes_2_4()
    }

    /// Encoding of the fields 0 to 1, in order.
    pub open spec fn bytes_0_2(&self) -> Seq<u8> {
        self.effect_type.enc() + self.target_type.enc()
    }

    /// Encoding of the fields 2 to 3, in order.
    pub open spec fn bytes_2_4(&self) -> Seq<u8> {
        self.power.enc() + self.parameter_1.enc()
    }

    /// Encoding of the fields 4 to 7, in order.
    pub open spec fn bytes_4_8(&self) -> Seq<u8> {
        self.bytes_4_6() + self.bytes_6_8()
    }

    /// Encoding of the fields 4 to 5, in order.
    pub open spec fn bytes_4_6(&self) -> Seq<u8> {
        self.parameter_2.enc() + self.timing_mode.enc()
    }

    /// Encoding of the fields 6 to 7, in order.
    pub open spec fn bytes_6_8(&self) -> Seq<u8> {
        self.dispel_resistance.enc() + self.duration.enc()
    }

    /// Encoding of the fields 8 to 15, in order.
    pub open spec fn bytes_8_16(&self) -> Seq<u8> {
        self.bytes_8_12() + self.bytes_12_16()
    }

    /// Encoding of the fields 8 to 11, in order.
    pub open spec fn bytes_8_12(&self) -> Seq<u8> {
        self.bytes_8_10() + self.bytes_10_12()
    }

    /// Encoding of the fields 8 to 9, in order.
    pub open spec fn bytes_8_10(&self) -> Seq<u8> {
        self.probability_1.enc() + self.probability_2.enc()
    }

    /// Encoding of the fields 10 to 11, in order.
    pub open spec fn bytes_10_12(&self) -> Seq<u8> {
        self.resref_key.enc() + self.dice_thrown_maximum_level.enc()
    }

    /// Encoding of the fields 12 to 15, in order.
    pub open spec fn bytes_12_16(&self) -> Seq<u8> {
        self.bytes_12_14() + self.bytes_14_16()
    }

    /// Encoding of the fields 12 to 13, in order.
    pub open spec fn bytes_12_14(&self) -> Seq<u8> {
        self.dice_sides_minimum_level.enc() + self.saving_throw_type.enc()
    }

    /// Encoding of the fields 14 to 15, in order.
    pub open spec fn bytes_14_16(&self) -> Seq<u8> {
        self.saving_throw_bonus.enc() + self._unknown.enc()
    }
}

impl Codec for EffectV1 {
    open spec fn width() -> nat {
        48
    }

    open spec fn enc(&self) -> Seq<u8> {
        self.bytes_0_16()
    }

    open spec fn wf(&self) -> bool {
        true
    }

    open spec fn same(&self, other: &Self) -> bool {
        &&& self.effect_type == other.effect_type
        &&& self.target_type == other.target_type
        &&& self.power == other.power
        &&& self.parameter_1 == other.parameter_1
        &&& self.parameter_2 == other.parameter_2
        &&& self.timing_mode == other.timing_mode
        &&& self.dispel_resistance == other.dispel_resistance
        &&& self.duration == other.duration
        &&& self.probability_1 == other.probability_1
        &&& self.probability_2 == other.probability_2
        &&& self.resref_key.same(&other.resref_key)
        &&& self.dice_thrown_maximum_level == other.dice_thrown_maximum_level
        &&& self.dice_sides_minimum_level == other.dice_sides_minimum_level
        &&& self.saving_throw_type == other.saving_throw_type
        &&& self.saving_throw_bonus == other.saving_throw_bonus
        &&& self._unknown == other._unknown
    }

    fn byte_width() -> (n: usize) {
        48
    }

    fn check_wf(&self) -> (b: bool) {
        true
    }

    proof fn lemma_enc_len(&self) {
        self.effect_type.lemma_enc_len();
        self.target_type.lemma_enc_len();
        self.power.lemma_enc_len();
        self.parameter_1.lemma_enc_len();
        self.parameter_2.lemma_enc_len();
        self.timing_mode.lemma_enc_len();
        self.dispel_resistance.lemma_enc_len();
        self.duration.lemma_enc_len();
        self.probability_1.lemma_enc_len();
        self.probability_2.lemma_enc_len();
        self.resref_key.lemma_enc_len();
        self.dice_thrown_maximum_level.lemma_enc_len();
        self.dice_sides_minimum_level.lemma_enc_len();
        self.saving_throw_type.lemma_enc_len();
        self.saving_throw_bonus.lemma_enc_len();
        self._unknown.lemma_enc_len();
    }

    proof fn lemma_enc_injective(&self, other: &Self) {
        self.effect_type.lemma_enc_len();
        self.target_type.lemma_enc_len();
        self.power.lemma_enc_len();
        self.parameter_1.lemma_enc_len();
        self.parameter_2.lemma_enc_len();
        self.timing_mode.lemma_enc_len();
        self.dispel_resistance.lemma_enc_len();
        self.duration.lemma_enc_len();
        self.probability_1.lemma_enc_len();
        self.probability_2.lemma_enc_len();
        self.resref_key.lemma_enc_len();
        self.dice_thrown_maximum_level.lemma_enc_len();
        self.dice_sides_minimum_level.lemma_enc_len();
        self.saving_throw_type.lemma_enc_len();
        self.saving_throw_bonus.lemma_enc_len();
        self._unknown.lemma_enc_len();
        other.effect_type.lemma_enc_len();
        other.target_type.lemma_enc_len();
        other.power.lemma_enc_len();
        other.parameter_1.lemma_enc_len();
        other.parameter_2.lemma_enc_len();
        other.timing_mode.lemma_enc_len();
        other.dispel_resistance.lemma_enc_len();
        other.duration.lemma_enc_len();
        other.probability_1.lemma_enc_len();
        other.probability_2.lemma_enc_len();
        other.resref_key.lemma_enc_len();
        other.dice_thrown_maximum_level.lemma_enc_len();
        other.dice_sides_minimum_level.lemma_enc_len();
        other.saving_throw_type.lemma_enc_len();
        other.saving_throw_bonus.lemma_enc_len();
        other._unknown.lemma_enc_len();
        lemma_concat_peel(self.bytes_0_8(), self.bytes_8_16(), other.bytes_0_8(), other.bytes_8_16());
        lemma_concat_peel(self.bytes_0_4(), self.bytes_4_8(), other.bytes_0_4(), other.bytes_4_8());
        lemma_concat_peel(self.bytes_0_2(), self.bytes_2_4(), other.bytes_0_2(), other.bytes_2_4());
        lemma_concat_peel(self.effect_type.enc(), self.target_type.enc(), other.effect_type.enc(), other.target_type.enc());
        lemma_concat_peel(self.power.enc(), self.parameter_1.enc(), other.power.enc(), other.parameter_1.enc());
        lemma_concat_peel(self.bytes_4_6(), self.bytes_6_8(), other.bytes_4_6(), other.bytes_6_8());
        lemma_concat_peel(self.parameter_2.enc(), self.timing_mode.enc(), other.parameter_2.enc(), other.timing_mode.enc());
        lemma_concat_peel(self.dispel_resistance.enc(), self.duration.enc(), other.dispel_resistance.enc(), other.duration.enc());
        lemma_concat_peel(self.bytes_8_12(), self.bytes_12_16(), other.bytes_8_12(), other.bytes_12_16());
        lemma_concat_peel(self.bytes_8_10(), self.bytes_10_12(), other.bytes_8_10(), other.bytes_10_12());
        lemma_concat_peel(self.probability_1.enc(), self.probability_2.enc(), other.probability_1.enc(), other.probability_2.enc());
        lemma_concat_peel(self.resref_key.enc(), self.dice_thrown_maximum_level.enc(), other.resref_key.enc(), other.dice_thrown_maximum_level.enc());
        lemma_concat_peel(self.bytes_12_14(), self.bytes_14_16(), other.bytes_12_14(), other.bytes_14_16());
        lemma_concat_peel(self.dice_sides_minimum_level.enc(), self.saving_throw_type.enc(), other.dice_sides_minimum_level.enc(), other.saving_throw_type.enc());
        lemma_concat_peel(self.saving_throw_bonus.enc(), self._unknown.enc(), other.saving_throw_bonus.enc(), other._unknown.enc());
        self.effect_type.lemma_enc_injective(&other.effect_type);
        self.target_type.lemma_enc_injective(&other.target_type);
        self.power.lemma_enc_injective(&other.power);
        self.parameter_1.lemma_enc_injective(&other.parameter_1);
        self.parameter_2.lemma_enc_injective(&other.parameter_2);
        self.timing_mode.lemma_enc_injective(&other.timing_mode);
        self.dispel_resistance.lemma_enc_injective(&other.dispel_resistance);
        self.duration.lemma_enc_injective(&other.duration);
        self.probability_1.lemma_enc_injective(&other.probability_1);
        self.probability_2.lemma_enc_injective(&other.probability_2);
        self.resref_key.lemma_enc_injective(&other.resref_key);
        self.dice_thrown_maximum_level.lemma_enc_injective(&other.dice_thrown_maximum_level);
        self.dice_sides_minimum_level.lemma_enc_injective(&other.dice_sides_minimum_level);
        self.saving_throw_type.lemma_enc_injective(&other.saving_throw_type);
        self.saving_throw_bonus.lemma_enc_injective(&other.saving_throw_bonus);
        self._unknown.lemma_enc_injective(&other._unknown);
    }

    fn decode(buf: &[u8], pos: usize) -> (v: Self) {
        let len = buf.len();
        let fld0 = u16::decode(buf, pos + 0);
        let fld1 = u8::decode(buf, pos + 2);
        let fld2 = u8::decode(buf, pos + 3);
        let fld3 = u32::decode(buf, pos + 4);
        let fld4 = u32::decode(buf, pos + 8);
        let fld5 = u8::decode(buf, pos + 12);
        let fld6 = u8::decode(buf, pos + 13);
        let fld7 = u32::decode(buf, pos + 14);
        let fld8 = u8::decode(buf, pos + 18);
        let fld9 = u8::decode(buf, pos + 19);
        let fld10 = Resref::decode(buf, pos + 20);
        let fld11 = u32::decode(buf, pos + 28);
        let fld12 = u32::decode(buf, pos + 32);
        let fld13 = u32::decode(buf, pos + 36);
        let fld14 = u32::decode(buf, pos + 40);
        let fld15 = u32::decode(buf, pos + 44);
        let v = EffectV1 {
            effect_type: fld0,
            target_type: fld1,
            power: fld2,
            parameter_1: fld3,
            parameter_2: fld4,
            timing_mode: fld5,
            dispel_resistance: fld6,
            duration: fld7,
            probability_1: fld8,
            probability_2: fld9,
            resref_key: fld10,
            dice_thrown_maximum_level: fld11,
            dice_sides_minimum_level: fld12,
            saving_throw_type: fld13,
            saving_throw_bonus: fld14,
            _unknown: fld15,
        };
        proof {
            lemma_subrange_concat(buf@, pos + 0, pos + 18, pos + 48);
            lemma_subrange_concat(buf@, pos + 0, pos + 8, pos + 18);
            lemma_subrange_concat(buf@, pos + 0, pos + 3, pos + 8);
            lemma_subrange_concat(buf@, pos + 0, pos + 2, pos + 3);
            lemma_subrange_concat(buf@, pos + 3, pos + 4, pos + 8);
            lemma_subrange_concat(buf@, pos + 8, pos + 13, pos + 18);
            lemma_subrange_concat(buf@, pos + 8, pos + 12, pos + 13);
            lemma_subrange_concat(buf@, pos + 13, pos + 14, pos + 18);
            lemma_subrange_concat(buf@, pos + 18, pos + 32, pos + 48);
            lemma_subrange_concat(buf@, pos + 18, pos + 20, pos + 32);
            lemma_subrange_concat(buf@, pos + 18, pos + 19, pos + 20);
            lemma_subrange_concat(buf@, pos + 20, pos + 28, pos + 32);
            lemma_subrange_concat(buf@, pos + 32, pos + 40, pos + 48);
            lemma_subrange_concat(buf@, pos + 32, pos + 36, pos + 40);
            lemma_subrange_concat(buf@, pos + 40, pos + 44, pos + 48);
        }
        v
    }

    fn encode(&self, out: &mut Vec<u8>) {
        let mut b0 = encoded(&self.effect_type);
        let mut b1 = encoded(&self.target_type);
        let mut b2 = encoded(&self.power);
        let mut b3 = encoded(&self.parameter_1);
        let mut b4 = encoded(&self.parameter_2);
        let mut b5 = encoded(&self.timing_mode);
        let mut b6 = encoded(&self.dispel_resistance);
        let mut b7 = encoded(&self.duration);
        let mut b8 = encoded(&self.probability_1);
        let mut b9 = encoded(&self.probability_2);
        let mut b10 = encoded(&self.resref_key);
        let mut b11 = encoded(&self.dice_thrown_maximum_level);
        let mut b12 = encoded(&self.dice_sides_minimum_level);
        let mut b13 = encoded(&self.saving_throw_type);
        let mut b14 = encoded(&self.saving_throw_bonus);
        let mut b15 = encoded(&self._unknown);
        b14.append(&mut b15);
        b12.append(&mut b13);
        b12.append(&mut b14);
        b10.append(&mut b11);
        b8.append(&mut b9);
        b8.append(&mut b10);
        b8.append(&mut b12);
        b6.append(&mut b7);
        b4.append(&mut b5);
        b4.append(&mut b6);
        b2.append(&mut b3);
        b0.append(&mut b1);
        b0.append(&mut b2);
        b0.append(&mut b4);
        b0.append(&mut b8);
        out.append(&mut b0);
    }
}

impl Model for EffectV1 {
    open spec fn spec_parses(buffer: Seq<u8>) -> bool {
        EffectV1::width() <= buffer.len()
    }

    open spec fn parsed_from(&self, buffer: Seq<u8>) -> bool {
        record_parsed(*self, buffer, 0)
    }

    open spec fn spec_writable(&self) -> bool {
        self.wf()
    }

    fn writable(&self) -> (b: bool) {
        self.check_wf()
    }

    open spec fn spec_bytes(&self) -> Seq<u8> {
        self.enc()
    }

    fn parse(buffer: &[u8]) -> (r: Option<Self>) {
        read_at::<EffectV1>(buffer, 0)
    }

    fn to_bytes(&self) -> (b: Vec<u8>) {
        encoded(self)
    }
}

} // verus!
