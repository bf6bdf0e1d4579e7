//! Effects (EFF V2.0).
use vstd::prelude::*;

use crate::common::binary::{Codec, check_all_wf, enc_seq, all_wf, seq_same, lemma_subrange_concat, lemma_concat_peel, lemma_enc_seq_len, lemma_enc_seq_injective, decode_vec, encoded, encoded_slice, record_parsed, read_at};
use crate::common::char_array::CharArray;
use crate::common::header::Header;
use crate::common::Resref;
use crate::model::Model;

verus! {

/// https://gibberlings3.github.io/iesdp/file_formats/ie_formats/cre_v1.htm#CREV1_0_Effects
#[derive(Debug, Clone, PartialEq)]
pub struct EffectV2BodyWithOutHeader {
    pub opcode_number: u32,
    pub target_type: u32,
    pub power: u32,
    pub parameter_1: u32,
    pub parameter_2: u32,
    pub timing_mode: u16,
    pub timing: u16,
    pub duration: u32,
    pub probability_1: u16,
    pub probability_2: u16,
    pub resource_1: Resref,
    pub dice_thrown: u32,
    pub dice_sides: u32,
    pub saving_throw_type: u32,
    pub saving_throw_bonus: u32,
    pub special: u32,
    pub primary_spell_school: u32,
    pub _unknown_1: u32,
    pub parent_resource_lowest_affected_level: u32,
    pub parent_resource_highest_affected_level: u32,
    pub dispel_resistance: u32,
    pub parameter_3: u32,
    pub parameter_4: u32,
    pub parameter_5: u32,
    pub time_applied_ticks: u32,
    pub resource_2: Resref,
    pub resource_3: Resref,
    pub caster_x_coordinate: u32,
    pub caster_y_coordinate: u32,
    pub target_x_coordinate: u32,
    pub target_y_coordinate: u32,
    pub parent_resource_type: u32,
    pub parent_resource: Resref,
    pub parent_resource_flags: Vec<u8>,
    pub projectile: u32,
    pub parent_resource_slot: u32,
    pub variable_name: CharArray<32>,
    pub caster_level: u32,
    pub first_apply: u32,
    /// https://gibberlings3.github.io/iesdp/files/2da/2da_bgee/msectype.htm
    pub secondary_type: u32,
    pub _unknown_2: Vec<u32>,
}

impl EffectV2BodyWithOutHeader {
    /// Encoding of the fields 0 to 40, in order.
    pub open spec fn bytes_0_41(&self) -> Seq<u8> {
        self.bytes_0_20() + self.bytes_20_41()
    }

    /// Encoding of the fields 0 to 19, in order.
    pub open spec fn bytes_0_20(&self) -> Seq<u8> {
        self.bytes_0_10() + self.bytes_10_20()
    }

    /// Encoding of the fields 0 to 9, in order.
    pub open spec fn bytes_0_10(&self) -> Seq<u8> {
        self.bytes_0_5() + self.bytes_5_10()
    }

    /// Encoding of the fields 0 to 4, in order.
    pub open spec fn bytes_0_5(&self) -> Seq<u8> {
        self.bytes_0_2() + self.bytes_2_5()
    }

    /// Encoding of the fields 0 to 1, in order.
    pub open spec fn bytes_0_2(&self) -> Seq<u8> {
        self.opcode_number.enc() + self.target_type.enc()
    }

    /// Encoding of the fields 2 to 4, in order.
    pub open spec fn bytes_2_5(&self) -> Seq<u8> {
        self.power.enc() + self.bytes_3_5()
    }

    /// Encoding of the fields 3 to 4, in order.
    pub open spec fn bytes_3_5(&self) -> Seq<u8> {
        self.parameter_1.enc() + self.parameter_2.enc()
    }

    /// Encoding of the fields 5 to 9, in order.
    pub open spec fn bytes_5_10(&self) -> Seq<u8> {
        self.bytes_5_7() + self.bytes_7_10()
    }

    /// Encoding of the fields 5 to 6, in order.
    pub open spec fn bytes_5_7(&self) -> Seq<u8> {
        self.timing_mode.enc() + self.timing.enc()
    }

    /// Encoding of the fields 7 to 9, in order.
    pub open spec fn bytes_7_10(&self) -> Seq<u8> {
        self.duration.enc() + self.bytes_8_10()
    }

    /// Encoding of the fields 8 to 9, in order.
    pub open spec fn bytes_8_10(&self) -> Seq<u8> {
        self.probability_1.enc() + self.probability_2.enc()
    }

    /// Encoding of the fields 10 to 19, in order.
    pub open spec fn bytes_10_20(&self) -> Seq<u8> {
        self.bytes_10_15() + self.bytes_15_20()
    }

    /// Encoding of the fields 10 to 14, in order.
    pub open spec fn bytes_10_15(&self) -> Seq<u8> {
        self.bytes_10_12() + self.bytes_12_15()
    }

    /// Encoding of the fields 10 to 11, in order.
    pub open spec fn bytes_10_12(&self) -> Seq<u8> {
        self.resource_1.enc() + self.dice_thrown.enc()
    }

    /// Encoding of the fields 12 to 14, in order.
    pub open spec fn bytes_12_15(&self) -> Seq<u8> {
        self.dice_sides.enc() + self.bytes_13_15()
    }

    /// Encoding of the fields 13 to 14, in order.
    pub open spec fn bytes_13_15(&self) -> Seq<u8> {
        self.saving_throw_type.enc() + self.saving_throw_bonus.enc()
    }

    /// Encoding of the fields 15 to 19, in order.
    pub open spec fn bytes_15_20(&self) -> Seq<u8> {
        self.bytes_15_17() + self.bytes_17_20()
    }

    /// Encoding of the fields 15 to 16, in order.
    pub open spec fn bytes_15_17(&self) -> Seq<u8> {
        self.special.enc() + self.primary_spell_school.enc()
    }

    /// Encoding of the fields 17 to 19, in order.
    pub open spec fn bytes_17_20(&self) -> Seq<u8> {
        self._unknown_1.enc() + self.bytes_18_20()
    }

    /// Encoding of the fields 18 to 19, in order.
    pub open spec fn bytes_18_20(&self) -> Seq<u8> {
        self.parent_resource_lowest_affected_level.enc() + self.parent_resource_highest_affected_level.enc()
    }

    /// Encoding of the fields 20 to 40, in order.
    pub open spec fn bytes_20_41(&self) -> Seq<u8> {
        self.bytes_20_30() + self.bytes_30_41()
    }

    /// Encoding of the fields 20 to 29, in order.
    pub open spec fn bytes_20_30(&self) -> Seq<u8> {
        self.bytes_20_25() + self.bytes_25_30()
    }

    /// Encoding of the fields 20 to 24, in order.
    pub open spec fn bytes_20_25(&self) -> Seq<u8> {
        self.bytes_20_22() + self.bytes_22_25()
    }

    /// Encoding of the fields 20 to 21, in order.
    pub open spec fn bytes_20_22(&self) -> Seq<u8> {
        self.dispel_resistance.enc() + self.parameter_3.enc()
    }

    /// Encoding of the fields 22 to 24, in order.
    pub open spec fn bytes_22_25(&self) -> Seq<u8> {
        self.parameter_4.enc() + self.bytes_23_25()
    }

    /// Encoding of the fields 23 to 24, in order.
    pub open spec fn bytes_23_25(&self) -> Seq<u8> {
        self.parameter_5.enc() + self.time_applied_ticks.enc()
    }

    /// Encoding of the fields 25 to 29, in order.
    pub open spec fn bytes_25_30(&self) -> Seq<u8> {
        self.bytes_25_27() + self.bytes_27_30()
    }

    /// Encoding of the fields 25 to 26, in order.
    pub open spec fn bytes_25_27(&self) -> Seq<u8> {
        self.resource_2.enc() + self.resource_3.enc()
    }

    /// Encoding of the fields 27 to 29, in order.
    pub open spec fn bytes_27_30(&self) -> Seq<u8> {
        self.caster_x_coordinate.enc() + self.bytes_28_30()
    }

    /// Encoding of the fields 28 to 29, in order.
    pub open spec fn bytes_28_30(&self) -> Seq<u8> {
        self.caster_y_coordinate.enc() + self.target_x_coordinate.enc()
    }

    /// Encoding of the fields 30 to 40, in order.
    pub open spec fn bytes_30_41(&self) -> Seq<u8> {
        self.bytes_30_35() + self.bytes_35_41()
    }

    /// Encoding of the fields 30 to 34, in order.
    pub open spec fn bytes_30_35(&self) -> Seq<u8> {
        self.bytes_30_32() + self.bytes_32_35()
    }

    /// Encoding of the fields 30 to 31, in order.
    pub open spec fn bytes_30_32(&self) -> Seq<u8> {
        self.target_y_coordinate.enc() + self.parent_resource_type.enc()
    }

    /// Encoding of the fields 32 to 34, in order.
    pub open spec fn bytes_32_35(&self) -> Seq<u8> {
        self.parent_resource.enc() + self.bytes_33_35()
    }

    /// Encoding of the fields 33 to 34, in order.
    pub open spec fn bytes_33_35(&self) -> Seq<u8> {
        enc_seq(self.parent_resource_flags@) + self.projectile.enc()
    }

    /// Encoding of the fields 35 to 40, in order.
    pub open spec fn bytes_35_41(&self) -> Seq<u8> {
        self.bytes_35_38() + self.bytes_38_41()
    }

    /// Encoding of the fields 35 to 37, in order.
    pub open spec fn bytes_35_38(&self) -> Seq<u8> {
        self.parent_resource_slot.enc() + self.bytes_36_38()
    }

    /// Encoding of the fields 36 to 37, in order.
    pub open spec fn bytes_36_38(&self) -> Seq<u8> {
        self.variable_name.enc() + self.caster_level.enc()
    }

    /// Encoding of the fields 38 to 40, in order.
    pub open spec fn bytes_38_41(&self) -> Seq<u8> {
        self.first_apply.enc() + self.bytes_39_41()
    }

    /// Encoding of the fields 39 to 40, in order.
    pub open spec fn bytes_39_41(&self) -> Seq<u8> {
        self.secondary_type.enc() + enc_seq(self._unknown_2@)
    }
}

impl Codec for EffectV2BodyWithOutHeader {
    open spec fn width() -> nat {
        256
    }

    open spec fn enc(&self) -> Seq<u8> {
        self.bytes_0_41()
    }

    open spec fn wf(&self) -> bool {
        &&& self.parent_resource_flags@.len() == 4
        &&& all_wf(self.parent_resource_flags@)
        &&& self._unknown_2@.len() == 15
        &&& all_wf(self._unknown_2@)
    }

    open spec fn same(&self, other: &Self) -> bool {
        &&& self.opcode_number == other.opcode_number
        &&& self.target_type == other.target_type
        &&& self.power == other.power
        &&& self.parameter_1 == other.parameter_1
        &&& self.parameter_2 == other.parameter_2
        &&& self.timing_mode == other.timing_mode
        &&& self.timing == other.timing
        &&& self.duration == other.duration
        &&& self.probability_1 == other.probability_1
        &&& self.probability_2 == other.probability_2
        &&& self.resource_1.same(&other.resource_1)
        &&& self.dice_thrown == other.dice_thrown
        &&& self.dice_sides == other.dice_sides
        &&& self.saving_throw_type == other.saving_throw_type
        &&& self.saving_throw_bonus == other.saving_throw_bonus
        &&& self.special == other.special
        &&& self.primary_spell_school == other.primary_spell_school
        &&& self._unknown_1 == other._unknown_1
        &&& self.parent_resource_lowest_affected_level == other.parent_resource_lowest_affected_level
        &&& self.parent_resource_highest_affected_level == other.parent_resource_highest_affected_level
        &&& self.dispel_resistance == other.dispel_resistance
        &&& self.parameter_3 == other.parameter_3
        &&& self.parameter_4 == other.parameter_4
        &&& self.parameter_5 == other.parameter_5
        &&& self.time_applied_ticks == other.time_applied_ticks
        &&& self.resource_2.same(&other.resource_2)
        &&& self.resource_3.same(&other.resource_3)
        &&& self.caster_x_coordinate == other.caster_x_coordinate
        &&& self.caster_y_coordinate == other.caster_y_coordinate
        &&& self.target_x_coordinate == other.target_x_coordinate
        &&& self.target_y_coordinate == other.target_y_coordinate
        &&& self.parent_resource_type == other.parent_resource_type
        &&& self.parent_resource.same(&other.parent_resource)
        &&& seq_same(self.parent_resource_flags@, other.parent_resource_flags@)
        &&& self.projectile == other.projectile
        &&& self.parent_resource_slot == other.parent_resource_slot
        &&& self.variable_name.same(&other.variable_name)
        &&& self.caster_level == other.caster_level
        &&& self.first_apply == other.first_apply
        &&& self.secondary_type == other.secondary_type
        &&& seq_same(self._unknown_2@, other._unknown_2@)
    }

    fn byte_width() -> (n: usize) {
        256
    }

    fn check_wf(&self) -> (b: bool) {
        self.parent_resource_flags.len() == 4 && check_all_wf(self.parent_resource_flags.as_slice()) && self._unknown_2.len() == 15 && check_all_wf(self._unknown_2.as_slice())
    }

    proof fn lemma_enc_len(&self) {
        self.opcode_number.lemma_enc_len();
        self.target_type.lemma_enc_len();
        self.power.lemma_enc_len();
        self.parameter_1.lemma_enc_len();
        self.parameter_2.lemma_enc_len();
        self.timing_mode.lemma_enc_len();
        self.timing.lemma_enc_len();
        self.duration.lemma_enc_len();
        self.probability_1.lemma_enc_len();
        self.probability_2.lemma_enc_len();
        self.resource_1.lemma_enc_len();
        self.dice_thrown.lemma_enc_len();
        self.dice_sides.lemma_enc_len();
        self.saving_throw_type.lemma_enc_len();
        self.saving_throw_bonus.lemma_enc_len();
        self.special.lemma_enc_len();
        self.primary_spell_school.lemma_enc_len();
        self._unknown_1.lemma_enc_len();
        self.parent_resource_lowest_affected_level.lemma_enc_len();
        self.parent_resource_highest_affected_level.lemma_enc_len();
        self.dispel_resistance.lemma_enc_len();
        self.parameter_3.lemma_enc_len();
        self.parameter_4.lemma_enc_len();
        self.parameter_5.lemma_enc_len();
        self.time_applied_ticks.lemma_enc_len();
        self.resource_2.lemma_enc_len();
        self.resource_3.lemma_enc_len();
        self.caster_x_coordinate.lemma_enc_len();
        self.caster_y_coordinate.lemma_enc_len();
        self.target_x_coordinate.lemma_enc_len();
        self.target_y_coordinate.lemma_enc_len();
        self.parent_resource_type.lemma_enc_len();
        self.parent_resource.lemma_enc_len();
        lemma_enc_seq_len(self.parent_resource_flags@);
        self.projectile.lemma_enc_len();
        self.parent_resource_slot.lemma_enc_len();
        self.variable_name.lemma_enc_len();
        self.caster_level.lemma_enc_len();
        self.first_apply.lemma_enc_len();
        self.secondary_type.lemma_enc_len();
        lemma_enc_seq_len(self._unknown_2@);
    }

    proof fn lemma_enc_injective(&self, other: &Self) {
        self.opcode_number.lemma_enc_len();
        self.target_type.lemma_enc_len();
        self.power.lemma_enc_len();
        self.parameter_1.lemma_enc_len();
        self.parameter_2.lemma_enc_len();
        self.timing_mode.lemma_enc_len();
        self.timing.lemma_enc_len();
        self.duration.lemma_enc_len();
        self.probability_1.lemma_enc_len();
        self.probability_2.lemma_enc_len();
        self.resource_1.lemma_enc_len();
        self.dice_thrown.lemma_enc_len();
        self.dice_sides.lemma_enc_len();
        self.saving_throw_type.lemma_enc_len();
        self.saving_throw_bonus.lemma_enc_len();
        self.special.lemma_enc_len();
        self.primary_spell_school.lemma_enc_len();
        self._unknown_1.lemma_enc_len();
        self.parent_resource_lowest_affected_level.lemma_enc_len();
        self.parent_resource_highest_affected_level.lemma_enc_len();
        self.dispel_resistance.lemma_enc_len();
        self.parameter_3.lemma_enc_len();
        self.parameter_4.lemma_enc_len();
        self.parameter_5.lemma_enc_len();
        self.time_applied_ticks.lemma_enc_len();
        self.resource_2.lemma_enc_len();
        self.resource_3.lemma_enc_len();
        self.caster_x_coordinate.lemma_enc_len();
        self.caster_y_coordinate.lemma_enc_len();
        self.target_x_coordinate.lemma_enc_len();
        self.target_y_coordinate.lemma_enc_len();
        self.parent_resource_type.lemma_enc_len();
        self.parent_resource.lemma_enc_len();
        lemma_enc_seq_len(self.parent_resource_flags@);
        self.projectile.lemma_enc_len();
        self.parent_resource_slot.lemma_enc_len();
        self.variable_name.lemma_enc_len();
        self.caster_level.lemma_enc_len();
        self.first_apply.lemma_enc_len();
        self.secondary_type.lemma_enc_len();
        lemma_enc_seq_len(self._unknown_2@);
        other.opcode_number.lemma_enc_len();
        other.target_type.lemma_enc_len();
        other.power.lemma_enc_len();
        other.parameter_1.lemma_enc_len();
        other.parameter_2.lemma_enc_len();
        other.timing_mode.lemma_enc_len();
        other.timing.lemma_enc_len();
        other.duration.lemma_enc_len();
        other.probability_1.lemma_enc_len();
        other.probability_2.lemma_enc_len();
        other.resource_1.lemma_enc_len();
        other.dice_thrown.lemma_enc_len();
        other.dice_sides.lemma_enc_len();
        other.saving_throw_type.lemma_enc_len();
        other.saving_throw_bonus.lemma_enc_len();
        other.special.lemma_enc_len();
        other.primary_spell_school.lemma_enc_len();
        other._unknown_1.lemma_enc_len();
        other.parent_resource_lowest_affected_level.lemma_enc_len();
        other.parent_resource_highest_affected_level.lemma_enc_len();
        other.dispel_resistance.lemma_enc_len();
        other.parameter_3.lemma_enc_len();
        other.parameter_4.lemma_enc_len();
        other.parameter_5.lemma_enc_len();
        other.time_applied_ticks.lemma_enc_len();
        other.resource_2.lemma_enc_len();
        other.resource_3.lemma_enc_len();
        other.caster_x_coordinate.lemma_enc_len();
        other.caster_y_coordinate.lemma_enc_len();
        other.target_x_coordinate.lemma_enc_len();
        other.target_y_coordinate.lemma_enc_len();
        other.parent_resource_type.lemma_enc_len();
        other.parent_resource.lemma_enc_len();
        lemma_enc_seq_len(other.parent_resource_flags@);
        other.projectile.lemma_enc_len();
        other.parent_resource_slot.lemma_enc_len();
        other.variable_name.lemma_enc_len();
        other.caster_level.lemma_enc_len();
        other.first_apply.lemma_enc_len();
        other.secondary_type.lemma_enc_len();
        lemma_enc_seq_len(other._unknown_2@);
        lemma_concat_peel(self.bytes_0_20(), self.bytes_20_41(), other.bytes_0_20(), other.bytes_20_41());
        lemma_concat_peel(self.bytes_0_10(), self.bytes_10_20(), other.bytes_0_10(), other.bytes_10_20());
        lemma_concat_peel(self.bytes_0_5(), self.bytes_5_10(), other.bytes_0_5(), other.bytes_5_10());
        lemma_concat_peel(self.bytes_0_2(), self.bytes_2_5(), other.bytes_0_2(), other.bytes_2_5());
        lemma_concat_peel(self.opcode_number.enc(), self.target_type.enc(), other.opcode_number.enc(), other.target_type.enc());
        lemma_concat_peel(self.power.enc(), self.bytes_3_5(), other.power.enc(), other.bytes_3_5());
        lemma_concat_peel(self.parameter_1.enc(), self.parameter_2.enc(), other.parameter_1.enc(), other.parameter_2.enc());
        lemma_concat_peel(self.bytes_5_7(), self.bytes_7_10(), other.bytes_5_7(), other.bytes_7_10());
        lemma_concat_peel(self.timing_mode.enc(), self.timing.enc(), other.timing_mode.enc(), other.timing.enc());
        lemma_concat_peel(self.duration.enc(), self.bytes_8_10(), other.duration.enc(), other.bytes_8_10());
        lemma_concat_peel(self.probability_1.enc(), self.probability_2.enc(), other.probability_1.enc(), other.probability_2.enc());
        lemma_concat_peel(self.bytes_10_15(), self.bytes_15_20(), other.bytes_10_15(), other.bytes_15_20());
        lemma_concat_peel(self.bytes_10_12(), self.bytes_12_15(), other.bytes_10_12(), other.bytes_12_15());
        lemma_concat_peel(self.resource_1.enc(), self.dice_thrown.enc(), other.resource_1.enc(), other.dice_thrown.enc());
        lemma_concat_peel(self.dice_sides.enc(), self.bytes_13_15(), other.dice_sides.enc(), other.bytes_13_15());
        lemma_concat_peel(self.saving_throw_type.enc(), self.saving_throw_bonus.enc(), other.saving_throw_type.enc(), other.saving_throw_bonus.enc());
        lemma_concat_peel(self.bytes_15_17(), self.bytes_17_20(), other.bytes_15_17(), other.bytes_17_20());
        lemma_concat_peel(self.special.enc(), self.primary_spell_school.enc(), other.special.enc(), other.primary_spell_school.enc());
        lemma_concat_peel(self._unknown_1.enc(), self.bytes_18_20(), other._unknown_1.enc(), other.bytes_18_20());
        lemma_concat_peel(self.parent_resource_lowest_affected_level.enc(), self.parent_resource_highest_affected_level.enc(), other.parent_resource_lowest_affected_level.enc(), other.parent_resource_highest_affected_level.enc());
        lemma_concat_peel(self.bytes_20_30(), self.bytes_30_41(), other.bytes_20_30(), other.bytes_30_41());
        lemma_concat_peel(self.bytes_20_25(), self.bytes_25_30(), other.bytes_20_25(), other.bytes_25_30());
        lemma_concat_peel(self.bytes_20_22(), self.bytes_22_25(), other.bytes_20_22(), other.bytes_22_25());
        lemma_concat_peel(self.dispel_resistance.enc(), self.parameter_3.enc(), other.dispel_resistance.enc(), other.parameter_3.enc());
        lemma_concat_peel(self.parameter_4.enc(), self.bytes_23_25(), other.parameter_4.enc(), other.bytes_23_25());
        lemma_concat_peel(self.parameter_5.enc(), self.time_applied_ticks.enc(), other.parameter_5.enc(), other.time_applied_ticks.enc());
        lemma_concat_peel(self.bytes_25_27(), self.bytes_27_30(), other.bytes_25_27(), other.bytes_27_30());
        lemma_concat_peel(self.resource_2.enc(), self.resource_3.enc(), other.resource_2.enc(), other.resource_3.enc());
        lemma_concat_peel(self.caster_x_coordinate.enc(), self.bytes_28_30(), other.caster_x_coordinate.enc(), other.bytes_28_30());
        lemma_concat_peel(self.caster_y_coordinate.enc(), self.target_x_coordinate.enc(), other.caster_y_coordinate.enc(), other.target_x_coordinate.enc());
        lemma_concat_peel(self.bytes_30_35(), self.bytes_35_41(), other.bytes_30_35(), other.bytes_35_41());
        lemma_concat_peel(self.bytes_30_32(), self.bytes_32_35(), other.bytes_30_32(), other.bytes_32_35());
        lemma_concat_peel(self.target_y_coordinate.enc(), self.parent_resource_type.enc(), other.target_y_coordinate.enc(), other.parent_resource_type.enc());
        lemma_concat_peel(self.parent_resource.enc(), self.bytes_33_35(), other.parent_resource.enc(), other.bytes_33_35());
        lemma_concat_peel(enc_seq(self.parent_resource_flags@), self.projectile.enc(), enc_seq(other.parent_resource_flags@), other.projectile.enc());
        lemma_concat_peel(self.bytes_35_38(), self.bytes_38_41(), other.bytes_35_38(), other.bytes_38_41());
        lemma_concat_peel(self.parent_resource_slot.enc(), self.bytes_36_38(), other.parent_resource_slot.enc(), other.bytes_36_38());
        lemma_concat_peel(self.variable_name.enc(), self.caster_level.enc(), other.variable_name.enc(), other.caster_level.enc());
        lemma_concat_peel(self.first_apply.enc(), self.bytes_39_41(), other.first_apply.enc(), other.bytes_39_41());
        lemma_concat_peel(self.secondary_type.enc(), enc_seq(self._unknown_2@), other.secondary_type.enc(), enc_seq(other._unknown_2@));
        self.opcode_number.lemma_enc_injective(&other.opcode_number);
        self.target_type.lemma_enc_injective(&other.target_type);
        self.power.lemma_enc_injective(&other.power);
        self.parameter_1.lemma_enc_injective(&other.parameter_1);
        self.parameter_2.lemma_enc_injective(&other.parameter_2);
        self.timing_mode.lemma_enc_injective(&other.timing_mode);
        self.timing.lemma_enc_injective(&other.timing);
        self.duration.lemma_enc_injective(&other.duration);
        self.probability_1.lemma_enc_injective(&other.probability_1);
        self.probability_2.lemma_enc_injective(&other.probability_2);
        self.resource_1.lemma_enc_injective(&other.resource_1);
        self.dice_thrown.lemma_enc_injective(&other.dice_thrown);
        self.dice_sides.lemma_enc_injective(&other.dice_sides);
        self.saving_throw_type.lemma_enc_injective(&other.saving_throw_type);
        self.saving_throw_bonus.lemma_enc_injective(&other.saving_throw_bonus);
        self.special.lemma_enc_injective(&other.special);
        self.primary_spell_school.lemma_enc_injective(&other.primary_spell_school);
        self._unknown_1.lemma_enc_injective(&other._unknown_1);
        self.parent_resource_lowest_affected_level.lemma_enc_injective(&other.parent_resource_lowest_affected_level);
        self.parent_resource_highest_affected_level.lemma_enc_injective(&other.parent_resource_highest_affected_level);
        self.dispel_resistance.lemma_enc_injective(&other.dispel_resistance);
        self.parameter_3.lemma_enc_injective(&other.parameter_3);
        self.parameter_4.lemma_enc_injective(&other.parameter_4);
        self.parameter_5.lemma_enc_injective(&other.parameter_5);
        self.time_applied_ticks.lemma_enc_injective(&other.time_applied_ticks);
        self.resource_2.lemma_enc_injective(&other.resource_2);
        self.resource_3.lemma_enc_injective(&other.resource_3);
        self.caster_x_coordinate.lemma_enc_injective(&other.caster_x_coordinate);
        self.caster_y_coordinate.lemma_enc_injective(&other.caster_y_coordinate);
        self.target_x_coordinate.lemma_enc_injective(&other.target_x_coordinate);
        self.target_y_coordinate.lemma_enc_injective(&other.target_y_coordinate);
        self.parent_resource_type.lemma_enc_injective(&other.parent_resource_type);
        self.parent_resource.lemma_enc_injective(&other.parent_resource);
        lemma_enc_seq_injective(self.parent_resource_flags@, other.parent_resource_flags@);
        self.projectile.lemma_enc_injective(&other.projectile);
        self.parent_resource_slot.lemma_enc_injective(&other.parent_resource_slot);
        self.variable_name.lemma_enc_injective(&other.variable_name);
        self.caster_level.lemma_enc_injective(&other.caster_level);
        self.first_apply.lemma_enc_injective(&other.first_apply);
        self.secondary_type.lemma_enc_injective(&other.secondary_type);
        lemma_enc_seq_injective(self._unknown_2@, other._unknown_2@);
    }

    #[verifier::rlimit(100)]
    #[verifier::spinoff_prover]
    fn decode(buf: &[u8], pos: usize) -> (v: Self) {
        let len = buf.len();
        let fld0 = u32::decode(buf, pos + 0);
        let fld1 = u32::decode(buf, pos + 4);
        let fld2 = u32::decode(buf, pos + 8);
        let fld3 = u32::decode(buf, pos + 12);
        let fld4 = u32::decode(buf, pos + 16);
        let fld5 = u16::decode(buf, pos + 20);
        let fld6 = u16::decode(buf, pos + 22);
        let fld7 = u32::decode(buf, pos + 24);
        let fld8 = u16::decode(buf, pos + 28);
        let fld9 = u16::decode(buf, pos + 30);
        let fld10 = Resref::decode(buf, pos + 32);
        let fld11 = u32::decode(buf, pos + 40);
        let fld12 = u32::decode(buf, pos + 44);
        let fld13 = u32::decode(buf, pos + 48);
        let fld14 = u32::decode(buf, pos + 52);
        let fld15 = u32::decode(buf, pos + 56);
        let fld16 = u32::decode(buf, pos + 60);
        let fld17 = u32::decode(buf, pos + 64);
        let fld18 = u32::decode(buf, pos + 68);
        let fld19 = u32::decode(buf, pos + 72);
        let fld20 = u32::decode(buf, pos + 76);
        let fld21 = u32::decode(buf, pos + 80);
        let fld22 = u32::decode(buf, pos + 84);
        let fld23 = u32::decode(buf, pos + 88);
        let fld24 = u32::decode(buf, pos + 92);
        let fld25 = Resref::decode(buf, pos + 96);
        let fld26 = Resref::decode(buf, pos + 104);
        let fld27 = u32::decode(buf, pos + 112);
        let fld28 = u32::decode(buf, pos + 116);
        let fld29 = u32::decode(buf, pos + 120);
        let fld30 = u32::decode(buf, pos + 124);
        let fld31 = u32::decode(buf, pos + 128);
        let fld32 = Resref::decode(buf, pos + 132);
        let fld33 = decode_vec::<u8>(buf, pos + 140, 4);
        let fld34 = u32::decode(buf, pos + 144);
        let fld35 = u32::decode(buf, pos + 148);
        let fld36 = <CharArray<32>>::decode(buf, pos + 152);
        let fld37 = u32::decode(buf, pos + 184);
        let fld38 = u32::decode(buf, pos + 188);
        let fld39 = u32::decode(buf, pos + 192);
        let fld40 = decode_vec::<u32>(buf, pos + 196, 15);
        let v = EffectV2BodyWithOutHeader {
            opcode_number: fld0,
            target_type: fld1,
            power: fld2,
            parameter_1: fld3,
            parameter_2: fld4,
            timing_mode: fld5,
            timing: fld6,
            duration: fld7,
            probability_1: fld8,
            probability_2: fld9,
            resource_1: fld10,
            dice_thrown: fld11,
            dice_sides: fld12,
            saving_throw_type: fld13,
            saving_throw_bonus: fld14,
            special: fld15,
            primary_spell_school: fld16,
            _unknown_1: fld17,
            parent_resource_lowest_affected_level: fld18,
            parent_resource_highest_affected_level: fld19,
            dispel_resistance: fld20,
            parameter_3: fld21,
            parameter_4: fld22,
            parameter_5: fld23,
            time_applied_ticks: fld24,
            resource_2: fld25,
            resource_3: fld26,
            caster_x_coordinate: fld27,
            caster_y_coordinate: fld28,
            target_x_coordinate: fld29,
            target_y_coordinate: fld30,
            parent_resource_type: fld31,
            parent_resource: fld32,
            parent_resource_flags: fld33,
            projectile: fld34,
            parent_resource_slot: fld35,
            variable_name: fld36,
            caster_level: fld37,
            first_apply: fld38,
            secondary_type: fld39,
            _unknown_2: fld40,
        };
        proof {
            lemma_subrange_concat(buf@, pos + 0, pos + 76, pos + 256);
            lemma_subrange_concat(buf@, pos + 0, pos + 32, pos + 76);
            lemma_subrange_concat(buf@, pos + 0, pos + 20, pos + 32);
            lemma_subrange_concat(buf@, pos + 0, pos + 8, pos + 20);
            lemma_subrange_concat(buf@, pos + 0, pos + 4, pos + 8);
            lemma_subrange_concat(buf@, pos + 8, pos + 12, pos + 20);
            lemma_subrange_concat(buf@, pos + 12, pos + 16, pos + 20);
            lemma_subrange_concat(buf@, pos + 20, pos + 24, pos + 32);
            lemma_subrange_concat(buf@, pos + 20, pos + 22, pos + 24);
            lemma_subrange_concat(buf@, pos + 24, pos + 28, pos + 32);
            lemma_subrange_concat(buf@, pos + 28, pos + 30, pos + 32);
            lemma_subrange_concat(buf@, pos + 32, pos + 56, pos + 76);
            lemma_subrange_concat(buf@, pos + 32, pos + 44, pos + 56);
            lemma_subrange_concat(buf@, pos + 32, pos + 40, pos + 44);
            lemma_subrange_concat(buf@, pos + 44, pos + 48, pos + 56);
            lemma_subrange_concat(buf@, pos + 48, pos + 52, pos + 56);
            lemma_subrange_concat(buf@, pos + 56, pos + 64, pos + 76);
            lemma_subrange_concat(buf@, pos + 56, pos + 60, pos + 64);
            lemma_subrange_concat(buf@, pos + 64, pos + 68, pos + 76);
            lemma_subrange_concat(buf@, pos + 68, pos + 72, pos + 76);
            lemma_subrange_concat(buf@, pos + 76, pos + 124, pos + 256);
            lemma_subrange_concat(buf@, pos + 76, pos + 96, pos + 124);
            lemma_subrange_concat(buf@, pos + 76, pos + 84, pos + 96);
            lemma_subrange_concat(buf@, pos + 76, pos + 80, pos + 84);
            lemma_subrange_concat(buf@, pos + 84, pos + 88, pos + 96);
            lemma_subrange_concat(buf@, pos + 88, pos + 92, pos + 96);
            lemma_subrange_concat(buf@, pos + 96, pos + 112, pos + 124);
            lemma_subrange_concat(buf@, pos + 96, pos + 104, pos + 112);
            lemma_subrange_concat(buf@, pos + 112, pos + 116, pos + 124);
            lemma_subrange_concat(buf@, pos + 116, pos + 120, pos + 124);
            lemma_subrange_concat(buf@, pos + 124, pos + 148, pos + 256);
            lemma_subrange_concat(buf@, pos + 124, pos + 132, pos + 148);
            lemma_subrange_concat(buf@, pos + 124, pos + 128, pos + 132);
            lemma_subrange_concat(buf@, pos + 132, pos + 140, pos + 148);
            lemma_subrange_concat(buf@, pos + 140, pos + 144, pos + 148);
            lemma_subrange_concat(buf@, pos + 148, pos + 188, pos + 256);
            lemma_subrange_concat(buf@, pos + 148, pos + 152, pos + 188);
            lemma_subrange_concat(buf@, pos + 152, pos + 184, pos + 188);
            lemma_subrange_concat(buf@, pos + 188, pos + 192, pos + 256);
            lemma_subrange_concat(buf@, pos + 192, pos + 196, pos + 256);
        }
        v
    }

    fn encode(&self, out: &mut Vec<u8>) {
        let mut b0 = encoded(&self.opcode_number);
        let mut b1 = encoded(&self.target_type);
        let mut b2 = encoded(&self.power);
        let mut b3 = encoded(&self.parameter_1);
        let mut b4 = encoded(&self.parameter_2);
        let mut b5 = encoded(&self.timing_mode);
        let mut b6 = encoded(&self.timing);
        let mut b7 = encoded(&self.duration);
        let mut b8 = encoded(&self.probability_1);
        let mut b9 = encoded(&self.probability_2);
        let mut b10 = encoded(&self.resource_1);
        let mut b11 = encoded(&self.dice_thrown);
        let mut b12 = encoded(&self.dice_sides);
        let mut b13 = encoded(&self.saving_throw_type);
        let mut b14 = encoded(&self.saving_throw_bonus);
        let mut b15 = encoded(&self.special);
        let mut b16 = encoded(&self.primary_spell_school);
        let mut b17 = encoded(&self._unknown_1);
        let mut b18 = encoded(&self.parent_resource_lowest_affected_level);
        let mut b19 = encoded(&self.parent_resource_highest_affected_level);
        let mut b20 = encoded(&self.dispel_resistance);
        let mut b21 = encoded(&self.parameter_3);
        let mut b22 = encoded(&self.parameter_4);
        let mut b23 = encoded(&self.parameter_5);
        let mut b24 = encoded(&self.time_applied_ticks);
        let mut b25 = encoded(&self.resource_2);
        let mut b26 = encoded(&self.resource_3);
        let mut b27 = encoded(&self.caster_x_coordinate);
        let mut b28 = encoded(&self.caster_y_coordinate);
        let mut b29 = encoded(&self.target_x_coordinate);
        let mut b30 = encoded(&self.target_y_coordinate);
        let mut b31 = encoded(&self.parent_resource_type);
        let mut b32 = encoded(&self.parent_resource);
        let mut b33 = encoded_slice(self.parent_resource_flags.as_slice());
        let mut b34 = encoded(&self.projectile);
        let mut b35 = encoded(&self.parent_resource_slot);
        let mut b36 = encoded(&self.variable_name);
        let mut b37 = encoded(&self.caster_level);
        let mut b38 = encoded(&self.first_apply);
        let mut b39 = encoded(&self.secondary_type);
        let mut b40 = encoded_slice(self._unknown_2.as_slice());
        b39.append(&mut b40);
        b38.append(&mut b39);
        b36.append(&mut b37);
        b35.append(&mut b36);
        b35.append(&mut b38);
        b33.append(&mut b34);
        b32.append(&mut b33);
        b30.append(&mut b31);
        b30.append(&mut b32);
        b30.append(&mut b35);
        b28.append(&mut b29);
        b27.append(&mut b28);
        b25.append(&mut b26);
        b25.append(&mut b27);
        b23.append(&mut b24);
        b22.append(&mut b23);
        b20.append(&mut b21);
        b20.append(&mut b22);
        b20.append(&mut b25);
        b20.append(&mut b30);
        b18.append(&mut b19);
        b17.append(&mut b18);
        b15.append(&mut b16);
        b15.append(&mut b17);
        b13.append(&mut b14);
        b12.append(&mut b13);
        b10.append(&mut b11);
        b10.append(&mut b12);
        b10.append(&mut b15);
        b8.append(&mut b9);
        b7.append(&mut b8);
        b5.append(&mut b6);
        b5.append(&mut b7);
        b3.append(&mut b4);
        b2.append(&mut b3);
        b0.append(&mut b1);
        b0.append(&mut b2);
        b0.append(&mut b5);
        b0.append(&mut b10);
        b0.append(&mut b20);
        out.append(&mut b0);
    }
}

/// https://gibberlings3.github.io/iesdp/file_formats/ie_formats/eff_v2.htm#effv2_Body
#[derive(Debug, Clone, PartialEq)]
pub struct EffectV2Body {
    pub header: Header,
    pub body: EffectV2BodyWithOutHeader,
}

impl EffectV2Body {
    /// Encoding of the fields 0 to 1, in order.
    pub open spec fn bytes_0_2(&self) -> Seq<u8> {
        self.header.enc() + self.body.enc()
    }
}

impl Codec for EffectV2Body {
    open spec fn width() -> nat {
        264
    }

    open spec fn enc(&self) -> Seq<u8> {
        self.bytes_0_2()
    }

    open spec fn wf(&self) -> bool {
        &&& self.header.wf()
        &&& self.body.wf()
    }

    open spec fn same(&self, other: &Self) -> bool {
        &&& self.header.same(&other.header)
        &&& self.body.same(&other.body)
    }

    fn byte_width() -> (n: usize) {
        264
    }

    fn check_wf(&self) -> (b: bool) {
        self.header.check_wf() && self.body.check_wf()
    }

    proof fn lemma_enc_len(&self) {
        self.header.lemma_enc_len();
        self.body.lemma_enc_len();
    }

    proof fn lemma_enc_injective(&self, other: &Self) {
        self.header.lemma_enc_len();
        self.body.lemma_enc_len();
        other.header.lemma_enc_len();
        other.body.lemma_enc_len();
        lemma_concat_peel(self.header.enc(), self.body.enc(), other.header.enc(), other.body.enc());
        self.header.lemma_enc_injective(&other.header);
        self.body.lemma_enc_injective(&other.body);
    }

    fn decode(buf: &[u8], pos: usize) -> (v: Self) {
        let len = buf.len();
        let fld0 = Header::decode(buf, pos + 0);
        let fld1 = EffectV2BodyWithOutHeader::decode(buf, pos + 8);
        let v = EffectV2Body {
            header: fld0,
            body: fld1,
        };
        proof {
            lemma_subrange_concat(buf@, pos + 0, pos + 8, pos + 264);
        }
        v
    }

    fn encode(&self, out: &mut Vec<u8>) {
        let mut b0 = encoded(&self.header);
        let mut b1 = encoded(&self.body);
        b0.append(&mut b1);
        out.append(&mut b0);
    }
}

/// https://gibberlings3.github.io/iesdp/file_formats/ie_formats/eff_v2.htm
#[derive(Debug, Clone, PartialEq)]
pub struct EffectV2 {
    pub header: Header,
    pub effect: EffectV2Body,
}

impl EffectV2 {
    /// Encoding of the fields 0 to 1, in order.
    pub open spec fn bytes_0_2(&self) -> Seq<u8> {
        self.header.enc() + self.effect.enc()
    }
}

impl Codec for EffectV2 {
    open spec fn width() -> nat {
        272
    }

    open spec fn enc(&self) -> Seq<u8> {
        self.bytes_0_2()
    }

    open spec fn wf(&self) -> bool {
        &&& self.header.wf()
        &&& self.effect.wf()
    }

    open spec fn same(&self, other: &Self) -> bool {
        &&& self.header.same(&other.header)
        &&& self.effect.same(&other.effect)
    }

    fn byte_width() -> (n: usize) {
        272
    }

    fn check_wf(&self) -> (b: bool) {
        self.header.check_wf() && self.effect.check_wf()
    }

    proof fn lemma_enc_len(&self) {
        self.header.lemma_enc_len();
        self.effect.lemma_enc_len();
    }

    proof fn lemma_enc_injective(&self, other: &Self) {
        self.header.lemma_enc_len();
        self.effect.lemma_enc_len();
        other.header.lemma_enc_len();
        other.effect.lemma_enc_len();
        lemma_concat_peel(self.header.enc(), self.effect.enc(), other.header.enc(), other.effect.enc());
        self.header.lemma_enc_injective(&other.header);
        self.effect.lemma_enc_injective(&other.effect);
    }

    fn decode(buf: &[u8], pos: usize) -> (v: Self) {
        let len = buf.len();
        let fld0 = Header::decode(buf, pos + 0);
        let fld1 = EffectV2Body::decode(buf, pos + 8);
        let v = EffectV2 {
            header: fld0,
            effect: fld1,
        };
        proof {
            lemma_subrange_concat(buf@, pos + 0, pos + 8, pos + 272);
        }
        v
    }

    fn encode(&self, out: &mut Vec<u8>) {
        let mut b0 = encoded(&self.header);
        let mut b1 = encoded(&self.effect);
        b0.append(&mut b1);
        out.append(&mut b0);
    }
}

/// The buffer an effect is read from: inputs shorter than a whole effect
/// get one zero byte appended first.
pub open spec fn effect_input(buffer: Seq<u8>) -> Seq<u8> {
    if buffer.len() < 272 { buffer.push(0u8) } else { buffer }
}

impl Model for EffectV2 {
    open spec fn spec_parses(buffer: Seq<u8>) -> bool {
        EffectV2::width() <= effect_input(buffer).len()
    }

    open spec fn parsed_from(&self, buffer: Seq<u8>) -> bool {
        record_parsed(*self, effect_input(buffer), 0)
    }

    open spec fn spec_writable(&self) -> bool {
        self.wf()
    }

    fn writable(&self) -> (b: bool) {
        self.check_wf()
    }

    open spec fn spec_bytes(&self) -> Seq<u8> {
        self.enc()
    }

    fn parse(buffer: &[u8]) -> (r: Option<Self>) {
        let mut input = vstd::slice::slice_to_vec(buffer);
        if buffer.len() < 272 {
            input.push(0u8);
        }
        assert(input@ =~= effect_input(buffer@));
        read_at::<EffectV2>(input.as_slice(), 0)
    }

    fn to_bytes(&self) -> (b: Vec<u8>) {
        encoded(self)
    }
}

} // verus!
