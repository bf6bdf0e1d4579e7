//! Items (ITM V1).
use vstd::prelude::*;

use crate::common::binary::{Codec, check_all_wf, enc_seq, all_wf, seq_same, lemma_subrange_concat, lemma_concat_peel, lemma_enc_seq_len, lemma_enc_seq_injective, decode_vec, encoded, encoded_slice, decoded_at, lemma_decoded_at, record_parsed, section_parsed, read_at, read_section, section_ok};
use crate::common::char_array::CharArray;
use crate::common::header::Header;
use crate::common::feature_block::FeatureBlock;
use crate::model::Model;

verus! {

/// https://gibberlings3.github.io/iesdp/file_formats/ie_formats/itm_v1.htm#itmv1_Header
#[derive(Debug, Clone, PartialEq)]
pub struct ItemHeader {
    pub header: Header,
    pub unidentified_item_name: u32,
    pub identified_item_name: u32,
    pub replacement_item: CharArray<8>,
    /// https://gibberlings3.github.io/iesdp/file_formats/ie_formats/itm_v1.htm#Header_Flags
    pub type_flags: u32,
    pub category: u16,
    pub usability: u32,
    pub item_animation: CharArray<2>,
    pub min_level: u16,
    pub min_strength: u16,
    pub min_strength_bonus: u8,
    pub kit_usability_1: u8,
    pub min_intelligence: u8,
    pub kit_usability_2: u8,
    pub min_dexterity: u8,
    pub kit_usability_3: u8,
    pub min_wisdom: u8,
    pub kit_usability_4: u8,
    pub min_constitution: u8,
    pub weapon_proficiency: u8,
    pub min_charisma: u16,
    pub base_value: u32,
    pub max_stackable: u16,
    pub item_icon: CharArray<8>,
    pub lore: u16,
    pub ground_icon: CharArray<8>,
    pub base_weight: u32,
    pub item_description_generic: u32,
    pub item_description_identified: u32,
    pub description_icon: CharArray<8>,
    pub enchantment: u32,
    pub offset_to_extended_headers: u32,
    pub count_of_extended_headers: u16,
    pub offset_to_feature_blocks: u32,
    pub index_to_equipping_feature_blocks: u16,
    pub count_of_feature_blocks: u16,
}

impl ItemHeader {
    /// Encoding of the fields 0 to 35, in order.
    pub open spec fn bytes_0_36(&self) -> Seq<u8> {
        self.bytes_0_18() + self.bytes_18_36()
    }

    /// Encoding of the fields 0 to 17, in order.
    pub open spec fn bytes_0_18(&self) -> Seq<u8> {
        self.bytes_0_9() + self.bytes_9_18()
    }

    /// Encoding of the fields 0 to 8, in order.
    pub open spec fn bytes_0_9(&self) -> Seq<u8> {
        self.bytes_0_4() + self.bytes_4_9()
    }

    /// Encoding of the fields 0 to 3, in order.
    pub open spec fn bytes_0_4(&self) -> Seq<u8> {
        self.bytes_0_2() + self.bytes_2_4()
    }

    /// Encoding of the fields 0 to 1, in order.
    pub open spec fn bytes_0_2(&self) -> Seq<u8> {
        self.header.enc() + self.unidentified_item_name.enc()
    }

    /// Encoding of the fields 2 to 3, in order.
    pub open spec fn bytes_2_4(&self) -> Seq<u8> {
        self.identified_item_name.enc() + self.replacement_item.enc()
    }

    /// Encoding of the fields 4 to 8, in order.
    pub open spec fn bytes_4_9(&self) -> Seq<u8> {
        self.bytes_4_6() + self.bytes_6_9()
    }

    /// Encoding of the fields 4 to 5, in order.
    pub open spec fn bytes_4_6(&self) -> Seq<u8> {
        self.type_flags.enc() + self.category.enc()
    }

    /// Encoding of the fields 6 to 8, in order.
    pub open spec fn bytes_6_9(&self) -> Seq<u8> {
        self.usability.enc() + self.bytes_7_9()
    }

    /// Encoding of the fields 7 to 8, in order.
    pub open spec fn bytes_7_9(&self) -> Seq<u8> {
        self.item_animation.enc() + self.min_level.enc()
    }

    /// Encoding of the fields 9 to 17, in order.
    pub open spec fn bytes_9_18(&self) -> Seq<u8> {
        self.bytes_9_13() + self.bytes_13_18()
    }

    /// Encoding of the fields 9 to 12, in order.
    pub open spec fn bytes_9_13(&self) -> Seq<u8> {
        self.bytes_9_11() + self.bytes_11_13()
    }

    /// Encoding of the fields 9 to 10, in order.
    pub open spec fn bytes_9_11(&self) -> Seq<u8> {
        self.min_strength.enc() + self.min_strength_bonus.enc()
    }

    /// Encoding of the fields 11 to 12, in order.
    pub open spec fn bytes_11_13(&self) -> Seq<u8> {
        self.kit_usability_1.enc() + self.min_intelligence.enc()
    }

    /// Encoding of the fields 13 to 17, in order.
    pub open spec fn bytes_13_18(&self) -> Seq<u8> {
        self.bytes_13_15() + self.bytes_15_18()
    }

    /// Encoding of the fields 13 to 14, in order.
    pub open spec fn bytes_13_15(&self) -> Seq<u8> {
        self.kit_usability_2.enc() + self.min_dexterity.enc()
    }

    /// Encoding of the fields 15 to 17, in order.
    pub open spec fn bytes_15_18(&self) -> Seq<u8> {
        self.kit_usability_3.enc() + self.bytes_16_18()
    }

    /// Encoding of the fields 16 to 17, in order.
    pub open spec fn bytes_16_18(&self) -> Seq<u8> {
        self.min_wisdom.enc() + self.kit_usability_4.enc()
    }

    /// Encoding of the fields 18 to 35, in order.
    pub open spec fn bytes_18_36(&self) -> Seq<u8> {
        self.bytes_18_27() + self.bytes_27_36()
    }

    /// Encoding of the fields 18 to 26, in order.
    pub open spec fn bytes_18_27(&self) -> Seq<u8> {
        self.bytes_18_22() + self.bytes_22_27()
    }

    /// Encoding of the fields 18 to 21, in order.
    pub open spec fn bytes_18_22(&self) -> Seq<u8> {
        self.bytes_18_20() + self.bytes_20_22()
    }

    /// Encoding of the fields 18 to 19, in order.
    pub open spec fn bytes_18_20(&self) -> Seq<u8> {
        self.min_constitution.enc() + self.weapon_proficiency.enc()
    }

    /// Encoding of the fields 20 to 21, in order.
    pub open spec fn bytes_20_22(&self) -> Seq<u8> {
        self.min_charisma.enc() + self.base_value.enc()
    }

    /// Encoding of the fields 22 to 26, in order.
    pub open spec fn bytes_22_27(&self) -> Seq<u8> {
        self.bytes_22_24() + self.bytes_24_27()
    }

    /// Encoding of the fields 22 to 23, in order.
    pub open spec fn bytes_22_24(&self) -> Seq<u8> {
        self.max_stackable.enc() + self.item_icon.enc()
    }

    /// Encoding of the fields 24 to 26, in order.
    pub open spec fn bytes_24_27(&self) -> Seq<u8> {
        self.lore.enc() + self.bytes_25_27()
    }

    /// Encoding of the fields 25 to 26, in order.
    pub open spec fn bytes_25_27(&self) -> Seq<u8> {
        self.ground_icon.enc() + self.base_weight.enc()
    }

    /// Encoding of the fields 27 to 35, in order.
    pub open spec fn bytes_27_36(&self) -> Seq<u8> {
        self.bytes_27_31() + self.bytes_31_36()
    }

    /// Encoding of the fields 27 to 30, in order.
    pub open spec fn bytes_27_31(&self) -> Seq<u8> {
        self.bytes_27_29() + self.bytes_29_31()
    }

    /// Encoding of the fields 27 to 28, in order.
    pub open spec fn bytes_27_29(&self) -> Seq<u8> {
        self.item_description_generic.enc() + self.item_description_identified.enc()
    }

    /// Encoding of the fields 29 to 30, in order.
    pub open spec fn bytes_29_31(&self) -> Seq<u8> {
        self.description_icon.enc() + self.enchantment.enc()
    }

    /// Encoding of the fields 31 to 35, in order.
    pub open spec fn bytes_31_36(&self) -> Seq<u8> {
        self.bytes_31_33() + self.bytes_33_36()
    }

    /// Encoding of the fields 31 to 32, in order.
    pub open spec fn bytes_31_33(&self) -> Seq<u8> {
        self.offset_to_extended_headers.enc() + self.count_of_extended_headers.enc()
    }

    /// Encoding of the fields 33 to 35, in order.
    pub open spec fn bytes_33_36(&self) -> Seq<u8> {
        self.offset_to_feature_blocks.enc() + self.bytes_34_36()
    }

    /// Encoding of the fields 34 to 35, in order.
    pub open spec fn bytes_34_36(&self) -> Seq<u8> {
        self.index_to_equipping_feature_blocks.enc() + self.count_of_feature_blocks.enc()
    }
}

impl Codec for ItemHeader {
    open spec fn width() -> nat {
        114
    }

    open spec fn enc(&self) -> Seq<u8> {
        self.bytes_0_36()
    }

    open spec fn wf(&self) -> bool {
        self.header.wf()
    }

    open spec fn same(&self, other: &Self) -> bool {
        &&& self.header.same(&other.header)
        &&& self.unidentified_item_name == other.unidentified_item_name
        &&& self.identified_item_name == other.identified_item_name
        &&& self.replacement_item.same(&other.replacement_item)
        &&& self.type_flags == other.type_flags
        &&& self.category == other.category
        &&& self.usability == other.usability
        &&& self.item_animation.same(&other.item_animation)
        &&& self.min_level == other.min_level
        &&& self.min_strength == other.min_strength
        &&& self.min_strength_bonus == other.min_strength_bonus
        &&& self.kit_usability_1 == other.kit_usability_1
        &&& self.min_intelligence == other.min_intelligence
        &&& self.kit_usability_2 == other.kit_usability_2
        &&& self.min_dexterity == other.min_dexterity
        &&& self.kit_usability_3 == other.kit_usability_3
        &&& self.min_wisdom == other.min_wisdom
        &&& self.kit_usability_4 == other.kit_usability_4
        &&& self.min_constitution == other.min_constitution
        &&& self.weapon_proficiency == other.weapon_proficiency
        &&& self.min_charisma == other.min_charisma
        &&& self.base_value == other.base_value
        &&& self.max_stackable == other.max_stackable
        &&& self.item_icon.same(&other.item_icon)
        &&& self.lore == other.lore
        &&& self.ground_icon.same(&other.ground_icon)
        &&& self.base_weight == other.base_weight
        &&& self.item_description_generic == other.item_description_generic
        &&& self.item_description_identified == other.item_description_identified
        &&& self.description_icon.same(&other.description_icon)
        &&& self.enchantment == other.enchantment
        &&& self.offset_to_extended_headers == other.offset_to_extended_headers
        &&& self.count_of_extended_headers == other.count_of_extended_headers
        &&& self.offset_to_feature_blocks == other.offset_to_feature_blocks
        &&& self.index_to_equipping_feature_blocks == other.index_to_equipping_feature_blocks
        &&& self.count_of_feature_blocks == other.count_of_feature_blocks
    }

    fn byte_width() -> (n: usize) {
        114
    }

    fn check_wf(&self) -> (b: bool) {
        self.header.check_wf()
    }

    proof fn lemma_enc_len(&self) {
        self.header.lemma_enc_len();
        self.unidentified_item_name.lemma_enc_len();
        self.identified_item_name.lemma_enc_len();
        self.replacement_item.lemma_enc_len();
        self.type_flags.lemma_enc_len();
        self.category.lemma_enc_len();
        self.usability.lemma_enc_len();
        self.item_animation.lemma_enc_len();
        self.min_level.lemma_enc_len();
        self.min_strength.lemma_enc_len();
        self.min_strength_bonus.lemma_enc_len();
        self.kit_usability_1.lemma_enc_len();
        self.min_intelligence.lemma_enc_len();
        self.kit_usability_2.lemma_enc_len();
        self.min_dexterity.lemma_enc_len();
        self.kit_usability_3.lemma_enc_len();
        self.min_wisdom.lemma_enc_len();
        self.kit_usability_4.lemma_enc_len();
        self.min_constitution.lemma_enc_len();
        self.weapon_proficiency.lemma_enc_len();
        self.min_charisma.lemma_enc_len();
        self.base_value.lemma_enc_len();
        self.max_stackable.lemma_enc_len();
        self.item_icon.lemma_enc_len();
        self.lore.lemma_enc_len();
        self.ground_icon.lemma_enc_len();
        self.base_weight.lemma_enc_len();
        self.item_description_generic.lemma_enc_len();
        self.item_description_identified.lemma_enc_len();
        self.description_icon.lemma_enc_len();
        self.enchantment.lemma_enc_len();
        self.offset_to_extended_headers.lemma_enc_len();
        self.count_of_extended_headers.lemma_enc_len();
        self.offset_to_feature_blocks.lemma_enc_len();
        self.index_to_equipping_feature_blocks.lemma_enc_len();
        self.count_of_feature_blocks.lemma_enc_len();
    }

    proof fn lemma_enc_injective(&self, other: &Self) {
        self.header.lemma_enc_len();
        self.unidentified_item_name.lemma_enc_len();
        self.identified_item_name.lemma_enc_len();
        self.replacement_item.lemma_enc_len();
        self.type_flags.lemma_enc_len();
        self.category.lemma_enc_len();
        self.usability.lemma_enc_len();
        self.item_animation.lemma_enc_len();
        self.min_level.lemma_enc_len();
        self.min_strength.lemma_enc_len();
        self.min_strength_bonus.lemma_enc_len();
        self.kit_usability_1.lemma_enc_len();
        self.min_intelligence.lemma_enc_len();
        self.kit_usability_2.lemma_enc_len();
        self.min_dexterity.lemma_enc_len();
        self.kit_usability_3.lemma_enc_len();
        self.min_wisdom.lemma_enc_len();
        self.kit_usability_4.lemma_enc_len();
        self.min_constitution.lemma_enc_len();
        self.weapon_proficiency.lemma_enc_len();
        self.min_charisma.lemma_enc_len();
        self.base_value.lemma_enc_len();
        self.max_stackable.lemma_enc_len();
        self.item_icon.lemma_enc_len();
        self.lore.lemma_enc_len();
        self.ground_icon.lemma_enc_len();
        self.base_weight.lemma_enc_len();
        self.item_description_generic.lemma_enc_len();
        self.item_description_identified.lemma_enc_len();
        self.description_icon.lemma_enc_len();
        self.enchantment.lemma_enc_len();
        self.offset_to_extended_headers.lemma_enc_len();
        self.count_of_extended_headers.lemma_enc_len();
        self.offset_to_feature_blocks.lemma_enc_len();
        self.index_to_equipping_feature_blocks.lemma_enc_len();
        self.count_of_feature_blocks.lemma_enc_len();
        other.header.lemma_enc_len();
        other.unidentified_item_name.lemma_enc_len();
        other.identified_item_name.lemma_enc_len();
        other.replacement_item.lemma_enc_len();
        other.type_flags.lemma_enc_len();
        other.category.lemma_enc_len();
        other.usability.lemma_enc_len();
        other.item_animation.lemma_enc_len();
        other.min_level.lemma_enc_len();
        other.min_strength.lemma_enc_len();
        other.min_strength_bonus.lemma_enc_len();
        other.kit_usability_1.lemma_enc_len();
        other.min_intelligence.lemma_enc_len();
        other.kit_usability_2.lemma_enc_len();
        other.min_dexterity.lemma_enc_len();
        other.kit_usability_3.lemma_enc_len();
        other.min_wisdom.lemma_enc_len();
        other.kit_usability_4.lemma_enc_len();
        other.min_constitution.lemma_enc_len();
        other.weapon_proficiency.lemma_enc_len();
        other.min_charisma.lemma_enc_len();
        other.base_value.lemma_enc_len();
        other.max_stackable.lemma_enc_len();
        other.item_icon.lemma_enc_len();
        other.lore.lemma_enc_len();
        other.ground_icon.lemma_enc_len();
        other.base_weight.lemma_enc_len();
        other.item_description_generic.lemma_enc_len();
        other.item_description_identified.lemma_enc_len();
        other.description_icon.lemma_enc_len();
        other.enchantment.lemma_enc_len();
        other.offset_to_extended_headers.lemma_enc_len();
        other.count_of_extended_headers.lemma_enc_len();
        other.offset_to_feature_blocks.lemma_enc_len();
        other.index_to_equipping_feature_blocks.lemma_enc_len();
        other.count_of_feature_blocks.lemma_enc_len();
        lemma_concat_peel(self.bytes_0_18(), self.bytes_18_36(), other.bytes_0_18(), other.bytes_18_36());
        lemma_concat_peel(self.bytes_0_9(), self.bytes_9_18(), other.bytes_0_9(), other.bytes_9_18());
        lemma_concat_peel(self.bytes_0_4(), self.bytes_4_9(), other.bytes_0_4(), other.bytes_4_9());
        lemma_concat_peel(self.bytes_0_2(), self.bytes_2_4(), other.bytes_0_2(), other.bytes_2_4());
        lemma_concat_peel(self.header.enc(), self.unidentified_item_name.enc(), other.header.enc(), other.unidentified_item_name.enc());
        lemma_concat_peel(self.identified_item_name.enc(), self.replacement_item.enc(), other.identified_item_name.enc(), other.replacement_item.enc());
        lemma_concat_peel(self.bytes_4_6(), self.bytes_6_9(), other.bytes_4_6(), other.bytes_6_9());
        lemma_concat_peel(self.type_flags.enc(), self.category.enc(), other.type_flags.enc(), other.category.enc());
        lemma_concat_peel(self.usability.enc(), self.bytes_7_9(), other.usability.enc(), other.bytes_7_9());
        lemma_concat_peel(self.item_animation.enc(), self.min_level.enc(), other.item_animation.enc(), other.min_level.enc());
        lemma_concat_peel(self.bytes_9_13(), self.bytes_13_18(), other.bytes_9_13(), other.bytes_13_18());
        lemma_concat_peel(self.bytes_9_11(), self.bytes_11_13(), other.bytes_9_11(), other.bytes_11_13());
        lemma_concat_peel(self.min_strength.enc(), self.min_strength_bonus.enc(), other.min_strength.enc(), other.min_strength_bonus.enc());
        lemma_concat_peel(self.kit_usability_1.enc(), self.min_intelligence.enc(), other.kit_usability_1.enc(), other.min_intelligence.enc());
        lemma_concat_peel(self.bytes_13_15(), self.bytes_15_18(), other.bytes_13_15(), other.bytes_15_18());
        lemma_concat_peel(self.kit_usability_2.enc(), self.min_dexterity.enc(), other.kit_usability_2.enc(), other.min_dexterity.enc());
        lemma_concat_peel(self.kit_usability_3.enc(), self.bytes_16_18(), other.kit_usability_3.enc(), other.bytes_16_18());
        lemma_concat_peel(self.min_wisdom.enc(), self.kit_usability_4.enc(), other.min_wisdom.enc(), other.kit_usability_4.enc());
        lemma_concat_peel(self.bytes_18_27(), self.bytes_27_36(), other.bytes_18_27(), other.bytes_27_36());
        lemma_concat_peel(self.bytes_18_22(), self.bytes_22_27(), other.bytes_18_22(), other.bytes_22_27());
        lemma_concat_peel(self.bytes_18_20(), self.bytes_20_22(), other.bytes_18_20(), other.bytes_20_22());
        lemma_concat_peel(self.min_constitution.enc(), self.weapon_proficiency.enc(), other.min_constitution.enc(), other.weapon_proficiency.enc());
        lemma_concat_peel(self.min_charisma.enc(), self.base_value.enc(), other.min_charisma.enc(), other.base_value.enc());
        lemma_concat_peel(self.bytes_22_24(), self.bytes_24_27(), other.bytes_22_24(), other.bytes_24_27());
        lemma_concat_peel(self.max_stackable.enc(), self.item_icon.enc(), other.max_stackable.enc(), other.item_icon.enc());
        lemma_concat_peel(self.lore.enc(), self.bytes_25_27(), other.lore.enc(), other.bytes_25_27());
        lemma_concat_peel(self.ground_icon.enc(), self.base_weight.enc(), other.ground_icon.enc(), other.base_weight.enc());
        lemma_concat_peel(self.bytes_27_31(), self.bytes_31_36(), other.bytes_27_31(), other.bytes_31_36());
        lemma_concat_peel(self.bytes_27_29(), self.bytes_29_31(), other.bytes_27_29(), other.bytes_29_31());
        lemma_concat_peel(self.item_description_generic.enc(), self.item_description_identified.enc(), other.item_description_generic.enc(), other.item_description_identified.enc());
        lemma_concat_peel(self.description_icon.enc(), self.enchantment.enc(), other.description_icon.enc(), other.enchantment.enc());
        lemma_concat_peel(self.bytes_31_33(), self.bytes_33_36(), other.bytes_31_33(), other.bytes_33_36());
        lemma_concat_peel(self.offset_to_extended_headers.enc(), self.count_of_extended_headers.enc(), other.offset_to_extended_headers.enc(), other.count_of_extended_headers.enc());
        lemma_concat_peel(self.offset_to_feature_blocks.enc(), self.bytes_34_36(), other.offset_to_feature_blocks.enc(), other.bytes_34_36());
        lemma_concat_peel(self.index_to_equipping_feature_blocks.enc(), self.count_of_feature_blocks.enc(), other.index_to_equipping_feature_blocks.enc(), other.count_of_feature_blocks.enc());
        self.header.lemma_enc_injective(&other.header);
        self.unidentified_item_name.lemma_enc_injective(&other.unidentified_item_name);
        self.identified_item_name.lemma_enc_injective(&other.identified_item_name);
        self.replacement_item.lemma_enc_injective(&other.replacement_item);
        self.type_flags.lemma_enc_injective(&other.type_flags);
        self.category.lemma_enc_injective(&other.category);
        self.usability.lemma_enc_injective(&other.usability);
        self.item_animation.lemma_enc_injective(&other.item_animation);
        self.min_level.lemma_enc_injective(&other.min_level);
        self.min_strength.lemma_enc_injective(&other.min_strength);
        self.min_strength_bonus.lemma_enc_injective(&other.min_strength_bonus);
        self.kit_usability_1.lemma_enc_injective(&other.kit_usability_1);
        self.min_intelligence.lemma_enc_injective(&other.min_intelligence);
        self.kit_usability_2.lemma_enc_injective(&other.kit_usability_2);
        self.min_dexterity.lemma_enc_injective(&other.min_dexterity);
        self.kit_usability_3.lemma_enc_injective(&other.kit_usability_3);
        self.min_wisdom.lemma_enc_injective(&other.min_wisdom);
        self.kit_usability_4.lemma_enc_injective(&other.kit_usability_4);
        self.min_constitution.lemma_enc_injective(&other.min_constitution);
        self.weapon_proficiency.lemma_enc_injective(&other.weapon_proficiency);
        self.min_charisma.lemma_enc_injective(&other.min_charisma);
        self.base_value.lemma_enc_injective(&other.base_value);
        self.max_stackable.lemma_enc_injective(&other.max_stackable);
        self.item_icon.lemma_enc_injective(&other.item_icon);
        self.lore.lemma_enc_injective(&other.lore);
        self.ground_icon.lemma_enc_injective(&other.ground_icon);
        self.base_weight.lemma_enc_injective(&other.base_weight);
        self.item_description_generic.lemma_enc_injective(&other.item_description_generic);
        self.item_description_identified.lemma_enc_injective(&other.item_description_identified);
        self.description_icon.lemma_enc_injective(&other.description_icon);
        self.enchantment.lemma_enc_injective(&other.enchantment);
        self.offset_to_extended_headers.lemma_enc_injective(&other.offset_to_extended_headers);
        self.count_of_extended_headers.lemma_enc_injective(&other.count_of_extended_headers);
        self.offset_to_feature_blocks.lemma_enc_injective(&other.offset_to_feature_blocks);
        self.index_to_equipping_feature_blocks.lemma_enc_injective(&other.index_to_equipping_feature_blocks);
        self.count_of_feature_blocks.lemma_enc_injective(&other.count_of_feature_blocks);
    }

    #[verifier::rlimit(100)]
    #[verifier::spinoff_prover]
    fn decode(buf: &[u8], pos: usize) -> (v: Self) {
        let len = buf.len();
        let fld0 = Header::decode(buf, pos + 0);
        let fld1 = u32::decode(buf, pos + 8);
        let fld2 = u32::decode(buf, pos + 12);
        let fld3 = <CharArray<8>>::decode(buf, pos + 16);
        let fld4 = u32::decode(buf, pos + 24);
        let fld5 = u16::decode(buf, pos + 28);
        let fld6 = u32::decode(buf, pos + 30);
        let fld7 = <CharArray<2>>::decode(buf, pos + 34);
        let fld8 = u16::decode(buf, pos + 36);
        let fld9 = u16::decode(buf, pos + 38);
        let fld10 = u8::decode(buf, pos + 40);
        let fld11 = u8::decode(buf, pos + 41);
        let fld12 = u8::decode(buf, pos + 42);
        let fld13 = u8::decode(buf, pos + 43);
        let fld14 = u8::decode(buf, pos + 44);
        let fld15 = u8::decode(buf, pos + 45);
        let fld16 = u8::decode(buf, pos + 46);
        let fld17 = u8::decode(buf, pos + 47);
        let fld18 = u8::decode(buf, pos + 48);
        let fld19 = u8::decode(buf, pos + 49);
        let fld20 = u16::decode(buf, pos + 50);
        let fld21 = u32::decode(buf, pos + 52);
        let fld22 = u16::decode(buf, pos + 56);
        let fld23 = <CharArray<8>>::decode(buf, pos + 58);
        let fld24 = u16::decode(buf, pos + 66);
        let fld25 = <CharArray<8>>::decode(buf, pos + 68);
        let fld26 = u32::decode(buf, pos + 76);
        let fld27 = u32::decode(buf, pos + 80);
        let fld28 = u32::decode(buf, pos + 84);
        let fld29 = <CharArray<8>>::decode(buf, pos + 88);
        let fld30 = u32::decode(buf, pos + 96);
        let fld31 = u32::decode(buf, pos + 100);
        let fld32 = u16::decode(buf, pos + 104);
        let fld33 = u32::decode(buf, pos + 106);
        let fld34 = u16::decode(buf, pos + 110);
        let fld35 = u16::decode(buf, pos + 112);
        let v = ItemHeader {
            header: fld0,
            unidentified_item_name: fld1,
            identified_item_name: fld2,
            replacement_item: fld3,
            type_flags: fld4,
            category: fld5,
            usability: fld6,
            item_animation: fld7,
            min_level: fld8,
            min_strength: fld9,
            min_strength_bonus: fld10,
            kit_usability_1: fld11,
            min_intelligence: fld12,
            kit_usability_2: fld13,
            min_dexterity: fld14,
            kit_usability_3: fld15,
            min_wisdom: fld16,
            kit_usability_4: fld17,
            min_constitution: fld18,
            weapon_proficiency: fld19,
            min_charisma: fld20,
            base_value: fld21,
            max_stackable: fld22,
            item_icon: fld23,
            lore: fld24,
            ground_icon: fld25,
            base_weight: fld26,
            item_description_generic: fld27,
            item_description_identified: fld28,
            description_icon: fld29,
            enchantment: fld30,
            offset_to_extended_headers: fld31,
            count_of_extended_headers: fld32,
            offset_to_feature_blocks: fld33,
            index_to_equipping_feature_blocks: fld34,
            count_of_feature_blocks: fld35,
        };
        proof {
            lemma_subrange_concat(buf@, pos + 0, pos + 48, pos + 114);
            lemma_subrange_concat(buf@, pos + 0, pos + 38, pos + 48);
            lemma_subrange_concat(buf@, pos + 0, pos + 24, pos + 38);
            lemma_subrange_concat(buf@, pos + 0, pos + 12, pos + 24);
            lemma_subrange_concat(buf@, pos + 0, pos + 8, pos + 12);
            lemma_subrange_concat(buf@, pos + 12, pos + 16, pos + 24);
            lemma_subrange_concat(buf@, pos + 24, pos + 30, pos + 38);
            lemma_subrange_concat(buf@, pos + 24, pos + 28, pos + 30);
            lemma_subrange_concat(buf@, pos + 30, pos + 34, pos + 38);
            lemma_subrange_concat(buf@, pos + 34, pos + 36, pos + 38);
            lemma_subrange_concat(buf@, pos + 38, pos + 43, pos + 48);
            lemma_subrange_concat(buf@, pos + 38, pos + 41, pos + 43);
            lemma_subrange_concat(buf@, pos + 38, pos + 40, pos + 41);
            lemma_subrange_concat(buf@, pos + 41, pos + 42, pos + 43);
            lemma_subrange_concat(buf@, pos + 43, pos + 45, pos + 48);
            lemma_subrange_concat(buf@, pos + 43, pos + 44, pos + 45);
            lemma_subrange_concat(buf@, pos + 45, pos + 46, pos + 48);
            lemma_subrange_concat(buf@, pos + 46, pos + 47, pos + 48);
            lemma_subrange_concat(buf@, pos + 48, pos + 80, pos + 114);
            lemma_subrange_concat(buf@, pos + 48, pos + 56, pos + 80);
            lemma_subrange_concat(buf@, pos + 48, pos + 50, pos + 56);
            lemma_subrange_concat(buf@, pos + 48, pos + 49, pos + 50);
            lemma_subrange_concat(buf@, pos + 50, pos + 52, pos + 56);
            lemma_subrange_concat(buf@, pos + 56, pos + 66, pos + 80);
            lemma_subrange_concat(buf@, pos + 56, pos + 58, pos + 66);
            lemma_subrange_concat(buf@, pos + 66, pos + 68, pos + 80);
            lemma_subrange_concat(buf@, pos + 68, pos + 76, pos + 80);
            lemma_subrange_concat(buf@, pos + 80, pos + 100, pos + 114);
            lemma_subrange_concat(buf@, pos + 80, pos + 88, pos + 100);
            lemma_subrange_concat(buf@, pos + 80, pos + 84, pos + 88);
            lemma_subrange_concat(buf@, pos + 88, pos + 96, pos + 100);
            lemma_subrange_concat(buf@, pos + 100, pos + 106, pos + 114);
            lemma_subrange_concat(buf@, pos + 100, pos + 104, pos + 106);
            lemma_subrange_concat(buf@, pos + 106, pos + 110, pos + 114);
            lemma_subrange_concat(buf@, pos + 110, pos + 112, pos + 114);
        }
        v
    }

    fn encode(&self, out: &mut Vec<u8>) {
        let mut b0 = encoded(&self.header);
        let mut b1 = encoded(&self.unidentified_item_name);
        let mut b2 = encoded(&self.identified_item_name);
        let mut b3 = encoded(&self.replacement_item);
        let mut b4 = encoded(&self.type_flags);
        let mut b5 = encoded(&self.category);
        let mut b6 = encoded(&self.usability);
        let mut b7 = encoded(&self.item_animation);
        let mut b8 = encoded(&self.min_level);
        let mut b9 = encoded(&self.min_strength);
        let mut b10 = encoded(&self.min_strength_bonus);
        let mut b11 = encoded(&self.kit_usability_1);
        let mut b12 = encoded(&self.min_intelligence);
        let mut b13 = encoded(&self.kit_usability_2);
        let mut b14 = encoded(&self.min_dexterity);
        let mut b15 = encoded(&self.kit_usability_3);
        let mut b16 = encoded(&self.min_wisdom);
        let mut b17 = encoded(&self.kit_usability_4);
        let mut b18 = encoded(&self.min_constitution);
        let mut b19 = encoded(&self.weapon_proficiency);
        let mut b20 = encoded(&self.min_charisma);
        let mut b21 = encoded(&self.base_value);
        let mut b22 = encoded(&self.max_stackable);
        let mut b23 = encoded(&self.item_icon);
        let mut b24 = encoded(&self.lore);
        let mut b25 = encoded(&self.ground_icon);
        let mut b26 = encoded(&self.base_weight);
        let mut b27 = encoded(&self.item_description_generic);
        let mut b28 = encoded(&self.item_description_identified);
        let mut b29 = encoded(&self.description_icon);
        let mut b30 = encoded(&self.enchantment);
        let mut b31 = encoded(&self.offset_to_extended_headers);
        let mut b32 = encoded(&self.count_of_extended_headers);
        let mut b33 = encoded(&self.offset_to_feature_blocks);
        let mut b34 = encoded(&self.index_to_equipping_feature_blocks);
        let mut b35 = encoded(&self.count_of_feature_blocks);
        b34.append(&mut b35);
        b33.append(&mut b34);
        b31.append(&mut b32);
        b31.append(&mut b33);
        b29.append(&mut b30);
        b27.append(&mut b28);
        b27.append(&mut b29);
        b27.append(&mut b31);
        b25.append(&mut b26);
        b24.append(&mut b25);
        b22.append(&mut b23);
        b22.append(&mut b24);
        b20.append(&mut b21);
        b18.append(&mut b19);
        b18.append(&mut b20);
        b18.append(&mut b22);
        b18.append(&mut b27);
        b16.append(&mut b17);
        b15.append(&mut b16);
        b13.append(&mut b14);
        b13.append(&mut b15);
        b11.append(&mut b12);
        b9.append(&mut b10);
        b9.append(&mut b11);
        b9.append(&mut b13);
        b7.append(&mut b8);
        b6.append(&mut b7);
        b4.append(&mut b5);
        b4.append(&mut b6);
        b2.append(&mut b3);
        b0.append(&mut b1);
        b0.append(&mut b2);
        b0.append(&mut b4);
        b0.append(&mut b9);
        b0.append(&mut b18);
        out.append(&mut b0);
    }
}

/// https://gibberlings3.github.io/iesdp/file_formats/ie_formats/itm_v1.htm#itmv1_Extended_Header
#[derive(Debug, Clone, PartialEq)]
pub struct ItemExtendedHeader {
    /// Note zero is very bad here
    pub attack_type: u8,
    pub id_required: u8,
    pub location: u8,
    pub alternative_dice_sides: u8,
    pub use_icon: CharArray<8>,
    pub target_type: u8,
    pub target_count: u8,
    pub range: u16,
    pub launcher_required: u8,
    pub alternative_dice_thrown: u8,
    pub speed_factor: u8,
    pub alternative_damage_bonus: u8,
    pub thaco: u16,
    pub dice_sides: u8,
    pub primary_type_school: u8,
    pub dice_thrown: u8,
    pub secondary_type: u8,
    pub damage_bonus: u16,
    pub damage_type: u16,
    pub feature_blocks_count: u16,
    pub feature_blocks_index: u16,
    pub max_charges: u16,
    pub charge_depletion_behaviour: u16,
    pub flags: Vec<u8>,
    pub projectile_animation: u16,
    pub melee_animation: Vec<u8>,
    pub is_arrow: u16,
    pub is_bolt: u16,
    pub is_bullet: u16,
}

impl ItemExtendedHeader {
    /// Encoding of the fields 0 to 28, in order.
    pub open spec fn bytes_0_29(&self) -> Seq<u8> {
        self.bytes_0_14() + self.bytes_14_29()
    }

    /// Encoding of the fields 0 to 13, in order.
    pub open spec fn bytes_0_14(&self) -> Seq<u8> {
        self.bytes_0_7() + self.bytes_7_14()
    }

    /// Encoding of the fields 0 to 6, in order.
    pub open spec fn bytes_0_7(&self) -> Seq<u8> {
        self.bytes_0_3() + self.bytes_3_7()
    }

    /// Encoding of the fields 0 to 2, in order.
    pub open spec fn bytes_0_3(&self) -> Seq<u8> {
        self.attack_type.enc() + self.bytes_1_3()
    }

    /// Encoding of the fields 1 to 2, in order.
    pub open spec fn bytes_1_3(&self) -> Seq<u8> {
        self.id_required.enc() + self.location.enc()
    }

    /// Encoding of the fields 3 to 6, in order.
    pub open spec fn bytes_3_7(&self) -> Seq<u8> {
        self.bytes_3_5() + self.bytes_5_7()
    }

    /// Encoding of the fields 3 to 4, in order.
    pub open spec fn bytes_3_5(&self) -> Seq<u8> {
        self.alternative_dice_sides.enc() + self.use_icon.enc()
    }

    /// Encoding of the fields 5 to 6, in order.
    pub open spec fn bytes_5_7(&self) -> Seq<u8> {
        self.target_type.enc() + self.target_count.enc()
    }

    /// Encoding of the fields 7 to 13, in order.
    pub open spec fn bytes_7_14(&self) -> Seq<u8> {
        self.bytes_7_10() + self.bytes_10_14()
    }

    /// Encoding of the fields 7 to 9, in order.
    pub open spec fn bytes_7_10(&self) -> Seq<u8> {
        self.range.enc() + self.bytes_8_10()
    }

    /// Encoding of the fields 8 to 9, in order.
    pub open spec fn bytes_8_10(&self) -> Seq<u8> {
        self.launcher_required.enc() + self.alternative_dice_thrown.enc()
    }

    /// Encoding of the fields 10 to 13, in order.
    pub open spec fn bytes_10_14(&self) -> Seq<u8> {
        self.bytes_10_12() + self.bytes_12_14()
    }

    /// Encoding of the fields 10 to 11, in order.
    pub open spec fn bytes_10_12(&self) -> Seq<u8> {
        self.speed_factor.enc() + self.alternative_damage_bonus.enc()
    }

    /// Encoding of the fields 12 to 13, in order.
    pub open spec fn bytes_12_14(&self) -> Seq<u8> {
        self.thaco.enc() + self.dice_sides.enc()
    }

    /// Encoding of the fields 14 to 28, in order.
    pub open spec fn bytes_14_29(&self) -> Seq<u8> {
        self.bytes_14_21() + self.bytes_21_29()
    }

    /// Encoding of the fields 14 to 20, in order.
    pub open spec fn bytes_14_21(&self) -> Seq<u8> {
        self.bytes_14_17() + self.bytes_17_21()
    }

    /// Encoding of the fields 14 to 16, in order.
    pub open spec fn bytes_14_17(&self) -> Seq<u8> {
        self.primary_type_school.enc() + self.bytes_15_17()
    }

    /// Encoding of the fields 15 to 16, in order.
    pub open spec fn bytes_15_17(&self) -> Seq<u8> {
        self.dice_thrown.enc() + self.secondary_type.enc()
    }

    /// Encoding of the fields 17 to 20, in order.
    pub open spec fn bytes_17_21(&self) -> Seq<u8> {
        self.bytes_17_19() + self.bytes_19_21()
    }

    /// Encoding of the fields 17 to 18, in order.
    pub open spec fn bytes_17_19(&self) -> Seq<u8> {
        self.damage_bonus.enc() + self.damage_type.enc()
    }

    /// Encoding of the fields 19 to 20, in order.
    pub open spec fn bytes_19_21(&self) -> Seq<u8> {
        self.feature_blocks_count.enc() + self.feature_blocks_index.enc()
    }

    /// Encoding of the fields 21 to 28, in order.
    pub open spec fn bytes_21_29(&self) -> Seq<u8> {
        self.bytes_21_25() + self.bytes_25_29()
    }

    /// Encoding of the fields 21 to 24, in order.
    pub open spec fn bytes_21_25(&self) -> Seq<u8> {
        self.bytes_21_23() + self.bytes_23_25()
    }

    /// Encoding of the fields 21 to 22, in order.
    pub open spec fn bytes_21_23(&self) -> Seq<u8> {
        self.max_charges.enc() + self.charge_depletion_behaviour.enc()
    }

    /// Encoding of the fields 23 to 24, in order.
    pub open spec fn bytes_23_25(&self) -> Seq<u8> {
        enc_seq(self.flags@) + self.projectile_animation.enc()
    }

    /// Encoding of the fields 25 to 28, in order.
    pub open spec fn bytes_25_29(&self) -> Seq<u8> {
        self.bytes_25_27() + self.bytes_27_29()
    }

    /// Encoding of the fields 25 to 26, in order.
    pub open spec fn bytes_25_27(&self) -> Seq<u8> {
        enc_seq(self.melee_animation@) + self.is_arrow.enc()
    }

    /// Encoding of the fields 27 to 28, in order.
    pub open spec fn bytes_27_29(&self) -> Seq<u8> {
        self.is_bolt.enc() + self.is_bullet.enc()
    }
}

impl Codec for ItemExtendedHeader {
    open spec fn width() -> nat {
        56
    }

    open spec fn enc(&self) -> Seq<u8> {
        self.bytes_0_29()
    }

    open spec fn wf(&self) -> bool {
        &&& self.flags@.len() == 4
        &&& all_wf(self.flags@)
        &&& self.melee_animation@.len() == 6
        &&& all_wf(self.melee_animation@)
    }

    open spec fn same(&self, other: &Self) -> bool {
        &&& self.attack_type == other.attack_type
        &&& self.id_required == other.id_required
        &&& self.location == other.location
        &&& self.alternative_dice_sides == other.alternative_dice_sides
        &&& self.use_icon.same(&other.use_icon)
        &&& self.target_type == other.target_type
        &&& self.target_count == other.target_count
        &&& self.range == other.range
        &&& self.launcher_required == other.launcher_required
        &&& self.alternative_dice_thrown == other.alternative_dice_thrown
        &&& self.speed_factor == other.speed_factor
        &&& self.alternative_damage_bonus == other.alternative_damage_bonus
        &&& self.thaco == other.thaco
        &&& self.dice_sides == other.dice_sides
        &&& self.primary_type_school == other.primary_type_school
        &&& self.dice_thrown == other.dice_thrown
        &&& self.secondary_type == other.secondary_type
        &&& self.damage_bonus == other.damage_bonus
        &&& self.damage_type == other.damage_type
        &&& self.feature_blocks_count == other.feature_blocks_count
        &&& self.feature_blocks_index == other.feature_blocks_index
        &&& self.max_charges == other.max_charges
        &&& self.charge_depletion_behaviour == other.charge_depletion_behaviour
        &&& seq_same(self.flags@, other.flags@)
        &&& self.projectile_animation == other.projectile_animation
        &&& seq_same(self.melee_animation@, other.melee_animation@)
        &&& self.is_arrow == other.is_arrow
        &&& self.is_bolt == other.is_bolt
        &&& self.is_bullet == other.is_bullet
    }

    fn byte_width() -> (n: usize) {
        56
    }

    fn check_wf(&self) -> (b: bool) {
        self.flags.len() == 4 && check_all_wf(self.flags.as_slice()) && self.melee_animation.len() == 6 && check_all_wf(self.melee_animation.as_slice())
    }

    proof fn lemma_enc_len(&self) {
        self.attack_type.lemma_enc_len();
        self.id_required.lemma_enc_len();
        self.location.lemma_enc_len();
        self.alternative_dice_sides.lemma_enc_len();
        self.use_icon.lemma_enc_len();
        self.target_type.lemma_enc_len();
        self.target_count.lemma_enc_len();
        self.range.lemma_enc_len();
        self.launcher_required.lemma_enc_len();
        self.alternative_dice_thrown.lemma_enc_len();
        self.speed_factor.lemma_enc_len();
        self.alternative_damage_bonus.lemma_enc_len();
        self.thaco.lemma_enc_len();
        self.dice_sides.lemma_enc_len();
        self.primary_type_school.lemma_enc_len();
        self.dice_thrown.lemma_enc_len();
        self.secondary_type.lemma_enc_len();
        self.damage_bonus.lemma_enc_len();
        self.damage_type.lemma_enc_len();
        self.feature_blocks_count.lemma_enc_len();
        self.feature_blocks_index.lemma_enc_len();
        self.max_charges.lemma_enc_len();
        self.charge_depletion_behaviour.lemma_enc_len();
        lemma_enc_seq_len(self.flags@);
        self.projectile_animation.lemma_enc_len();
        lemma_enc_seq_len(self.melee_animation@);
        self.is_arrow.lemma_enc_len();
        self.is_bolt.lemma_enc_len();
        self.is_bullet.lemma_enc_len();
    }

    proof fn lemma_enc_injective(&self, other: &Self) {
        self.attack_type.lemma_enc_len();
        self.id_required.lemma_enc_len();
        self.location.lemma_enc_len();
        self.alternative_dice_sides.lemma_enc_len();
        self.use_icon.lemma_enc_len();
        self.target_type.lemma_enc_len();
        self.target_count.lemma_enc_len();
        self.range.lemma_enc_len();
        self.launcher_required.lemma_enc_len();
        self.alternative_dice_thrown.lemma_enc_len();
        self.speed_factor.lemma_enc_len();
        self.alternative_damage_bonus.lemma_enc_len();
        self.thaco.lemma_enc_len();
        self.dice_sides.lemma_enc_len();
        self.primary_type_school.lemma_enc_len();
        self.dice_thrown.lemma_enc_len();
        self.secondary_type.lemma_enc_len();
        self.damage_bonus.lemma_enc_len();
        self.damage_type.lemma_enc_len();
        self.feature_blocks_count.lemma_enc_len();
        self.feature_blocks_index.lemma_enc_len();
        self.max_charges.lemma_enc_len();
        self.charge_depletion_behaviour.lemma_enc_len();
        lemma_enc_seq_len(self.flags@);
        self.projectile_animation.lemma_enc_len();
        lemma_enc_seq_len(self.melee_animation@);
        self.is_arrow.lemma_enc_len();
        self.is_bolt.lemma_enc_len();
        self.is_bullet.lemma_enc_len();
        other.attack_type.lemma_enc_len();
        other.id_required.lemma_enc_len();
        other.location.lemma_enc_len();
        other.alternative_dice_sides.lemma_enc_len();
        other.use_icon.lemma_enc_len();
        other.target_type.lemma_enc_len();
        other.target_count.lemma_enc_len();
        other.range.lemma_enc_len();
        other.launcher_required.lemma_enc_len();
        other.alternative_dice_thrown.lemma_enc_len();
        other.speed_factor.lemma_enc_len();
        other.alternative_damage_bonus.lemma_enc_len();
        other.thaco.lemma_enc_len();
        other.dice_sides.lemma_enc_len();
        other.primary_type_school.lemma_enc_len();
        other.dice_thrown.lemma_enc_len();
        other.secondary_type.lemma_enc_len();
        other.damage_bonus.lemma_enc_len();
        other.damage_type.lemma_enc_len();
        other.feature_blocks_count.lemma_enc_len();
        other.feature_blocks_index.lemma_enc_len();
        other.max_charges.lemma_enc_len();
        other.charge_depletion_behaviour.lemma_enc_len();
        lemma_enc_seq_len(other.flags@);
        other.projectile_animation.lemma_enc_len();
        lemma_enc_seq_len(other.melee_animation@);
        other.is_arrow.lemma_enc_len();
        other.is_bolt.lemma_enc_len();
        other.is_bullet.lemma_enc_len();
        lemma_concat_peel(self.bytes_0_14(), self.bytes_14_29(), other.bytes_0_14(), other.bytes_14_29());
        lemma_concat_peel(self.bytes_0_7(), self.bytes_7_14(), other.bytes_0_7(), other.bytes_7_14());
        lemma_concat_peel(self.bytes_0_3(), self.bytes_3_7(), other.bytes_0_3(), other.bytes_3_7());
        lemma_concat_peel(self.attack_type.enc(), self.bytes_1_3(), other.attack_type.enc(), other.bytes_1_3());
        lemma_concat_peel(self.id_required.enc(), self.location.enc(), other.id_required.enc(), other.location.enc());
        lemma_concat_peel(self.bytes_3_5(), self.bytes_5_7(), other.bytes_3_5(), other.bytes_5_7());
        lemma_concat_peel(self.alternative_dice_sides.enc(), self.use_icon.enc(), other.alternative_dice_sides.enc(), other.use_icon.enc());
        lemma_concat_peel(self.target_type.enc(), self.target_count.enc(), other.target_type.enc(), other.target_count.enc());
        lemma_concat_peel(self.bytes_7_10(), self.bytes_10_14(), other.bytes_7_10(), other.bytes_10_14());
        lemma_concat_peel(self.range.enc(), self.bytes_8_10(), other.range.enc(), other.bytes_8_10());
        lemma_concat_peel(self.launcher_required.enc(), self.alternative_dice_thrown.enc(), other.launcher_required.enc(), other.alternative_dice_thrown.enc());
        lemma_concat_peel(self.bytes_10_12(), self.bytes_12_14(), other.bytes_10_12(), other.bytes_12_14());
        lemma_concat_peel(self.speed_factor.enc(), self.alternative_damage_bonus.enc(), other.speed_factor.enc(), other.alternative_damage_bonus.enc());
        lemma_concat_peel(self.thaco.enc(), self.dice_sides.enc(), other.thaco.enc(), other.dice_sides.enc());
        lemma_concat_peel(self.bytes_14_21(), self.bytes_21_29(), other.bytes_14_21(), other.bytes_21_29());
        lemma_concat_peel(self.bytes_14_17(), self.bytes_17_21(), other.bytes_14_17(), other.bytes_17_21());
        lemma_concat_peel(self.primary_type_school.enc(), self.bytes_15_17(), other.primary_type_school.enc(), other.bytes_15_17());
        lemma_concat_peel(self.dice_thrown.enc(), self.secondary_type.enc(), other.dice_thrown.enc(), other.secondary_type.enc());
        lemma_concat_peel(self.bytes_17_19(), self.bytes_19_21(), other.bytes_17_19(), other.bytes_19_21());
        lemma_concat_peel(self.damage_bonus.enc(), self.damage_type.enc(), other.damage_bonus.enc(), other.damage_type.enc());
        lemma_concat_peel(self.feature_blocks_count.enc(), self.feature_blocks_index.enc(), other.feature_blocks_count.enc(), other.feature_blocks_index.enc());
        lemma_concat_peel(self.bytes_21_25(), self.bytes_25_29(), other.bytes_21_25(), other.bytes_25_29());
        lemma_concat_peel(self.bytes_21_23(), self.bytes_23_25(), other.bytes_21_23(), other.bytes_23_25());
        lemma_concat_peel(self.max_charges.enc(), self.charge_depletion_behaviour.enc(), other.max_charges.enc(), other.charge_depletion_behaviour.enc());
        lemma_concat_peel(enc_seq(self.flags@), self.projectile_animation.enc(), enc_seq(other.flags@), other.projectile_animation.enc());
        lemma_concat_peel(self.bytes_25_27(), self.bytes_27_29(), other.bytes_25_27(), other.bytes_27_29());
        lemma_concat_peel(enc_seq(self.melee_animation@), self.is_arrow.enc(), enc_seq(other.melee_animation@), other.is_arrow.enc());
        lemma_concat_peel(self.is_bolt.enc(), self.is_bullet.enc(), other.is_bolt.enc(), other.is_bullet.enc());
        self.attack_type.lemma_enc_injective(&other.attack_type);
        self.id_required.lemma_enc_injective(&other.id_required);
        self.location.lemma_enc_injective(&other.location);
        self.alternative_dice_sides.lemma_enc_injective(&other.alternative_dice_sides);
        self.use_icon.lemma_enc_injective(&other.use_icon);
        self.target_type.lemma_enc_injective(&other.target_type);
        self.target_count.lemma_enc_injective(&other.target_count);
        self.range.lemma_enc_injective(&other.range);
        self.launcher_required.lemma_enc_injective(&other.launcher_required);
        self.alternative_dice_thrown.lemma_enc_injective(&other.alternative_dice_thrown);
        self.speed_factor.lemma_enc_injective(&other.speed_factor);
        self.alternative_damage_bonus.lemma_enc_injective(&other.alternative_damage_bonus);
        self.thaco.lemma_enc_injective(&other.thaco);
        self.dice_sides.lemma_enc_injective(&other.dice_sides);
        self.primary_type_school.lemma_enc_injective(&other.primary_type_school);
        self.dice_thrown.lemma_enc_injective(&other.dice_thrown);
        self.secondary_type.lemma_enc_injective(&other.secondary_type);
        self.damage_bonus.lemma_enc_injective(&other.damage_bonus);
        self.damage_type.lemma_enc_injective(&other.damage_type);
        self.feature_blocks_count.lemma_enc_injective(&other.feature_blocks_count);
        self.feature_blocks_index.lemma_enc_injective(&other.feature_blocks_index);
        self.max_charges.lemma_enc_injective(&other.max_charges);
        self.charge_depletion_behaviour.lemma_enc_injective(&other.charge_depletion_behaviour);
        lemma_enc_seq_injective(self.flags@, other.flags@);
        self.projectile_animation.lemma_enc_injective(&other.projectile_animation);
        lemma_enc_seq_injective(self.melee_animation@, other.melee_animation@);
        self.is_arrow.lemma_enc_injective(&other.is_arrow);
        self.is_bolt.lemma_enc_injective(&other.is_bolt);
        self.is_bullet.lemma_enc_injective(&other.is_bullet);
    }

    fn decode(buf: &[u8], pos: usize) -> (v: Self) {
        let len = buf.len();
        let fld0 = u8::decode(buf, pos + 0);
        let fld1 = u8::decode(buf, pos + 1);
        let fld2 = u8::decode(buf, pos + 2);
        let fld3 = u8::decode(buf, pos + 3);
        let fld4 = <CharArray<8>>::decode(buf, pos + 4);
        let fld5 = u8::decode(buf, pos + 12);
        let fld6 = u8::decode(buf, pos + 13);
        let fld7 = u16::decode(buf, pos + 14);
        let fld8 = u8::decode(buf, pos + 16);
        let fld9 = u8::decode(buf, pos + 17);
        let fld10 = u8::decode(buf, pos + 18);
        let fld11 = u8::decode(buf, pos + 19);
        let fld12 = u16::decode(buf, pos + 20);
        let fld13 = u8::decode(buf, pos + 22);
        let fld14 = u8::decode(buf, pos + 23);
        let fld15 = u8::decode(buf, pos + 24);
        let fld16 = u8::decode(buf, pos + 25);
        let fld17 = u16::decode(buf, pos + 26);
        let fld18 = u16::decode(buf, pos + 28);
        let fld19 = u16::decode(buf, pos + 30);
        let fld20 = u16::decode(buf, pos + 32);
        let fld21 = u16::decode(buf, pos + 34);
        let fld22 = u16::decode(buf, pos + 36);
        let fld23 = decode_vec::<u8>(buf, pos + 38, 4);
        let fld24 = u16::decode(buf, pos + 42);
        let fld25 = decode_vec::<u8>(buf, pos + 44, 6);
        let fld26 = u16::decode(buf, pos + 50);
        let fld27 = u16::decode(buf, pos + 52);
        let fld28 = u16::decode(buf, pos + 54);
        let v = ItemExtendedHeader {
            attack_type: fld0,
            id_required: fld1,
            location: fld2,
            alternative_dice_sides: fld3,
            use_icon: fld4,
            target_type: fld5,
            target_count: fld6,
            range: fld7,
            launcher_required: fld8,
            alternative_dice_thrown: fld9,
            speed_factor: fld10,
            alternative_damage_bonus: fld11,
            thaco: fld12,
            dice_sides: fld13,
            primary_type_school: fld14,
            dice_thrown: fld15,
            secondary_type: fld16,
            damage_bonus: fld17,
            damage_type: fld18,
            feature_blocks_count: fld19,
            feature_blocks_index: fld20,
            max_charges: fld21,
            charge_depletion_behaviour: fld22,
            flags: fld23,
            projectile_animation: fld24,
            melee_animation: fld25,
            is_arrow: fld26,
            is_bolt: fld27,
            is_bullet: fld28,
        };
        proof {
            lemma_subrange_concat(buf@, pos + 0, pos + 23, pos + 56);
            lemma_subrange_concat(buf@, pos + 0, pos + 14, pos + 23);
            lemma_subrange_concat(buf@, pos + 0, pos + 3, pos + 14);
            lemma_subrange_concat(buf@, pos + 0, pos + 1, pos + 3);
            lemma_subrange_concat(buf@, pos + 1, pos + 2, pos + 3);
            lemma_subrange_concat(buf@, pos + 3, pos + 12, pos + 14);
            lemma_subrange_concat(buf@, pos + 3, pos + 4, pos + 12);
            lemma_subrange_concat(buf@, pos + 12, pos + 13, pos + 14);
            lemma_subrange_concat(buf@, pos + 14, pos + 18, pos + 23);
            lemma_subrange_concat(buf@, pos + 14, pos + 16, pos + 18);
            lemma_subrange_concat(buf@, pos + 16, pos + 17, pos + 18);
            lemma_subrange_concat(buf@, pos + 18, pos + 20, pos + 23);
            lemma_subrange_concat(buf@, pos + 18, pos + 19, pos + 20);
            lemma_subrange_concat(buf@, pos + 20, pos + 22, pos + 23);
            lemma_subrange_concat(buf@, pos + 23, pos + 34, pos + 56);
            lemma_subrange_concat(buf@, pos + 23, pos + 26, pos + 34);
            lemma_subrange_concat(buf@, pos + 23, pos + 24, pos + 26);
            lemma_subrange_concat(buf@, pos + 24, pos + 25, pos + 26);
            lemma_subrange_concat(buf@, pos + 26, pos + 30, pos + 34);
            lemma_subrange_concat(buf@, pos + 26, pos + 28, pos + 30);
            lemma_subrange_concat(buf@, pos + 30, pos + 32, pos + 34);
            lemma_subrange_concat(buf@, pos + 34, pos + 44, pos + 56);
            lemma_subrange_concat(buf@, pos + 34, pos + 38, pos + 44);
            lemma_subrange_concat(buf@, pos + 34, pos + 36, pos + 38);
            lemma_subrange_concat(buf@, pos + 38, pos + 42, pos + 44);
            lemma_subrange_concat(buf@, pos + 44, pos + 52, pos + 56);
            lemma_subrange_concat(buf@, pos + 44, pos + 50, pos + 52);
            lemma_subrange_concat(buf@, pos + 52, pos + 54, pos + 56);
        }
        v
    }

    fn encode(&self, out: &mut Vec<u8>) {
        let mut b0 = encoded(&self.attack_type);
        let mut b1 = encoded(&self.id_required);
        let mut b2 = encoded(&self.location);
        let mut b3 = encoded(&self.alternative_dice_sides);
        let mut b4 = encoded(&self.use_icon);
        let mut b5 = encoded(&self.target_type);
        let mut b6 = encoded(&self.target_count);
        let mut b7 = encoded(&self.range);
        let mut b8 = encoded(&self.launcher_required);
        let mut b9 = encoded(&self.alternative_dice_thrown);
        let mut b10 = encoded(&self.speed_factor);
        let mut b11 = encoded(&self.alternative_damage_bonus);
        let mut b12 = encoded(&self.thaco);
        let mut b13 = encoded(&self.dice_sides);
        let mut b14 = encoded(&self.primary_type_school);
        let mut b15 = encoded(&self.dice_thrown);
        let mut b16 = encoded(&self.secondary_type);
        let mut b17 = encoded(&self.damage_bonus);
        let mut b18 = encoded(&self.damage_type);
        let mut b19 = encoded(&self.feature_blocks_count);
        let mut b20 = encoded(&self.feature_blocks_index);
        let mut b21 = encoded(&self.max_charges);
        let mut b22 = encoded(&self.charge_depletion_behaviour);
        let mut b23 = encoded_slice(self.flags.as_slice());
        let mut b24 = encoded(&self.projectile_animation);
        let mut b25 = encoded_slice(self.melee_animation.as_slice());
        let mut b26 = encoded(&self.is_arrow);
        let mut b27 = encoded(&self.is_bolt);
        let mut b28 = encoded(&self.is_bullet);
        b27.append(&mut b28);
        b25.append(&mut b26);
        b25.append(&mut b27);
        b23.append(&mut b24);
        b21.append(&mut b22);
        b21.append(&mut b23);
        b21.append(&mut b25);
        b19.append(&mut b20);
        b17.append(&mut b18);
        b17.append(&mut b19);
        b15.append(&mut b16);
        b14.append(&mut b15);
        b14.append(&mut b17);
        b14.append(&mut b21);
        b12.append(&mut b13);
        b10.append(&mut b11);
        b10.append(&mut b12);
        b8.append(&mut b9);
        b7.append(&mut b8);
        b7.append(&mut b10);
        b5.append(&mut b6);
        b3.append(&mut b4);
        b3.append(&mut b5);
        b1.append(&mut b2);
        b0.append(&mut b1);
        b0.append(&mut b3);
        b0.append(&mut b7);
        b0.append(&mut b14);
        out.append(&mut b0);
    }
}

/// An item: its header, the extended headers and the equipping feature
/// blocks that follow it, and the bytes it was read from.
/// <https://gibberlings3.github.io/iesdp/file_formats/ie_formats/itm_v1.htm>
#[derive(Debug, PartialEq)]
pub struct Item {
    /// The whole file; it is what an item is written back as.
    pub original_bytes: Vec<u8>,
    pub header: ItemHeader,
    pub extended_headers: Vec<ItemExtendedHeader>,
    pub equipping_feature_blocks: Vec<FeatureBlock>,
}

impl Item {
    /// Where the feature blocks start: right after the extended headers.
    pub open spec fn feature_blocks_at(h: ItemHeader) -> int {
        ItemHeader::width() + h.count_of_extended_headers * ItemExtendedHeader::width()
    }
}

impl Model for Item {
    open spec fn spec_parses(buffer: Seq<u8>) -> bool {
        let h = decoded_at::<ItemHeader>(buffer, 0);
        &&& ItemHeader::width() <= buffer.len()
        &&& section_ok(buffer.len(), ItemHeader::width() as int, h.count_of_extended_headers as int, ItemExtendedHeader::width())
        &&& section_ok(buffer.len(), Item::feature_blocks_at(h), h.count_of_feature_blocks as int, FeatureBlock::width())
    }

    open spec fn parsed_from(&self, buffer: Seq<u8>) -> bool {
        &&& self.original_bytes@ == buffer
        &&& record_parsed(self.header, buffer, 0)
        &&& section_parsed(self.extended_headers@, buffer, ItemHeader::width() as int, self.header.count_of_extended_headers as int)
        &&& section_parsed(self.equipping_feature_blocks@, buffer, Item::feature_blocks_at(self.header), self.header.count_of_feature_blocks as int)
    }

    open spec fn spec_writable(&self) -> bool {
        true
    }

    fn writable(&self) -> (b: bool) {
        true
    }

    open spec fn spec_bytes(&self) -> Seq<u8> {
        self.original_bytes@
    }

    fn parse(buffer: &[u8]) -> (r: Option<Self>) {
        let header = match read_at::<ItemHeader>(buffer, 0) {
            Some(h) => h,
            None => return None,
        };
        proof {
            lemma_decoded_at(buffer@, 0, header);
        }
        let hw = ItemHeader::byte_width() as u64;
        let extended_headers = match read_section::<ItemExtendedHeader>(buffer, hw, header.count_of_extended_headers as u64) {
            Some(v) => v,
            None => return None,
        };
        let at = hw + header.count_of_extended_headers as u64 * ItemExtendedHeader::byte_width() as u64;
        let equipping_feature_blocks = match read_section::<FeatureBlock>(buffer, at, header.count_of_feature_blocks as u64) {
            Some(v) => v,
            None => return None,
        };
        let original_bytes = vstd::slice::slice_to_vec(buffer);
        Some(Item { original_bytes, header, extended_headers, equipping_feature_blocks })
    }

    fn to_bytes(&self) -> (b: Vec<u8>) {
        self.original_bytes.clone()
    }
}

} // verus!
