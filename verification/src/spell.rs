//! Spells (SPL V1).
use vstd::prelude::*;

use crate::common::binary::{Codec, lemma_subrange_concat, lemma_concat_peel, encoded, decoded_at, lemma_decoded_at, record_parsed, section_parsed, read_at, read_section, read_until_eof, section_ok, until_eof_count};
use crate::common::header::Header;
use crate::common::strref::Strref;
use crate::common::Resref;
use crate::common::feature_block::FeatureBlock;
use crate::model::Model;

verus! {

/// https://gibberlings3.github.io/iesdp/file_formats/ie_formats/spl_v1.htm#splv1_Header
#[derive(Debug, Clone, PartialEq)]
pub struct SpellHeader {
    pub header: Header,
    pub unidentified_spell_name: u32,
    pub identified_spell_name: u32,
    pub completion_sound: Resref,
    /// https://gibberlings3.github.io/iesdp/file_formats/ie_formats/spl_v2.htm#Header_Flags
    pub flags: u32,
    pub spell_type: u16,
    pub exclusion_flags: u32,
    pub casting_graphics: u16,
    pub min_level: u8,
    pub primary_spell_school: u8,
    pub min_strength: u8,
    pub secondary_spell_school: u8,
    pub min_strength_bonus: u8,
    pub kit_usability_1: u8,
    pub min_intelligence: u8,
    pub kit_usability_2: u8,
    pub min_dexterity: u8,
    pub kit_usability_3: u8,
    pub min_wisdom: u8,
    pub kit_usability_4: u8,
    pub min_constitution: u16,
    pub min_charisma: u16,
    pub spell_level: u32,
    pub max_stackable: u16,
    pub spell_book_icon: Resref,
    pub lore: u16,
    pub ground_icon: Resref,
    pub base_weight: u32,
    pub spell_description_generic: Strref,
    pub spell_description_identified: Strref,
    pub description_icon: Resref,
    pub enchantment: u32,
    pub offset_to_extended_headers: u32,
    pub count_of_extended_headers: u16,
    pub offset_to_feature_block_table: u32,
    pub offset_to_casting_feature_blocks: u16,
    pub count_of_casting_feature_blocks: u16,
}

impl SpellHeader {
    /// Encoding of the fields 0 to 36, in order.
    pub open spec fn bytes_0_37(&self) -> Seq<u8> {
        self.bytes_0_18() + self.bytes_18_37()
    }

    /// Encoding of the fields 0 to 17, in order.
    pub open spec fn bytes_0_18(&self) -> Seq<u8> {
        self.bytes_0_9() + self.bytes_9_18()
    }

    /// Encoding of the fields 0 to 8, in order.
    pub open spec fn bytes_0_9(&self) -> Seq<u8> {
        self.bytes_0_4() + self.bytes_4_9()
    }

    /// Encoding of the fields 0 to 3, in order.
    pub open spec fn bytes_0_4(&self) -> Seq<u8> {
        self.bytes_0_2() + self.bytes_2_4()
    }

    /// Encoding of the fields 0 to 1, in order.
    pub open spec fn bytes_0_2(&self) -> Seq<u8> {
        self.header.enc() + self.unidentified_spell_name.enc()
    }

    /// Encoding of the fields 2 to 3, in order.
    pub open spec fn bytes_2_4(&self) -> Seq<u8> {
        self.identified_spell_name.enc() + self.completion_sound.enc()
    }

    /// Encoding of the fields 4 to 8, in order.
    pub open spec fn bytes_4_9(&self) -> Seq<u8> {
        self.bytes_4_6() + self.bytes_6_9()
    }

    /// Encoding of the fields 4 to 5, in order.
    pub open spec fn bytes_4_6(&self) -> Seq<u8> {
        self.flags.enc() + self.spell_type.enc()
    }

    /// Encoding of the fields 6 to 8, in order.
    pub open spec fn bytes_6_9(&self) -> Seq<u8> {
        self.exclusion_flags.enc() + self.bytes_7_9()
    }

    /// Encoding of the fields 7 to 8, in order.
    pub open spec fn bytes_7_9(&self) -> Seq<u8> {
        self.casting_graphics.enc() + self.min_level.enc()
    }

    /// Encoding of the fields 9 to 17, in order.
    pub open spec fn bytes_9_18(&self) -> Seq<u8> {
        self.bytes_9_13() + self.bytes_13_18()
    }

    /// Encoding of the fields 9 to 12, in order.
    pub open spec fn bytes_9_13(&self) -> Seq<u8> {
        self.bytes_9_11() + self.bytes_11_13()
    }

    /// Encoding of the fields 9 to 10, in order.
    pub open spec fn bytes_9_11(&self) -> Seq<u8> {
        self.primary_spell_school.enc() + self.min_strength.enc()
    }

    /// Encoding of the fields 11 to 12, in order.
    pub open spec fn bytes_11_13(&self) -> Seq<u8> {
        self.secondary_spell_school.enc() + self.min_strength_bonus.enc()
    }

    /// Encoding of the fields 13 to 17, in order.
    pub open spec fn bytes_13_18(&self) -> Seq<u8> {
        self.bytes_13_15() + self.bytes_15_18()
    }

    /// Encoding of the fields 13 to 14, in order.
    pub open spec fn bytes_13_15(&self) -> Seq<u8> {
        self.kit_usability_1.enc() + self.min_intelligence.enc()
    }

    /// Encoding of the fields 15 to 17, in order.
    pub open spec fn bytes_15_18(&self) -> Seq<u8> {
        self.kit_usability_2.enc() + self.bytes_16_18()
    }

    /// Encoding of the fields 16 to 17, in order.
    pub open spec fn bytes_16_18(&self) -> Seq<u8> {
        self.min_dexterity.enc() + self.kit_usability_3.enc()
    }

    /// Encoding of the fields 18 to 36, in order.
    pub open spec fn bytes_18_37(&self) -> Seq<u8> {
        self.bytes_18_27() + self.bytes_27_37()
    }

    /// Encoding of the fields 18 to 26, in order.
    pub open spec fn bytes_18_27(&self) -> Seq<u8> {
        self.bytes_18_22() + self.bytes_22_27()
    }

    /// Encoding of the fields 18 to 21, in order.
    pub open spec fn bytes_18_22(&self) -> Seq<u8> {
        self.bytes_18_20() + self.bytes_20_22()
    }

    /// Encoding of the fields 18 to 19, in order.
    pub open spec fn bytes_18_20(&self) -> Seq<u8> {
        self.min_wisdom.enc() + self.kit_usability_4.enc()
    }

    /// Encoding of the fields 20 to 21, in order.
    pub open spec fn bytes_20_22(&self) -> Seq<u8> {
        self.min_constitution.enc() + self.min_charisma.enc()
    }

    /// Encoding of the fields 22 to 26, in order.
    pub open spec fn bytes_22_27(&self) -> Seq<u8> {
        self.bytes_22_24() + self.bytes_24_27()
    }

    /// Encoding of the fields 22 to 23, in order.
    pub open spec fn bytes_22_24(&self) -> Seq<u8> {
        self.spell_level.enc() + self.max_stackable.enc()
    }

    /// Encoding of the fields 24 to 26, in order.
    pub open spec fn bytes_24_27(&self) -> Seq<u8> {
        self.spell_book_icon.enc() + self.bytes_25_27()
    }

    /// Encoding of the fields 25 to 26, in order.
    pub open spec fn bytes_25_27(&self) -> Seq<u8> {
        self.lore.enc() + self.ground_icon.enc()
    }

    /// Encoding of the fields 27 to 36, in order.
    pub open spec fn bytes_27_37(&self) -> Seq<u8> {
        self.bytes_27_32() + self.bytes_32_37()
    }

    /// Encoding of the fields 27 to 31, in order.
    pub open spec fn bytes_27_32(&self) -> Seq<u8> {
        self.bytes_27_29() + self.bytes_29_32()
    }

    /// Encoding of the fields 27 to 28, in order.
    pub open spec fn bytes_27_29(&self) -> Seq<u8> {
        self.base_weight.enc() + self.spell_description_generic.enc()
    }

    /// Encoding of the fields 29 to 31, in order.
    pub open spec fn bytes_29_32(&self) -> Seq<u8> {
        self.spell_description_identified.enc() + self.bytes_30_32()
    }

    /// Encoding of the fields 30 to 31, in order.
    pub open spec fn bytes_30_32(&self) -> Seq<u8> {
        self.description_icon.enc() + self.enchantment.enc()
    }

    /// Encoding of the fields 32 to 36, in order.
    pub open spec fn bytes_32_37(&self) -> Seq<u8> {
        self.bytes_32_34() + self.bytes_34_37()
    }

    /// Encoding of the fields 32 to 33, in order.
    pub open spec fn bytes_32_34(&self) -> Seq<u8> {
        self.offset_to_extended_headers.enc() + self.count_of_extended_headers.enc()
    }

    /// Encoding of the fields 34 to 36, in order.
    pub open spec fn bytes_34_37(&self) -> Seq<u8> {
        self.offset_to_feature_block_table.enc() + self.bytes_35_37()
    }

    /// Encoding of the fields 35 to 36, in order.
    pub open spec fn bytes_35_37(&self) -> Seq<u8> {
        self.offset_to_casting_feature_blocks.enc() + self.count_of_casting_feature_blocks.enc()
    }
}

impl Codec for SpellHeader {
    open spec fn width() -> nat {
        114
    }

    open spec fn enc(&self) -> Seq<u8> {
        self.bytes_0_37()
    }

    open spec fn wf(&self) -> bool {
        self.header.wf()
    }

    open spec fn same(&self, other: &Self) -> bool {
        &&& self.header.same(&other.header)
        &&& self.unidentified_spell_name == other.unidentified_spell_name
        &&& self.identified_spell_name == other.identified_spell_name
        &&& self.completion_sound.same(&other.completion_sound)
        &&& self.flags == other.flags
        &&& self.spell_type == other.spell_type
        &&& self.exclusion_flags == other.exclusion_flags
        &&& self.casting_graphics == other.casting_graphics
        &&& self.min_level == other.min_level
        &&& self.primary_spell_school == other.primary_spell_school
        &&& self.min_strength == other.min_strength
        &&& self.secondary_spell_school == other.secondary_spell_school
        &&& self.min_strength_bonus == other.min_strength_bonus
        &&& self.kit_usability_1 == other.kit_usability_1
        &&& self.min_intelligence == other.min_intelligence
        &&& self.kit_usability_2 == other.kit_usability_2
        &&& self.min_dexterity == other.min_dexterity
        &&& self.kit_usability_3 == other.kit_usability_3
        &&& self.min_wisdom == other.min_wisdom
        &&& self.kit_usability_4 == other.kit_usability_4
        &&& self.min_constitution == other.min_constitution
        &&& self.min_charisma == other.min_charisma
        &&& self.spell_level == other.spell_level
        &&& self.max_stackable == other.max_stackable
        &&& self.spell_book_icon.same(&other.spell_book_icon)
        &&& self.lore == other.lore
        &&& self.ground_icon.same(&other.ground_icon)
        &&& self.base_weight == other.base_weight
        &&& self.spell_description_generic.same(&other.spell_description_generic)
        &&& self.spell_description_identified.same(&other.spell_description_identified)
        &&& self.description_icon.same(&other.description_icon)
        &&& self.enchantment == other.enchantment
        &&& self.offset_to_extended_headers == other.offset_to_extended_headers
        &&& self.count_of_extended_headers == other.count_of_extended_headers
        &&& self.offset_to_feature_block_table == other.offset_to_feature_block_table
        &&& self.offset_to_casting_feature_blocks == other.offset_to_casting_feature_blocks
        &&& self.count_of_casting_feature_blocks == other.count_of_casting_feature_blocks
    }

    fn byte_width() -> (n: usize) {
        114
    }

    fn check_wf(&self) -> (b: bool) {
        self.header.check_wf()
    }

    proof fn lemma_enc_len(&self) {
        self.header.lemma_enc_len();
        self.unidentified_spell_name.lemma_enc_len();
        self.identified_spell_name.lemma_enc_len();
        self.completion_sound.lemma_enc_len();
        self.flags.lemma_enc_len();
        self.spell_type.lemma_enc_len();
        self.exclusion_flags.lemma_enc_len();
        self.casting_graphics.lemma_enc_len();
        self.min_level.lemma_enc_len();
        self.primary_spell_school.lemma_enc_len();
        self.min_strength.lemma_enc_len();
        self.secondary_spell_school.lemma_enc_len();
        self.min_strength_bonus.lemma_enc_len();
        self.kit_usability_1.lemma_enc_len();
        self.min_intelligence.lemma_enc_len();
        self.kit_usability_2.lemma_enc_len();
        self.min_dexterity.lemma_enc_len();
        self.kit_usability_3.lemma_enc_len();
        self.min_wisdom.lemma_enc_len();
        self.kit_usability_4.lemma_enc_len();
        self.min_constitution.lemma_enc_len();
        self.min_charisma.lemma_enc_len();
        self.spell_level.lemma_enc_len();
        self.max_stackable.lemma_enc_len();
        self.spell_book_icon.lemma_enc_len();
        self.lore.lemma_enc_len();
        self.ground_icon.lemma_enc_len();
        self.base_weight.lemma_enc_len();
        self.spell_description_generic.lemma_enc_len();
        self.spell_description_identified.lemma_enc_len();
        self.description_icon.lemma_enc_len();
        self.enchantment.lemma_enc_len();
        self.offset_to_extended_headers.lemma_enc_len();
        self.count_of_extended_headers.lemma_enc_len();
        self.offset_to_feature_block_table.lemma_enc_len();
        self.offset_to_casting_feature_blocks.lemma_enc_len();
        self.count_of_casting_feature_blocks.lemma_enc_len();
    }

    proof fn lemma_enc_injective(&self, other: &Self) {
        self.header.lemma_enc_len();
        self.unidentified_spell_name.lemma_enc_len();
        self.identified_spell_name.lemma_enc_len();
        self.completion_sound.lemma_enc_len();
        self.flags.lemma_enc_len();
        self.spell_type.lemma_enc_len();
        self.exclusion_flags.lemma_enc_len();
        self.casting_graphics.lemma_enc_len();
        self.min_level.lemma_enc_len();
        self.primary_spell_school.lemma_enc_len();
        self.min_strength.lemma_enc_len();
        self.secondary_spell_school.lemma_enc_len();
        self.min_strength_bonus.lemma_enc_len();
        self.kit_usability_1.lemma_enc_len();
        self.min_intelligence.lemma_enc_len();
        self.kit_usability_2.lemma_enc_len();
        self.min_dexterity.lemma_enc_len();
        self.kit_usability_3.lemma_enc_len();
        self.min_wisdom.lemma_enc_len();
        self.kit_usability_4.lemma_enc_len();
        self.min_constitution.lemma_enc_len();
        self.min_charisma.lemma_enc_len();
        self.spell_level.lemma_enc_len();
        self.max_stackable.lemma_enc_len();
        self.spell_book_icon.lemma_enc_len();
        self.lore.lemma_enc_len();
        self.ground_icon.lemma_enc_len();
        self.base_weight.lemma_enc_len();
        self.spell_description_generic.lemma_enc_len();
        self.spell_description_identified.lemma_enc_len();
        self.description_icon.lemma_enc_len();
        self.enchantment.lemma_enc_len();
        self.offset_to_extended_headers.lemma_enc_len();
        self.count_of_extended_headers.lemma_enc_len();
        self.offset_to_feature_block_table.lemma_enc_len();
        self.offset_to_casting_feature_blocks.lemma_enc_len();
        self.count_of_casting_feature_blocks.lemma_enc_len();
        other.header.lemma_enc_len();
        other.unidentified_spell_name.lemma_enc_len();
        other.identified_spell_name.lemma_enc_len();
        other.completion_sound.lemma_enc_len();
        other.flags.lemma_enc_len();
        other.spell_type.lemma_enc_len();
        other.exclusion_flags.lemma_enc_len();
        other.casting_graphics.lemma_enc_len();
        other.min_level.lemma_enc_len();
        other.primary_spell_school.lemma_enc_len();
        other.min_strength.lemma_enc_len();
        other.secondary_spell_school.lemma_enc_len();
        other.min_strength_bonus.lemma_enc_len();
        other.kit_usability_1.lemma_enc_len();
        other.min_intelligence.lemma_enc_len();
        other.kit_usability_2.lemma_enc_len();
        other.min_dexterity.lemma_enc_len();
        other.kit_usability_3.lemma_enc_len();
        other.min_wisdom.lemma_enc_len();
        other.kit_usability_4.lemma_enc_len();
        other.min_constitution.lemma_enc_len();
        other.min_charisma.lemma_enc_len();
        other.spell_level.lemma_enc_len();
        other.max_stackable.lemma_enc_len();
        other.spell_book_icon.lemma_enc_len();
        other.lore.lemma_enc_len();
        other.ground_icon.lemma_enc_len();
        other.base_weight.lemma_enc_len();
        other.spell_description_generic.lemma_enc_len();
        other.spell_description_identified.lemma_enc_len();
        other.description_icon.lemma_enc_len();
        other.enchantment.lemma_enc_len();
        other.offset_to_extended_headers.lemma_enc_len();
        other.count_of_extended_headers.lemma_enc_len();
        other.offset_to_feature_block_table.lemma_enc_len();
        other.offset_to_casting_feature_blocks.lemma_enc_len();
        other.count_of_casting_feature_blocks.lemma_enc_len();
        lemma_concat_peel(self.bytes_0_18(), self.bytes_18_37(), other.bytes_0_18(), other.bytes_18_37());
        lemma_concat_peel(self.bytes_0_9(), self.bytes_9_18(), other.bytes_0_9(), other.bytes_9_18());
        lemma_concat_peel(self.bytes_0_4(), self.bytes_4_9(), other.bytes_0_4(), other.bytes_4_9());
        lemma_concat_peel(self.bytes_0_2(), self.bytes_2_4(), other.bytes_0_2(), other.bytes_2_4());
        lemma_concat_peel(self.header.enc(), self.unidentified_spell_name.enc(), other.header.enc(), other.unidentified_spell_name.enc());
        lemma_concat_peel(self.identified_spell_name.enc(), self.completion_sound.enc(), other.identified_spell_name.enc(), other.completion_sound.enc());
        lemma_concat_peel(self.bytes_4_6(), self.bytes_6_9(), other.bytes_4_6(), other.bytes_6_9());
        lemma_concat_peel(self.flags.enc(), self.spell_type.enc(), other.flags.enc(), other.spell_type.enc());
        lemma_concat_peel(self.exclusion_flags.enc(), self.bytes_7_9(), other.exclusion_flags.enc(), other.bytes_7_9());
        lemma_concat_peel(self.casting_graphics.enc(), self.min_level.enc(), other.casting_graphics.enc(), other.min_level.enc());
        lemma_concat_peel(self.bytes_9_13(), self.bytes_13_18(), other.bytes_9_13(), other.bytes_13_18());
        lemma_concat_peel(self.bytes_9_11(), self.bytes_11_13(), other.bytes_9_11(), other.bytes_11_13());
        lemma_concat_peel(self.primary_spell_school.enc(), self.min_strength.enc(), other.primary_spell_school.enc(), other.min_strength.enc());
        lemma_concat_peel(self.secondary_spell_school.enc(), self.min_strength_bonus.enc(), other.secondary_spell_school.enc(), other.min_strength_bonus.enc());
        lemma_concat_peel(self.bytes_13_15(), self.bytes_15_18(), other.bytes_13_15(), other.bytes_15_18());
        lemma_concat_peel(self.kit_usability_1.enc(), self.min_intelligence.enc(), other.kit_usability_1.enc(), other.min_intelligence.enc());
        lemma_concat_peel(self.kit_usability_2.enc(), self.bytes_16_18(), other.kit_usability_2.enc(), other.bytes_16_18());
        lemma_concat_peel(self.min_dexterity.enc(), self.kit_usability_3.enc(), other.min_dexterity.enc(), other.kit_usability_3.enc());
        lemma_concat_peel(self.bytes_18_27(), self.bytes_27_37(), other.bytes_18_27(), other.bytes_27_37());
        lemma_concat_peel(self.bytes_18_22(), self.bytes_22_27(), other.bytes_18_22(), other.bytes_22_27());
        lemma_concat_peel(self.bytes_18_20(), self.bytes_20_22(), other.bytes_18_20(), other.bytes_20_22());
        lemma_concat_peel(self.min_wisdom.enc(), self.kit_usability_4.enc(), other.min_wisdom.enc(), other.kit_usability_4.enc());
        lemma_concat_peel(self.min_constitution.enc(), self.min_charisma.enc(), other.min_constitution.enc(), other.min_charisma.enc());
        lemma_concat_peel(self.bytes_22_24(), self.bytes_24_27(), other.bytes_22_24(), other.bytes_24_27());
        lemma_concat_peel(self.spell_level.enc(), self.max_stackable.enc(), other.spell_level.enc(), other.max_stackable.enc());
        lemma_concat_peel(self.spell_book_icon.enc(), self.bytes_25_27(), other.spell_book_icon.enc(), other.bytes_25_27());
        lemma_concat_peel(self.lore.enc(), self.ground_icon.enc(), other.lore.enc(), other.ground_icon.enc());
        lemma_concat_peel(self.bytes_27_32(), self.bytes_32_37(), other.bytes_27_32(), other.bytes_32_37());
        lemma_concat_peel(self.bytes_27_29(), self.bytes_29_32(), other.bytes_27_29(), other.bytes_29_32());
        lemma_concat_peel(self.base_weight.enc(), self.spell_description_generic.enc(), other.base_weight.enc(), other.spell_description_generic.enc());
        lemma_concat_peel(self.spell_description_identified.enc(), self.bytes_30_32(), other.spell_description_identified.enc(), other.bytes_30_32());
        lemma_concat_peel(self.description_icon.enc(), self.enchantment.enc(), other.description_icon.enc(), other.enchantment.enc());
        lemma_concat_peel(self.bytes_32_34(), self.bytes_34_37(), other.bytes_32_34(), other.bytes_34_37());
        lemma_concat_peel(self.offset_to_extended_headers.enc(), self.count_of_extended_headers.enc(), other.offset_to_extended_headers.enc(), other.count_of_extended_headers.enc());
        lemma_concat_peel(self.offset_to_feature_block_table.enc(), self.bytes_35_37(), other.offset_to_feature_block_table.enc(), other.bytes_35_37());
        lemma_concat_peel(self.offset_to_casting_feature_blocks.enc(), self.count_of_casting_feature_blocks.enc(), other.offset_to_casting_feature_blocks.enc(), other.count_of_casting_feature_blocks.enc());
        self.header.lemma_enc_injective(&other.header);
        self.unidentified_spell_name.lemma_enc_injective(&other.unidentified_spell_name);
        self.identified_spell_name.lemma_enc_injective(&other.identified_spell_name);
        self.completion_sound.lemma_enc_injective(&other.completion_sound);
        self.flags.lemma_enc_injective(&other.flags);
        self.spell_type.lemma_enc_injective(&other.spell_type);
        self.exclusion_flags.lemma_enc_injective(&other.exclusion_flags);
        self.casting_graphics.lemma_enc_injective(&other.casting_graphics);
        self.min_level.lemma_enc_injective(&other.min_level);
        self.primary_spell_school.lemma_enc_injective(&other.primary_spell_school);
        self.min_strength.lemma_enc_injective(&other.min_strength);
        self.secondary_spell_school.lemma_enc_injective(&other.secondary_spell_school);
        self.min_strength_bonus.lemma_enc_injective(&other.min_strength_bonus);
        self.kit_usability_1.lemma_enc_injective(&other.kit_usability_1);
        self.min_intelligence.lemma_enc_injective(&other.min_intelligence);
        self.kit_usability_2.lemma_enc_injective(&other.kit_usability_2);
        self.min_dexterity.lemma_enc_injective(&other.min_dexterity);
        self.kit_usability_3.lemma_enc_injective(&other.kit_usability_3);
        self.min_wisdom.lemma_enc_injective(&other.min_wisdom);
        self.kit_usability_4.lemma_enc_injective(&other.kit_usability_4);
        self.min_constitution.lemma_enc_injective(&other.min_constitution);
        self.min_charisma.lemma_enc_injective(&other.min_charisma);
        self.spell_level.lemma_enc_injective(&other.spell_level);
        self.max_stackable.lemma_enc_injective(&other.max_stackable);
        self.spell_book_icon.lemma_enc_injective(&other.spell_book_icon);
        self.lore.lemma_enc_injective(&other.lore);
        self.ground_icon.lemma_enc_injective(&other.ground_icon);
        self.base_weight.lemma_enc_injective(&other.base_weight);
        self.spell_description_generic.lemma_enc_injective(&other.spell_description_generic);
        self.spell_description_identified.lemma_enc_injective(&other.spell_description_identified);
        self.description_icon.lemma_enc_injective(&other.description_icon);
        self.enchantment.lemma_enc_injective(&other.enchantment);
        self.offset_to_extended_headers.lemma_enc_injective(&other.offset_to_extended_headers);
        self.count_of_extended_headers.lemma_enc_injective(&other.count_of_extended_headers);
        self.offset_to_feature_block_table.lemma_enc_injective(&other.offset_to_feature_block_table);
        self.offset_to_casting_feature_blocks.lemma_enc_injective(&other.offset_to_casting_feature_blocks);
        self.count_of_casting_feature_blocks.lemma_enc_injective(&other.count_of_casting_feature_blocks);
    }

    #[verifier::rlimit(100)]
    #[verifier::spinoff_prover]
    fn decode(buf: &[u8], pos: usize) -> (v: Self) {
        let len = buf.len();
        let fld0 = Header::decode(buf, pos + 0);
        let fld1 = u32::decode(buf, pos + 8);
        let fld2 = u32::decode(buf, pos + 12);
        let fld3 = Resref::decode(buf, pos + 16);
        let fld4 = u32::decode(buf, pos + 24);
        let fld5 = u16::decode(buf, pos + 28);
        let fld6 = u32::decode(buf, pos + 30);
        let fld7 = u16::decode(buf, pos + 34);
        let fld8 = u8::decode(buf, pos + 36);
        let fld9 = u8::decode(buf, pos + 37);
        let fld10 = u8::decode(buf, pos + 38);
        let fld11 = u8::decode(buf, pos + 39);
        let fld12 = u8::decode(buf, pos + 40);
        let fld13 = u8::decode(buf, pos + 41);
        let fld14 = u8::decode(buf, pos + 42);
        let fld15 = u8::decode(buf, pos + 43);
        let fld16 = u8::decode(buf, pos + 44);
        let fld17 = u8::decode(buf, pos + 45);
        let fld18 = u8::decode(buf, pos + 46);
        let fld19 = u8::decode(buf, pos + 47);
        let fld20 = u16::decode(buf, pos + 48);
        let fld21 = u16::decode(buf, pos + 50);
        let fld22 = u32::decode(buf, pos + 52);
        let fld23 = u16::decode(buf, pos + 56);
        let fld24 = Resref::decode(buf, pos + 58);
        let fld25 = u16::decode(buf, pos + 66);
        let fld26 = Resref::decode(buf, pos + 68);
        let fld27 = u32::decode(buf, pos + 76);
        let fld28 = Strref::decode(buf, pos + 80);
        let fld29 = Strref::decode(buf, pos + 84);
        let fld30 = Resref::decode(buf, pos + 88);
        let fld31 = u32::decode(buf, pos + 96);
        let fld32 = u32::decode(buf, pos + 100);
        let fld33 = u16::decode(buf, pos + 104);
        let fld34 = u32::decode(buf, pos + 106);
        let fld35 = u16::decode(buf, pos + 110);
        let fld36 = u16::decode(buf, pos + 112);
        let v = SpellHeader {
            header: fld0,
            unidentified_spell_name: fld1,
            identified_spell_name: fld2,
            completion_sound: fld3,
            flags: fld4,
            spell_type: fld5,
            exclusion_flags: fld6,
            casting_graphics: fld7,
            min_level: fld8,
            primary_spell_school: fld9,
            min_strength: fld10,
            secondary_spell_school: fld11,
            min_strength_bonus: fld12,
            kit_usability_1: fld13,
            min_intelligence: fld14,
            kit_usability_2: fld15,
            min_dexterity: fld16,
            kit_usability_3: fld17,
            min_wisdom: fld18,
            kit_usability_4: fld19,
            min_constitution: fld20,
            min_charisma: fld21,
            spell_level: fld22,
            max_stackable: fld23,
            spell_book_icon: fld24,
            lore: fld25,
            ground_icon: fld26,
            base_weight: fld27,
            spell_description_generic: fld28,
            spell_description_identified: fld29,
            description_icon: fld30,
            enchantment: fld31,
            offset_to_extended_headers: fld32,
            count_of_extended_headers: fld33,
            offset_to_feature_block_table: fld34,
            offset_to_casting_feature_blocks: fld35,
            count_of_casting_feature_blocks: fld36,
        };
        proof {
            lemma_subrange_concat(buf@, pos + 0, pos + 46, pos + 114);
            lemma_subrange_concat(buf@, pos + 0, pos + 37, pos + 46);
            lemma_subrange_concat(buf@, pos + 0, pos + 24, pos + 37);
            lemma_subrange_concat(buf@, pos + 0, pos + 12, pos + 24);
            lemma_subrange_concat(buf@, pos + 0, pos + 8, pos + 12);
            lemma_subrange_concat(buf@, pos + 12, pos + 16, pos + 24);
            lemma_subrange_concat(buf@, pos + 24, pos + 30, pos + 37);
            lemma_subrange_concat(buf@, pos + 24, pos + 28, pos + 30);
            lemma_subrange_concat(buf@, pos + 30, pos + 34, pos + 37);
            lemma_subrange_concat(buf@, pos + 34, pos + 36, pos + 37);
            lemma_subrange_concat(buf@, pos + 37, pos + 41, pos + 46);
            lemma_subrange_concat(buf@, pos + 37, pos + 39, pos + 41);
            lemma_subrange_concat(buf@, pos + 37, pos + 38, pos + 39);
            lemma_subrange_concat(buf@, pos + 39, pos + 40, pos + 41);
            lemma_subrange_concat(buf@, pos + 41, pos + 43, pos + 46);
            lemma_subrange_concat(buf@, pos + 41, pos + 42, pos + 43);
            lemma_subrange_concat(buf@, pos + 43, pos + 44, pos + 46);
            lemma_subrange_concat(buf@, pos + 44, pos + 45, pos + 46);
            lemma_subrange_concat(buf@, pos + 46, pos + 76, pos + 114);
            lemma_subrange_concat(buf@, pos + 46, pos + 52, pos + 76);
            lemma_subrange_concat(buf@, pos + 46, pos + 48, pos + 52);
            lemma_subrange_concat(buf@, pos + 46, pos + 47, pos + 48);
            lemma_subrange_concat(buf@, pos + 48, pos + 50, pos + 52);
            lemma_subrange_concat(buf@, pos + 52, pos + 58, pos + 76);
            lemma_subrange_concat(buf@, pos + 52, pos + 56, pos + 58);
            lemma_subrange_concat(buf@, pos + 58, pos + 66, pos + 76);
            lemma_subrange_concat(buf@, pos + 66, pos + 68, pos + 76);
            lemma_subrange_concat(buf@, pos + 76, pos + 100, pos + 114);
            lemma_subrange_concat(buf@, pos + 76, pos + 84, pos + 100);
            lemma_subrange_concat(buf@, pos + 76, pos + 80, pos + 84);
            lemma_subrange_concat(buf@, pos + 84, pos + 88, pos + 100);
            lemma_subrange_concat(buf@, pos + 88, pos + 96, pos + 100);
            lemma_subrange_concat(buf@, pos + 100, pos + 106, pos + 114);
            lemma_subrange_concat(buf@, pos + 100, pos + 104, pos + 106);
            lemma_subrange_concat(buf@, pos + 106, pos + 110, pos + 114);
            lemma_subrange_concat(buf@, pos + 110, pos + 112, pos + 114);
        }
        v
    }

    fn encode(&self, out: &mut Vec<u8>) {
        let mut b0 = encoded(&self.header);
        let mut b1 = encoded(&self.unidentified_spell_name);
        let mut b2 = encoded(&self.identified_spell_name);
        let mut b3 = encoded(&self.completion_sound);
        let mut b4 = encoded(&self.flags);
        let mut b5 = encoded(&self.spell_type);
        let mut b6 = encoded(&self.exclusion_flags);
        let mut b7 = encoded(&self.casting_graphics);
        let mut b8 = encoded(&self.min_level);
        let mut b9 = encoded(&self.primary_spell_school);
        let mut b10 = encoded(&self.min_strength);
        let mut b11 = encoded(&self.secondary_spell_school);
        let mut b12 = encoded(&self.min_strength_bonus);
        let mut b13 = encoded(&self.kit_usability_1);
        let mut b14 = encoded(&self.min_intelligence);
        let mut b15 = encoded(&self.kit_usability_2);
        let mut b16 = encoded(&self.min_dexterity);
        let mut b17 = encoded(&self.kit_usability_3);
        let mut b18 = encoded(&self.min_wisdom);
        let mut b19 = encoded(&self.kit_usability_4);
        let mut b20 = encoded(&self.min_constitution);
        let mut b21 = encoded(&self.min_charisma);
        let mut b22 = encoded(&self.spell_level);
        let mut b23 = encoded(&self.max_stackable);
        let mut b24 = encoded(&self.spell_book_icon);
        let mut b25 = encoded(&self.lore);
        let mut b26 = encoded(&self.ground_icon);
        let mut b27 = encoded(&self.base_weight);
        let mut b28 = encoded(&self.spell_description_generic);
        let mut b29 = encoded(&self.spell_description_identified);
        let mut b30 = encoded(&self.description_icon);
        let mut b31 = encoded(&self.enchantment);
        let mut b32 = encoded(&self.offset_to_extended_headers);
        let mut b33 = encoded(&self.count_of_extended_headers);
        let mut b34 = encoded(&self.offset_to_feature_block_table);
        let mut b35 = encoded(&self.offset_to_casting_feature_blocks);
        let mut b36 = encoded(&self.count_of_casting_feature_blocks);
        b35.append(&mut b36);
        b34.append(&mut b35);
        b32.append(&mut b33);
        b32.append(&mut b34);
        b30.append(&mut b31);
        b29.append(&mut b30);
        b27.append(&mut b28);
        b27.append(&mut b29);
        b27.append(&mut b32);
        b25.append(&mut b26);
        b24.append(&mut b25);
        b22.append(&mut b23);
        b22.append(&mut b24);
        b20.append(&mut b21);
        b18.append(&mut b19);
        b18.append(&mut b20);
        b18.append(&mut b22);
        b18.append(&mut b27);
        b16.append(&mut b17);
        b15.append(&mut b16);
        b13.append(&mut b14);
        b13.append(&mut b15);
        b11.append(&mut b12);
        b9.append(&mut b10);
        b9.append(&mut b11);
        b9.append(&mut b13);
        b7.append(&mut b8);
        b6.append(&mut b7);
        b4.append(&mut b5);
        b4.append(&mut b6);
        b2.append(&mut b3);
        b0.append(&mut b1);
        b0.append(&mut b2);
        b0.append(&mut b4);
        b0.append(&mut b9);
        b0.append(&mut b18);
        out.append(&mut b0);
    }
}

/// https://gibberlings3.github.io/iesdp/file_formats/ie_formats/spl_v1.htm#splv1_Extended_Header
#[derive(Debug, Clone, PartialEq)]
pub struct SpellExtendedHeader {
    pub spell_form: u8,
    pub friendly: u8,
    pub location: u16,
    pub memorised_icon: Resref,
    pub target_type: u8,
    pub target_count: u8,
    pub range: u16,
    pub level_required: u16,
    pub casting_time: u16,
    pub times_per_day: u16,
    pub dice_sides: u16,
    pub dice_thrown: u16,
    pub enchanted: u16,
    pub damage_type: u16,
    pub count_of_feature_blocks: u16,
    pub offset_to_feature_blocks: u16,
    pub charges: u16,
    pub charge_depletion_behaviour: u16,
    pub projectile: u16,
}

impl SpellExtendedHeader {
    /// Encoding of the fields 0 to 18, in order.
    pub open spec fn bytes_0_19(&self) -> Seq<u8> {
        self.bytes_0_9() + self.bytes_9_19()
    }

    /// Encoding of the fields 0 to 8, in order.
    pub open spec fn bytes_0_9(&self) -> Seq<u8> {
        self.bytes_0_4() + self.bytes_4_9()
    }

    /// Encoding of the fields 0 to 3, in order.
    pub open spec fn bytes_0_4(&self) -> Seq<u8> {
        self.bytes_0_2() + self.bytes_2_4()
    }

    /// Encoding of the fields 0 to 1, in order.
    pub open spec fn bytes_0_2(&self) -> Seq<u8> {
        self.spell_form.enc() + self.friendly.enc()
    }

    /// Encoding of the fields 2 to 3, in order.
    pub open spec fn bytes_2_4(&self) -> Seq<u8> {
        self.location.enc() + self.memorised_icon.enc()
    }

    /// Encoding of the fields 4 to 8, in order.
    pub open spec fn bytes_4_9(&self) -> Seq<u8> {
        self.bytes_4_6() + self.bytes_6_9()
    }

    /// Encoding of the fields 4 to 5, in order.
    pub open spec fn bytes_4_6(&self) -> Seq<u8> {
        self.target_type.enc() + self.target_count.enc()
    }

    /// Encoding of the fields 6 to 8, in order.
    pub open spec fn bytes_6_9(&self) -> Seq<u8> {
        self.range.enc() + self.bytes_7_9()
    }

    /// Encoding of the fields 7 to 8, in order.
    pub open spec fn bytes_7_9(&self) -> Seq<u8> {
        self.level_required.enc() + self.casting_time.enc()
    }

    /// Encoding of the fields 9 to 18, in order.
    pub open spec fn bytes_9_19(&self) -> Seq<u8> {
        self.bytes_9_14() + self.bytes_14_19()
    }

    /// Encoding of the fields 9 to 13, in order.
    pub open spec fn bytes_9_14(&self) -> Seq<u8> {
        self.bytes_9_11() + self.bytes_11_14()
    }

    /// Encoding of the fields 9 to 10, in order.
    pub open spec fn bytes_9_11(&self) -> Seq<u8> {
        self.times_per_day.enc() + self.dice_sides.enc()
    }

    /// Encoding of the fields 11 to 13, in order.
    pub open spec fn bytes_11_14(&self) -> Seq<u8> {
        self.dice_thrown.enc() + self.bytes_12_14()
    }

    /// Encoding of the fields 12 to 13, in order.
    pub open spec fn bytes_12_14(&self) -> Seq<u8> {
        self.enchanted.enc() + self.damage_type.enc()
    }

    /// Encoding of the fields 14 to 18, in order.
    pub open spec fn bytes_14_19(&self) -> Seq<u8> {
        self.bytes_14_16() + self.bytes_16_19()
    }

    /// Encoding of the fields 14 to 15, in order.
    pub open spec fn bytes_14_16(&self) -> Seq<u8> {
        self.count_of_feature_blocks.enc() + self.offset_to_feature_blocks.enc()
    }

    /// Encoding of the fields 16 to 18, in order.
    pub open spec fn bytes_16_19(&self) -> Seq<u8> {
        self.charges.enc() + self.bytes_17_19()
    }

    /// Encoding of the fields 17 to 18, in order.
    pub open spec fn bytes_17_19(&self) -> Seq<u8> {
        self.charge_depletion_behaviour.enc() + self.projectile.enc()
    }
}

impl Codec for SpellExtendedHeader {
    open spec fn width() -> nat {
        40
    }

    open spec fn enc(&self) -> Seq<u8> {
        self.bytes_0_19()
    }

    open spec fn wf(&self) -> bool {
        true
    }

    open spec fn same(&self, other: &Self) -> bool {
        &&& self.spell_form == other.spell_form
        &&& self.friendly == other.friendly
        &&& self.location == other.location
        &&& self.memorised_icon.same(&other.memorised_icon)
        &&& self.target_type == other.target_type
        &&& self.target_count == other.target_count
        &&& self.range == other.range
        &&& self.level_required == other.level_required
        &&& self.casting_time == other.casting_time
        &&& self.times_per_day == other.times_per_day
        &&& self.dice_sides == other.dice_sides
        &&& self.dice_thrown == other.dice_thrown
        &&& self.enchanted == other.enchanted
        &&& self.damage_type == other.damage_type
        &&& self.count_of_feature_blocks == other.count_of_feature_blocks
        &&& self.offset_to_feature_blocks == other.offset_to_feature_blocks
        &&& self.charges == other.charges
        &&& self.charge_depletion_behaviour == other.charge_depletion_behaviour
        &&& self.projectile == other.projectile
    }

    fn byte_width() -> (n: usize) {
        40
    }

    fn check_wf(&self) -> (b: bool) {
        true
    }

    proof fn lemma_enc_len(&self) {
        self.spell_form.lemma_enc_len();
        self.friendly.lemma_enc_len();
        self.location.lemma_enc_len();
        self.memorised_icon.lemma_enc_len();
        self.target_type.lemma_enc_len();
        self.target_count.lemma_enc_len();
        self.range.lemma_enc_len();
        self.level_required.lemma_enc_len();
        self.casting_time.lemma_enc_len();
        self.times_per_day.lemma_enc_len();
        self.dice_sides.lemma_enc_len();
        self.dice_thrown.lemma_enc_len();
        self.enchanted.lemma_enc_len();
        self.damage_type.lemma_enc_len();
        self.count_of_feature_blocks.lemma_enc_len();
        self.offset_to_feature_blocks.lemma_enc_len();
        self.charges.lemma_enc_len();
        self.charge_depletion_behaviour.lemma_enc_len();
        self.projectile.lemma_enc_len();
    }

    proof fn lemma_enc_injective(&self, other: &Self) {
        self.spell_form.lemma_enc_len();
        self.friendly.lemma_enc_len();
        self.location.lemma_enc_len();
        self.memorised_icon.lemma_enc_len();
        self.target_type.lemma_enc_len();
        self.target_count.lemma_enc_len();
        self.range.lemma_enc_len();
        self.level_required.lemma_enc_len();
        self.casting_time.lemma_enc_len();
        self.times_per_day.lemma_enc_len();
        self.dice_sides.lemma_enc_len();
        self.dice_thrown.lemma_enc_len();
        self.enchanted.lemma_enc_len();
        self.damage_type.lemma_enc_len();
        self.count_of_feature_blocks.lemma_enc_len();
        self.offset_to_feature_blocks.lemma_enc_len();
        self.charges.lemma_enc_len();
        self.charge_depletion_behaviour.lemma_enc_len();
        self.projectile.lemma_enc_len();
        other.spell_form.lemma_enc_len();
        other.friendly.lemma_enc_len();
        other.location.lemma_enc_len();
        other.memorised_icon.lemma_enc_len();
        other.target_type.lemma_enc_len();
        other.target_count.lemma_enc_len();
        other.range.lemma_enc_len();
        other.level_required.lemma_enc_len();
        other.casting_time.lemma_enc_len();
        other.times_per_day.lemma_enc_len();
        other.dice_sides.lemma_enc_len();
        other.dice_thrown.lemma_enc_len();
        other.enchanted.lemma_enc_len();
        other.damage_type.lemma_enc_len();
        other.count_of_feature_blocks.lemma_enc_len();
        other.offset_to_feature_blocks.lemma_enc_len();
        other.charges.lemma_enc_len();
        other.charge_depletion_behaviour.lemma_enc_len();
        other.projectile.lemma_enc_len();
        lemma_concat_peel(self.bytes_0_9(), self.bytes_9_19(), other.bytes_0_9(), other.bytes_9_19());
        lemma_concat_peel(self.bytes_0_4(), self.bytes_4_9(), other.bytes_0_4(), other.bytes_4_9());
        lemma_concat_peel(self.bytes_0_2(), self.bytes_2_4(), other.bytes_0_2(), other.bytes_2_4());
        lemma_concat_peel(self.spell_form.enc(), self.friendly.enc(), other.spell_form.enc(), other.friendly.enc());
        lemma_concat_peel(self.location.enc(), self.memorised_icon.enc(), other.location.enc(), other.memorised_icon.enc());
        lemma_concat_peel(self.bytes_4_6(), self.bytes_6_9(), other.bytes_4_6(), other.bytes_6_9());
        lemma_concat_peel(self.target_type.enc(), self.target_count.enc(), other.target_type.enc(), other.target_count.enc());
        lemma_concat_peel(self.range.enc(), self.bytes_7_9(), other.range.enc(), other.bytes_7_9());
        lemma_concat_peel(self.level_required.enc(), self.casting_time.enc(), other.level_required.enc(), other.casting_time.enc());
        lemma_concat_peel(self.bytes_9_14(), self.bytes_14_19(), other.bytes_9_14(), other.bytes_14_19());
        lemma_concat_peel(self.bytes_9_11(), self.bytes_11_14(), other.bytes_9_11(), other.bytes_11_14());
        lemma_concat_peel(self.times_per_day.enc(), self.dice_sides.enc(), other.times_per_day.enc(), other.dice_sides.enc());
        lemma_concat_peel(self.dice_thrown.enc(), self.bytes_12_14(), other.dice_thrown.enc(), other.bytes_12_14());
        lemma_concat_peel(self.enchanted.enc(), self.damage_type.enc(), other.enchanted.enc(), other.damage_type.enc());
        lemma_concat_peel(self.bytes_14_16(), self.bytes_16_19(), other.bytes_14_16(), other.bytes_16_19());
        lemma_concat_peel(self.count_of_feature_blocks.enc(), self.offset_to_feature_blocks.enc(), other.count_of_feature_blocks.enc(), other.offset_to_feature_blocks.enc());
        lemma_concat_peel(self.charges.enc(), self.bytes_17_19(), other.charges.enc(), other.bytes_17_19());
        lemma_concat_peel(self.charge_depletion_behaviour.enc(), self.projectile.enc(), other.charge_depletion_behaviour.enc(), other.projectile.enc());
        self.spell_form.lemma_enc_injective(&other.spell_form);
        self.friendly.lemma_enc_injective(&other.friendly);
        self.location.lemma_enc_injective(&other.location);
        self.memorised_icon.lemma_enc_injective(&other.memorised_icon);
        self.target_type.lemma_enc_injective(&other.target_type);
        self.target_count.lemma_enc_injective(&other.target_count);
        self.range.lemma_enc_injective(&other.range);
        self.level_required.lemma_enc_injective(&other.level_required);
        self.casting_time.lemma_enc_injective(&other.casting_time);
        self.times_per_day.lemma_enc_injective(&other.times_per_day);
        self.dice_sides.lemma_enc_injective(&other.dice_sides);
        self.dice_thrown.lemma_enc_injective(&other.dice_thrown);
        self.enchanted.lemma_enc_injective(&other.enchanted);
        self.damage_type.lemma_enc_injective(&other.damage_type);
        self.count_of_feature_blocks.lemma_enc_injective(&other.count_of_feature_blocks);
        self.offset_to_feature_blocks.lemma_enc_injective(&other.offset_to_feature_blocks);
        self.charges.lemma_enc_injective(&other.charges);
        self.charge_depletion_behaviour.lemma_enc_injective(&other.charge_depletion_behaviour);
        self.projectile.lemma_enc_injective(&other.projectile);
    }

    fn decode(buf: &[u8], pos: usize) -> (v: Self) {
        let len = buf.len();
        let fld0 = u8::decode(buf, pos + 0);
        let fld1 = u8::decode(buf, pos + 1);
        let fld2 = u16::decode(buf, pos + 2);
        let fld3 = Resref::decode(buf, pos + 4);
        let fld4 = u8::decode(buf, pos + 12);
        let fld5 = u8::decode(buf, pos + 13);
        let fld6 = u16::decode(buf, pos + 14);
        let fld7 = u16::decode(buf, pos + 16);
        let fld8 = u16::decode(buf, pos + 18);
        let fld9 = u16::decode(buf, pos + 20);
        let fld10 = u16::decode(buf, pos + 22);
        let fld11 = u16::decode(buf, pos + 24);
        let fld12 = u16::decode(buf, pos + 26);
        let fld13 = u16::decode(buf, pos + 28);
        let fld14 = u16::decode(buf, pos + 30);
        let fld15 = u16::decode(buf, pos + 32);
        let fld16 = u16::decode(buf, pos + 34);
        let fld17 = u16::decode(buf, pos + 36);
        let fld18 = u16::decode(buf, pos + 38);
        let v = SpellExtendedHeader {
            spell_form: fld0,
            friendly: fld1,
            location: fld2,
            memorised_icon: fld3,
            target_type: fld4,
            target_count: fld5,
            range: fld6,
            level_required: fld7,
            casting_time: fld8,
            times_per_day: fld9,
            dice_sides: fld10,
            dice_thrown: fld11,
            enchanted: fld12,
            damage_type: fld13,
            count_of_feature_blocks: fld14,
            offset_to_feature_blocks: fld15,
            charges: fld16,
            charge_depletion_behaviour: fld17,
            projectile: fld18,
        };
        proof {
            lemma_subrange_concat(buf@, pos + 0, pos + 20, pos + 40);
            lemma_subrange_concat(buf@, pos + 0, pos + 12, pos + 20);
            lemma_subrange_concat(buf@, pos + 0, pos + 2, pos + 12);
            lemma_subrange_concat(buf@, pos + 0, pos + 1, pos + 2);
            lemma_subrange_concat(buf@, pos + 2, pos + 4, pos + 12);
            lemma_subrange_concat(buf@, pos + 12, pos + 14, pos + 20);
            lemma_subrange_concat(buf@, pos + 12, pos + 13, pos + 14);
            lemma_subrange_concat(buf@, pos + 14, pos + 16, pos + 20);
            lemma_subrange_concat(buf@, pos + 16, pos + 18, pos + 20);
            lemma_subrange_concat(buf@, pos + 20, pos + 30, pos + 40);
            lemma_subrange_concat(buf@, pos + 20, pos + 24, pos + 30);
            lemma_subrange_concat(buf@, pos + 20, pos + 22, pos + 24);
            lemma_subrange_concat(buf@, pos + 24, pos + 26, pos + 30);
            lemma_subrange_concat(buf@, pos + 26, pos + 28, pos + 30);
            lemma_subrange_concat(buf@, pos + 30, pos + 34, pos + 40);
            lemma_subrange_concat(buf@, pos + 30, pos + 32, pos + 34);
            lemma_subrange_concat(buf@, pos + 34, pos + 36, pos + 40);
            lemma_subrange_concat(buf@, pos + 36, pos + 38, pos + 40);
        }
        v
    }

    fn encode(&self, out: &mut Vec<u8>) {
        let mut b0 = encoded(&self.spell_form);
        let mut b1 = encoded(&self.friendly);
        let mut b2 = encoded(&self.location);
        let mut b3 = encoded(&self.memorised_icon);
        let mut b4 = encoded(&self.target_type);
        let mut b5 = encoded(&self.target_count);
        let mut b6 = encoded(&self.range);
        let mut b7 = encoded(&self.level_required);
        let mut b8 = encoded(&self.casting_time);
        let mut b9 = encoded(&self.times_per_day);
        let mut b10 = encoded(&self.dice_sides);
        let mut b11 = encoded(&self.dice_thrown);
        let mut b12 = encoded(&self.enchanted);
        let mut b13 = encoded(&self.damage_type);
        let mut b14 = encoded(&self.count_of_feature_blocks);
        let mut b15 = encoded(&self.offset_to_feature_blocks);
        let mut b16 = encoded(&self.charges);
        let mut b17 = encoded(&self.charge_depletion_behaviour);
        let mut b18 = encoded(&self.projectile);
        b17.append(&mut b18);
        b16.append(&mut b17);
        b14.append(&mut b15);
        b14.append(&mut b16);
        b12.append(&mut b13);
        b11.append(&mut b12);
        b9.append(&mut b10);
        b9.append(&mut b11);
        b9.append(&mut b14);
        b7.append(&mut b8);
        b6.append(&mut b7);
        b4.append(&mut b5);
        b4.append(&mut b6);
        b2.append(&mut b3);
        b0.append(&mut b1);
        b0.append(&mut b2);
        b0.append(&mut b4);
        b0.append(&mut b9);
        out.append(&mut b0);
    }
}

/// A spell: its header, the extended headers that follow it, every whole
/// feature block after those up to the end of the file, and the bytes it
/// was read from.
/// <https://gibberlings3.github.io/iesdp/file_formats/ie_formats/spl_v1.htm>
#[derive(Debug)]
pub struct Spell {
    /// The whole file; it is what a spell is written back as.
    pub original_bytes: Vec<u8>,
    pub header: SpellHeader,
    pub extended_headers: Vec<SpellExtendedHeader>,
    pub equipping_feature_blocks: Vec<FeatureBlock>,
}

impl Spell {
    /// Where the feature blocks start: right after the extended headers.
    pub open spec fn feature_blocks_at(h: SpellHeader) -> int {
        SpellHeader::width() + h.count_of_extended_headers * SpellExtendedHeader::width()
    }
}

impl Model for Spell {
    open spec fn spec_parses(buffer: Seq<u8>) -> bool {
        let h = decoded_at::<SpellHeader>(buffer, 0);
        &&& SpellHeader::width() <= buffer.len()
        &&& section_ok(buffer.len(), SpellHeader::width() as int, h.count_of_extended_headers as int, SpellExtendedHeader::width())
    }

    open spec fn parsed_from(&self, buffer: Seq<u8>) -> bool {
        let at = Spell::feature_blocks_at(self.header);
        &&& self.original_bytes@ == buffer
        &&& record_parsed(self.header, buffer, 0)
        &&& section_parsed(self.extended_headers@, buffer, SpellHeader::width() as int, self.header.count_of_extended_headers as int)
        &&& section_parsed(self.equipping_feature_blocks@, buffer, at, until_eof_count(buffer.len(), at, FeatureBlock::width()))
    }

    open spec fn spec_writable(&self) -> bool {
        true
    }

    fn writable(&self) -> (b: bool) {
        true
    }

    open spec fn spec_bytes(&self) -> Seq<u8> {
        self.original_bytes@
    }

    fn parse(buffer: &[u8]) -> (r: Option<Self>) {
        let header = match read_at::<SpellHeader>(buffer, 0) {
            Some(h) => h,
            None => return None,
        };
        proof {
            lemma_decoded_at(buffer@, 0, header);
        }
        let hw = SpellHeader::byte_width() as u64;
        let extended_headers = match read_section::<SpellExtendedHeader>(buffer, hw, header.count_of_extended_headers as u64) {
            Some(v) => v,
            None => return None,
        };
        let at = hw + header.count_of_extended_headers as u64 * SpellExtendedHeader::byte_width() as u64;
        let equipping_feature_blocks = read_until_eof::<FeatureBlock>(buffer, at);
        let original_bytes = vstd::slice::slice_to_vec(buffer);
        Some(Spell { original_bytes, header, extended_headers, equipping_feature_blocks })
    }

    fn to_bytes(&self) -> (b: Vec<u8>) {
        self.original_bytes.clone()
    }
}

} // verus!
