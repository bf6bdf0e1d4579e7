//! Creatures (CRE V1.0).
use vstd::prelude::*;

use crate::common::binary::{Codec, check_all_wf, enc_seq, all_wf, seq_same, lemma_subrange_concat, lemma_concat_peel, lemma_enc_seq_len, lemma_enc_seq_injective, decode_vec, encoded, encoded_slice, decoded_at, lemma_decoded_at, append_bytes, record_parsed, section_parsed, read_at, read_section, section_ok};
use crate::common::char_array::CharArray;
use crate::common::header::Header;
use crate::common::strref::Strref;
use crate::common::Resref;
use crate::effect_v1::EffectV1;
use crate::effect_v2::EffectV2Body;
use crate::item_table::{ItemReferenceTable, ItemSlots};
use crate::model::Model;
use crate::spell_table::{KnownSpells, SpellMemorizationInfo, SpellMemorizationTable};

verus! {

/// https://gibberlings3.github.io/iesdp/file_formats/ie_formats/cre_v1.htm#CREV1_0_Header
#[derive(Debug, Clone, PartialEq)]
pub struct BGEECreatureHeader {
    pub header: Header,
    pub long_creature_name: u32,
    pub short_creature_name: u32,
    /// see CRE_FLAG_* above for possible flags
    pub flags: u32,
    pub exp_for_killing: u32,
    pub exp: u32,
    pub gold: u32,
    pub state_flags: u32,
    pub current_hp: u16,
    pub base_hp: u16,
    pub animation_id: u32,
    pub metal_color: u8,
    pub minor_color: u8,
    pub major_color: u8,
    pub skin_color: u8,
    pub leather_color: u8,
    pub armor_color: u8,
    pub hair_color: u8,
    /// 0 = v1, 1 = v2
    pub effstructure: u8,
    pub small_portrait: Resref,
    pub large_portrait: Resref,
    pub reputation: u8,
    pub hide_in_shadows: u8,
    pub nac_1: u16,
    pub nac_2: u16,
    pub nac_mod_crushing: u16,
    pub nac_mod_missile: u16,
    pub nac_mod_piercing: u16,
    pub nac_mod_slashing: u16,
    pub thac0: u8,
    pub attacks: u8,
    pub save_death: u8,
    pub save_wands: u8,
    pub save_poly: u8,
    pub save_breath: u8,
    pub save_spells: u8,
    pub resist_fire: u8,
    pub resist_cold: u8,
    pub resist_electricity: u8,
    pub resist_acid: u8,
    pub resist_magic: u8,
    pub resist_magicfire: u8,
    pub resist_magiccold: u8,
    pub resist_slashing: u8,
    pub resist_crushing: u8,
    pub resist_piercing: u8,
    pub resist_missile: u8,
    pub detect_illusions: u8,
    pub set_traps: u8,
    pub lore: u8,
    pub open_locks: u8,
    pub move_silently: u8,
    pub find_traps: u8,
    pub pick_pockets: u8,
    pub fatigue: u8,
    pub intoxication: u8,
    pub luck: u8,
    pub proficiency_large_swords: u8,
    pub proficiency_small_swords: u8,
    pub proficiency_bows: u8,
    pub proficiency_spears: u8,
    pub proficiency_blunt: u8,
    pub proficiency_spiked: u8,
    pub proficiency_axes: u8,
    pub proficiency_missiles: u8,
    pub unused_proficiencies: Vec<u8>,
    pub nightmare_mode: u8,
    pub translucency: u8,
    pub reputation_loss_if_killed: u8,
    pub reputation_loss_if_joins_party: u8,
    pub reputation_loss_if_leaves_party: u8,
    pub turn_undead_level: u8,
    pub tracking_skill: u8,
    /// The following entry applies to BG1, BG2 and BGEE
    pub tracking: CharArray<32>,
    /// Strrefs pertaining to the character.
    /// Most are connected with the sound-set (see SOUNDOFF.IDS (BG1) and SNDSLOT.IDS for (BG2)).
    /// This is broken, it should be 100 u32s
    pub strrefs: Vec<Strref>,
    pub level_first_class: u8,
    pub level_second_class: u8,
    pub level_third_class: u8,
    /// from gender.ids via sex stat
    pub sex: u8,
    pub strength: u8,
    pub strength_bonus: u8,
    pub intelligence: u8,
    pub wisdom: u8,
    pub dexterity: u8,
    pub constitution: u8,
    pub charisma: u8,
    pub morale: u8,
    pub morale_break: u8,
    pub racial_enemy: u8,
    pub morale_recovery_time: u16,
    pub kit: u32,
    pub override_script: Resref,
    pub class_script: Resref,
    pub race_script: Resref,
    pub general_script: Resref,
    pub creature_script_default: Resref,
    pub enemy_ally: u8,
    pub general: u8,
    pub race: u8,
    pub class: u8,
    pub specific: u8,
    pub gender: u8,
    /// object.ids references
    pub object_references: Vec<u8>,
    pub alignment: u8,
    pub global_actor_enumeration: u16,
    pub local_actor_enumeration: u16,
    /// death variable: sprite_is_dead on death
    pub death_variable: CharArray<32>,
    pub offset_to_known_spells: u32,
    pub count_of_known_spells: u32,
    pub offset_to_spell_memorization_info: u32,
    pub count_of_spell_memorization_info: u32,
    pub offset_to_memorized_spell_table: u32,
    pub count_of_memorized_spell_table: u32,
    pub offset_to_item_slots: u32,
    pub offset_to_items: u32,
    pub count_of_items: u32,
    pub offset_to_effects: u32,
    pub count_of_effects: u32,
    pub dialog_ref: Resref,
}

impl BGEECreatureHeader {
    /// Encoding of the fields 0 to 118, in order.
    pub open spec fn bytes_0_119(&self) -> Seq<u8> {
        self.bytes_0_59() + self.bytes_59_119()
    }

    /// Encoding of the fields 0 to 58, in order.
    pub open spec fn bytes_0_59(&self) -> Seq<u8> {
        self.bytes_0_29() + self.bytes_29_59()
    }

    /// Encoding of the fields 0 to 28, in order.
    pub open spec fn bytes_0_29(&self) -> Seq<u8> {
        self.bytes_0_14() + self.bytes_14_29()
    }

    /// Encoding of the fields 0 to 13, in order.
    pub open spec fn bytes_0_14(&self) -> Seq<u8> {
        self.bytes_0_7() + self.bytes_7_14()
    }

    /// Encoding of the fields 0 to 6, in order.
    pub open spec fn bytes_0_7(&self) -> Seq<u8> {
        self.bytes_0_3() + self.bytes_3_7()
    }

    /// Encoding of the fields 0 to 2, in order.
    pub open spec fn bytes_0_3(&self) -> Seq<u8> {
        self.header.enc() + self.bytes_1_3()
    }

    /// Encoding of the fields 1 to 2, in order.
    pub open spec fn bytes_1_3(&self) -> Seq<u8> {
        self.long_creature_name.enc() + self.short_creature_name.enc()
    }

    /// Encoding of the fields 3 to 6, in order.
    pub open spec fn bytes_3_7(&self) -> Seq<u8> {
        self.bytes_3_5() + self.bytes_5_7()
    }

    /// Encoding of the fields 3 to 4, in order.
    pub open spec fn bytes_3_5(&self) -> Seq<u8> {
        self.flags.enc() + self.exp_for_killing.enc()
    }

    /// Encoding of the fields 5 to 6, in order.
    pub open spec fn bytes_5_7(&self) -> Seq<u8> {
        self.exp.enc() + self.gold.enc()
    }

    /// Encoding of the fields 7 to 13, in order.
    pub open spec fn bytes_7_14(&self) -> Seq<u8> {
        self.bytes_7_10() + self.bytes_10_14()
    }

    /// Encoding of the fields 7 to 9, in order.
    pub open spec fn bytes_7_10(&self) -> Seq<u8> {
        self.state_flags.enc() + self.bytes_8_10()
    }

    /// Encoding of the fields 8 to 9, in order.
    pub open spec fn bytes_8_10(&self) -> Seq<u8> {
        self.current_hp.enc() + self.base_hp.enc()
    }

    /// Encoding of the fields 10 to 13, in order.
    pub open spec fn bytes_10_14(&self) -> Seq<u8> {
        self.bytes_10_12() + self.bytes_12_14()
    }

    /// Encoding of the fields 10 to 11, in order.
    pub open spec fn bytes_10_12(&self) -> Seq<u8> {
        self.animation_id.enc() + self.metal_color.enc()
    }

    /// Encoding of the fields 12 to 13, in order.
    pub open spec fn bytes_12_14(&self) -> Seq<u8> {
        self.minor_color.enc() + self.major_color.enc()
    }

    /// Encoding of the fields 14 to 28, in order.
    pub open spec fn bytes_14_29(&self) -> Seq<u8> {
        self.bytes_14_21() + self.bytes_21_29()
    }

    /// Encoding of the fields 14 to 20, in order.
    pub open spec fn bytes_14_21(&self) -> Seq<u8> {
        self.bytes_14_17() + self.bytes_17_21()
    }

    /// Encoding of the fields 14 to 16, in order.
    pub open spec fn bytes_14_17(&self) -> Seq<u8> {
        self.skin_color.enc() + self.bytes_15_17()
    }

    /// Encoding of the fields 15 to 16, in order.
    pub open spec fn bytes_15_17(&self) -> Seq<u8> {
        self.leather_color.enc() + self.armor_color.enc()
    }

    /// Encoding of the fields 17 to 20, in order.
    pub open spec fn bytes_17_21(&self) -> Seq<u8> {
        self.bytes_17_19() + self.bytes_19_21()
    }

    /// Encoding of the fields 17 to 18, in order.
    pub open spec fn bytes_17_19(&self) -> Seq<u8> {
        self.hair_color.enc() + self.effstructure.enc()
    }

    /// Encoding of the fields 19 to 20, in order.
    pub open spec fn bytes_19_21(&self) -> Seq<u8> {
        self.small_portrait.enc() + self.large_portrait.enc()
    }

    /// Encoding of the fields 21 to 28, in order.
    pub open spec fn bytes_21_29(&self) -> Seq<u8> {
        self.bytes_21_25() + self.bytes_25_29()
    }

    /// Encoding of the fields 21 to 24, in order.
    pub open spec fn bytes_21_25(&self) -> Seq<u8> {
        self.bytes_21_23() + self.bytes_23_25()
    }

    /// Encoding of the fields 21 to 22, in order.
    pub open spec fn bytes_21_23(&self) -> Seq<u8> {
        self.reputation.enc() + self.hide_in_shadows.enc()
    }

    /// Encoding of the fields 23 to 24, in order.
    pub open spec fn bytes_23_25(&self) -> Seq<u8> {
        self.nac_1.enc() + self.nac_2.enc()
    }

    /// Encoding of the fields 25 to 28, in order.
    pub open spec fn bytes_25_29(&self) -> Seq<u8> {
        self.bytes_25_27() + self.bytes_27_29()
    }

    /// Encoding of the fields 25 to 26, in order.
    pub open spec fn bytes_25_27(&self) -> Seq<u8> {
        self.nac_mod_crushing.enc() + self.nac_mod_missile.enc()
    }

    /// Encoding of the fields 27 to 28, in order.
    pub open spec fn bytes_27_29(&self) -> Seq<u8> {
        self.nac_mod_piercing.enc() + self.nac_mod_slashing.enc()
    }

    /// Encoding of the fields 29 to 58, in order.
    pub open spec fn bytes_29_59(&self) -> Seq<u8> {
        self.bytes_29_44() + self.bytes_44_59()
    }

    /// Encoding of the fields 29 to 43, in order.
    pub open spec fn bytes_29_44(&self) -> Seq<u8> {
        self.bytes_29_36() + self.bytes_36_44()
    }

    /// Encoding of the fields 29 to 35, in order.
    pub open spec fn bytes_29_36(&self) -> Seq<u8> {
        self.bytes_29_32() + self.bytes_32_36()
    }

    /// Encoding of the fields 29 to 31, in order.
    pub open spec fn bytes_29_32(&self) -> Seq<u8> {
        self.thac0.enc() + self.bytes_30_32()
    }

    /// Encoding of the fields 30 to 31, in order.
    pub open spec fn bytes_30_32(&self) -> Seq<u8> {
        self.attacks.enc() + self.save_death.enc()
    }

    /// Encoding of the fields 32 to 35, in order.
    pub open spec fn bytes_32_36(&self) -> Seq<u8> {
        self.bytes_32_34() + self.bytes_34_36()
    }

    /// Encoding of the fields 32 to 33, in order.
    pub open spec fn bytes_32_34(&self) -> Seq<u8> {
        self.save_wands.enc() + self.save_poly.enc()
    }

    /// Encoding of the fields 34 to 35, in order.
    pub open spec fn bytes_34_36(&self) -> Seq<u8> {
        self.save_breath.enc() + self.save_spells.enc()
    }

    /// Encoding of the fields 36 to 43, in order.
    pub open spec fn bytes_36_44(&self) -> Seq<u8> {
        self.bytes_36_40() + self.bytes_40_44()
    }

    /// Encoding of the fields 36 to 39, in order.
    pub open spec fn bytes_36_40(&self) -> Seq<u8> {
        self.bytes_36_38() + self.bytes_38_40()
    }

    /// Encoding of the fields 36 to 37, in order.
    pub open spec fn bytes_36_38(&self) -> Seq<u8> {
        self.resist_fire.enc() + self.resist_cold.enc()
    }

    /// Encoding of the fields 38 to 39, in order.
    pub open spec fn bytes_38_40(&self) -> Seq<u8> {
        self.resist_electricity.enc() + self.resist_acid.enc()
    }

    /// Encoding of the fields 40 to 43, in order.
    pub open spec fn bytes_40_44(&self) -> Seq<u8> {
        self.bytes_40_42() + self.bytes_42_44()
    }

    /// Encoding of the fields 40 to 41, in order.
    pub open spec fn bytes_40_42(&self) -> Seq<u8> {
        self.resist_magic.enc() + self.resist_magicfire.enc()
    }

    /// Encoding of the fields 42 to 43, in order.
    pub open spec fn bytes_42_44(&self) -> Seq<u8> {
        self.resist_magiccold.enc() + self.resist_slashing.enc()
    }

    /// Encoding of the fields 44 to 58, in order.
    pub open spec fn bytes_44_59(&self) -> Seq<u8> {
        self.bytes_44_51() + self.bytes_51_59()
    }

    /// Encoding of the fields 44 to 50, in order.
    pub open spec fn bytes_44_51(&self) -> Seq<u8> {
        self.bytes_44_47() + self.bytes_47_51()
    }

    /// Encoding of the fields 44 to 46, in order.
    pub open spec fn bytes_44_47(&self) -> Seq<u8> {
        self.resist_crushing.enc() + self.bytes_45_47()
    }

    /// Encoding of the fields 45 to 46, in order.
    pub open spec fn bytes_45_47(&self) -> Seq<u8> {
        self.resist_piercing.enc() + self.resist_missile.enc()
    }

    /// Encoding of the fields 47 to 50, in order.
    pub open spec fn bytes_47_51(&self) -> Seq<u8> {
        self.bytes_47_49() + self.bytes_49_51()
    }

    /// Encoding of the fields 47 to 48, in order.
    pub open spec fn bytes_47_49(&self) -> Seq<u8> {
        self.detect_illusions.enc() + self.set_traps.enc()
    }

    /// Encoding of the fields 49 to 50, in order.
    pub open spec fn bytes_49_51(&self) -> Seq<u8> {
        self.lore.enc() + self.open_locks.enc()
    }

    /// Encoding of the fields 51 to 58, in order.
    pub open spec fn bytes_51_59(&self) -> Seq<u8> {
        self.bytes_51_55() + self.bytes_55_59()
    }

    /// Encoding of the fields 51 to 54, in order.
    pub open spec fn bytes_51_55(&self) -> Seq<u8> {
        self.bytes_51_53() + self.bytes_53_55()
    }

    /// Encoding of the fields 51 to 52, in order.
    pub open spec fn bytes_51_53(&self) -> Seq<u8> {
        self.move_silently.enc() + self.find_traps.enc()
    }

    /// Encoding of the fields 53 to 54, in order.
    pub open spec fn bytes_53_55(&self) -> Seq<u8> {
        self.pick_pockets.enc() + self.fatigue.enc()
    }

    /// Encoding of the fields 55 to 58, in order.
    pub open spec fn bytes_55_59(&self) -> Seq<u8> {
        self.bytes_55_57() + self.bytes_57_59()
    }

    /// Encoding of the fields 55 to 56, in order.
    pub open spec fn bytes_55_57(&self) -> Seq<u8> {
        self.intoxication.enc() + self.luck.enc()
    }

    /// Encoding of the fields 57 to 58, in order.
    pub open spec fn bytes_57_59(&self) -> Seq<u8> {
        self.proficiency_large_swords.enc() + self.proficiency_small_swords.enc()
    }

    /// Encoding of the fields 59 to 118, in order.
    pub open spec fn bytes_59_119(&self) -> Seq<u8> {
        self.bytes_59_89() + self.bytes_89_119()
    }

    /// Encoding of the fields 59 to 88, in order.
    pub open spec fn bytes_59_89(&self) -> Seq<u8> {
        self.bytes_59_74() + self.bytes_74_89()
    }

    /// Encoding of the fields 59 to 73, in order.
    pub open spec fn bytes_59_74(&self) -> Seq<u8> {
        self.bytes_59_66() + self.bytes_66_74()
    }

    /// Encoding of the fields 59 to 65, in order.
    pub open spec fn bytes_59_66(&self) -> Seq<u8> {
        self.bytes_59_62() + self.bytes_62_66()
    }

    /// Encoding of the fields 59 to 61, in order.
    pub open spec fn bytes_59_62(&self) -> Seq<u8> {
        self.proficiency_bows.enc() + self.bytes_60_62()
    }

    /// Encoding of the fields 60 to 61, in order.
    pub open spec fn bytes_60_62(&self) -> Seq<u8> {
        self.proficiency_spears.enc() + self.proficiency_blunt.enc()
    }

    /// Encoding of the fields 62 to 65, in order.
    pub open spec fn bytes_62_66(&self) -> Seq<u8> {
        self.bytes_62_64() + self.bytes_64_66()
    }

    /// Encoding of the fields 62 to 63, in order.
    pub open spec fn bytes_62_64(&self) -> Seq<u8> {
        self.proficiency_spiked.enc() + self.proficiency_axes.enc()
    }

    /// Encoding of the fields 64 to 65, in order.
    pub open spec fn bytes_64_66(&self) -> Seq<u8> {
        self.proficiency_missiles.enc() + enc_seq(self.unused_proficiencies@)
    }

    /// Encoding of the fields 66 to 73, in order.
    pub open spec fn bytes_66_74(&self) -> Seq<u8> {
        self.bytes_66_70() + self.bytes_70_74()
    }

    /// Encoding of the fields 66 to 69, in order.
    pub open spec fn bytes_66_70(&self) -> Seq<u8> {
        self.bytes_66_68() + self.bytes_68_70()
    }

    /// Encoding of the fields 66 to 67, in order.
    pub open spec fn bytes_66_68(&self) -> Seq<u8> {
        self.nightmare_mode.enc() + self.translucency.enc()
    }

    /// Encoding of the fields 68 to 69, in order.
    pub open spec fn bytes_68_70(&self) -> Seq<u8> {
        self.reputation_loss_if_killed.enc() + self.reputation_loss_if_joins_party.enc()
    }

    /// Encoding of the fields 70 to 73, in order.
    pub open spec fn bytes_70_74(&self) -> Seq<u8> {
        self.bytes_70_72() + self.bytes_72_74()
    }

    /// Encoding of the fields 70 to 71, in order.
    pub open spec fn bytes_70_72(&self) -> Seq<u8> {
        self.reputation_loss_if_leaves_party.enc() + self.turn_undead_level.enc()
    }

    /// Encoding of the fields 72 to 73, in order.
    pub open spec fn bytes_72_74(&self) -> Seq<u8> {
        self.tracking_skill.enc() + self.tracking.enc()
    }

    /// Encoding of the fields 74 to 88, in order.
    pub open spec fn bytes_74_89(&self) -> Seq<u8> {
        self.bytes_74_81() + self.bytes_81_89()
    }

    /// Encoding of the fields 74 to 80, in order.
    pub open spec fn bytes_74_81(&self) -> Seq<u8> {
        self.bytes_74_77() + self.bytes_77_81()
    }

    /// Encoding of the fields 74 to 76, in order.
    pub open spec fn bytes_74_77(&self) -> Seq<u8> {
        enc_seq(self.strrefs@) + self.bytes_75_77()
    }

    /// Encoding of the fields 75 to 76, in order.
    pub open spec fn bytes_75_77(&self) -> Seq<u8> {
        self.level_first_class.enc() + self.level_second_class.enc()
    }

    /// Encoding of the fields 77 to 80, in order.
    pub open spec fn bytes_77_81(&self) -> Seq<u8> {
        self.bytes_77_79() + self.bytes_79_81()
    }

    /// Encoding of the fields 77 to 78, in order.
    pub open spec fn bytes_77_79(&self) -> Seq<u8> {
        self.level_third_class.enc() + self.sex.enc()
    }

    /// Encoding of the fields 79 to 80, in order.
    pub open spec fn bytes_79_81(&self) -> Seq<u8> {
        self.strength.enc() + self.strength_bonus.enc()
    }

    /// Encoding of the fields 81 to 88, in order.
    pub open spec fn bytes_81_89(&self) -> Seq<u8> {
        self.bytes_81_85() + self.bytes_85_89()
    }

    /// Encoding of the fields 81 to 84, in order.
    pub open spec fn bytes_81_85(&self) -> Seq<u8> {
        self.bytes_81_83() + self.bytes_83_85()
    }

    /// Encoding of the fields 81 to 82, in order.
    pub open spec fn bytes_81_83(&self) -> Seq<u8> {
        self.intelligence.enc() + self.wisdom.enc()
    }

    /// Encoding of the fields 83 to 84, in order.
    pub open spec fn bytes_83_85(&self) -> Seq<u8> {
        self.dexterity.enc() + self.constitution.enc()
    }

    /// Encoding of the fields 85 to 88, in order.
    pub open spec fn bytes_85_89(&self) -> Seq<u8> {
        self.bytes_85_87() + self.bytes_87_89()
    }

    /// Encoding of the fields 85 to 86, in order.
    pub open spec fn bytes_85_87(&self) -> Seq<u8> {
        self.charisma.enc() + self.morale.enc()
    }

    /// Encoding of the fields 87 to 88, in order.
    pub open spec fn bytes_87_89(&self) -> Seq<u8> {
        self.morale_break.enc() + self.racial_enemy.enc()
    }

    /// Encoding of the fields 89 to 118, in order.
    pub open spec fn bytes_89_119(&self) -> Seq<u8> {
        self.bytes_89_104() + self.bytes_104_119()
    }

    /// Encoding of the fields 89 to 103, in order.
    pub open spec fn bytes_89_104(&self) -> Seq<u8> {
        self.bytes_89_96() + self.bytes_96_104()
    }

    /// Encoding of the fields 89 to 95, in order.
    pub open spec fn bytes_89_96(&self) -> Seq<u8> {
        self.bytes_89_92() + self.bytes_92_96()
    }

    /// Encoding of the fields 89 to 91, in order.
    pub open spec fn bytes_89_92(&self) -> Seq<u8> {
        self.morale_recovery_time.enc() + self.bytes_90_92()
    }

    /// Encoding of the fields 90 to 91, in order.
    pub open spec fn bytes_90_92(&self) -> Seq<u8> {
        self.kit.enc() + self.override_script.enc()
    }

    /// Encoding of the fields 92 to 95, in order.
    pub open spec fn bytes_92_96(&self) -> Seq<u8> {
        self.bytes_92_94() + self.bytes_94_96()
    }

    /// Encoding of the fields 92 to 93, in order.
    pub open spec fn bytes_92_94(&self) -> Seq<u8> {
        self.class_script.enc() + self.race_script.enc()
    }

    /// Encoding of the fields 94 to 95, in order.
    pub open spec fn bytes_94_96(&self) -> Seq<u8> {
        self.general_script.enc() + self.creature_script_default.enc()
    }

    /// Encoding of the fields 96 to 103, in order.
    pub open spec fn bytes_96_104(&self) -> Seq<u8> {
        self.bytes_96_100() + self.bytes_100_104()
    }

    /// Encoding of the fields 96 to 99, in order.
    pub open spec fn bytes_96_100(&self) -> Seq<u8> {
        self.bytes_96_98() + self.bytes_98_100()
    }

    /// Encoding of the fields 96 to 97, in order.
    pub open spec fn bytes_96_98(&self) -> Seq<u8> {
        self.enemy_ally.enc() + self.general.enc()
    }

    /// Encoding of the fields 98 to 99, in order.
    pub open spec fn bytes_98_100(&self) -> Seq<u8> {
        self.race.enc() + self.class.enc()
    }

    /// Encoding of the fields 100 to 103, in order.
    pub open spec fn bytes_100_104(&self) -> Seq<u8> {
        self.bytes_100_102() + self.bytes_102_104()
    }

    /// Encoding of the fields 100 to 101, in order.
    pub open spec fn bytes_100_102(&self) -> Seq<u8> {
        self.specific.enc() + self.gender.enc()
    }

    /// Encoding of the fields 102 to 103, in order.
    pub open spec fn bytes_102_104(&self) -> Seq<u8> {
        enc_seq(self.object_references@) + self.alignment.enc()
    }

    /// Encoding of the fields 104 to 118, in order.
    pub open spec fn bytes_104_119(&self) -> Seq<u8> {
        self.bytes_104_111() + self.bytes_111_119()
    }

    /// Encoding of the fields 104 to 110, in order.
    pub open spec fn bytes_104_111(&self) -> Seq<u8> {
        self.bytes_104_107() + self.bytes_107_111()
    }

    /// Encoding of the fields 104 to 106, in order.
    pub open spec fn bytes_104_107(&self) -> Seq<u8> {
        self.global_actor_enumeration.enc() + self.bytes_105_107()
    }

    /// Encoding of the fields 105 to 106, in order.
    pub open spec fn bytes_105_107(&self) -> Seq<u8> {
        self.local_actor_enumeration.enc() + self.death_variable.enc()
    }

    /// Encoding of the fields 107 to 110, in order.
    pub open spec fn bytes_107_111(&self) -> Seq<u8> {
        self.bytes_107_109() + self.bytes_109_111()
    }

    /// Encoding of the fields 107 to 108, in order.
    pub open spec fn bytes_107_109(&self) -> Seq<u8> {
        self.offset_to_known_spells.enc() + self.count_of_known_spells.enc()
    }

    /// Encoding of the fields 109 to 110, in order.
    pub open spec fn bytes_109_111(&self) -> Seq<u8> {
        self.offset_to_spell_memorization_info.enc() + self.count_of_spell_memorization_info.enc()
    }

    /// Encoding of the fields 111 to 118, in order.
    pub open spec fn bytes_111_119(&self) -> Seq<u8> {
        self.bytes_111_115() + self.bytes_115_119()
    }

    /// Encoding of the fields 111 to 114, in order.
    pub open spec fn bytes_111_115(&self) -> Seq<u8> {
        self.bytes_111_113() + self.bytes_113_115()
    }

    /// Encoding of the fields 111 to 112, in order.
    pub open spec fn bytes_111_113(&self) -> Seq<u8> {
        self.offset_to_memorized_spell_table.enc() + self.count_of_memorized_spell_table.enc()
    }

    /// Encoding of the fields 113 to 114, in order.
    pub open spec fn bytes_113_115(&self) -> Seq<u8> {
        self.offset_to_item_slots.enc() + self.offset_to_items.enc()
    }

    /// Encoding of the fields 115 to 118, in order.
    pub open spec fn bytes_115_119(&self) -> Seq<u8> {
        self.bytes_115_117() + self.bytes_117_119()
    }

    /// Encoding of the fields 115 to 116, in order.
    pub open spec fn bytes_115_117(&self) -> Seq<u8> {
        self.count_of_items.enc() + self.offset_to_effects.enc()
    }

    /// Encoding of the fields 117 to 118, in order.
    pub open spec fn bytes_117_119(&self) -> Seq<u8> {
        self.count_of_effects.enc() + self.dialog_ref.enc()
    }
}

impl Codec for BGEECreatureHeader {
    open spec fn width() -> nat {
        724
    }

    open spec fn enc(&self) -> Seq<u8> {
        self.bytes_0_119()
    }

    open spec fn wf(&self) -> bool {
        &&& self.header.wf()
        &&& self.unused_proficiencies@.len() == 7
        &&& all_wf(self.unused_proficiencies@)
        &&& self.strrefs@.len() == 100
        &&& all_wf(self.strrefs@)
        &&& self.object_references@.len() == 5
        &&& all_wf(self.object_references@)
    }

    open spec fn same(&self, other: &Self) -> bool {
        &&& self.header.same(&other.header)
        &&& self.long_creature_name == other.long_creature_name
        &&& self.short_creature_name == other.short_creature_name
        &&& self.flags == other.flags
        &&& self.exp_for_killing == other.exp_for_killing
        &&& self.exp == other.exp
        &&& self.gold == other.gold
        &&& self.state_flags == other.state_flags
        &&& self.current_hp == other.current_hp
        &&& self.base_hp == other.base_hp
        &&& self.animation_id == other.animation_id
        &&& self.metal_color == other.metal_color
        &&& self.minor_color == other.minor_color
        &&& self.major_color == other.major_color
        &&& self.skin_color == other.skin_color
        &&& self.leather_color == other.leather_color
        &&& self.armor_color == other.armor_color
        &&& self.hair_color == other.hair_color
        &&& self.effstructure == other.effstructure
        &&& self.small_portrait.same(&other.small_portrait)
        &&& self.large_portrait.same(&other.large_portrait)
        &&& self.reputation == other.reputation
        &&& self.hide_in_shadows == other.hide_in_shadows
        &&& self.nac_1 == other.nac_1
        &&& self.nac_2 == other.nac_2
        &&& self.nac_mod_crushing == other.nac_mod_crushing
        &&& self.nac_mod_missile == other.nac_mod_missile
        &&& self.nac_mod_piercing == other.nac_mod_piercing
        &&& self.nac_mod_slashing == other.nac_mod_slashing
        &&& self.thac0 == other.thac0
        &&& self.attacks == other.attacks
        &&& self.save_death == other.save_death
        &&& self.save_wands == other.save_wands
        &&& self.save_poly == other.save_poly
        &&& self.save_breath == other.save_breath
        &&& self.save_spells == other.save_spells
        &&& self.resist_fire == other.resist_fire
        &&& self.resist_cold == other.resist_cold
        &&& self.resist_electricity == other.resist_electricity
        &&& self.resist_acid == other.resist_acid
        &&& self.resist_magic == other.resist_magic
        &&& self.resist_magicfire == other.resist_magicfire
        &&& self.resist_magiccold == other.resist_magiccold
        &&& self.resist_slashing == other.resist_slashing
        &&& self.resist_crushing == other.resist_crushing
        &&& self.resist_piercing == other.resist_piercing
        &&& self.resist_missile == other.resist_missile
        &&& self.detect_illusions == other.detect_illusions
        &&& self.set_traps == other.set_traps
        &&& self.lore == other.lore
        &&& self.open_locks == other.open_locks
        &&& self.move_silently == other.move_silently
        &&& self.find_traps == other.find_traps
        &&& self.pick_pockets == other.pick_pockets
        &&& self.fatigue == other.fatigue
        &&& self.intoxication == other.intoxication
        &&& self.luck == other.luck
        &&& self.proficiency_large_swords == other.proficiency_large_swords
        &&& self.proficiency_small_swords == other.proficiency_small_swords
        &&& self.proficiency_bows == other.proficiency_bows
        &&& self.proficiency_spears == other.proficiency_spears
        &&& self.proficiency_blunt == other.proficiency_blunt
        &&& self.proficiency_spiked == other.proficiency_spiked
        &&& self.proficiency_axes == other.proficiency_axes
        &&& self.proficiency_missiles == other.proficiency_missiles
        &&& seq_same(self.unused_proficiencies@, other.unused_proficiencies@)
        &&& self.nightmare_mode == other.nightmare_mode
        &&& self.translucency == other.translucency
        &&& self.reputation_loss_if_killed == other.reputation_loss_if_killed
        &&& self.reputation_loss_if_joins_party == other.reputation_loss_if_joins_party
        &&& self.reputation_loss_if_leaves_party == other.reputation_loss_if_leaves_party
        &&& self.turn_undead_level == other.turn_undead_level
        &&& self.tracking_skill == other.tracking_skill
        &&& self.tracking.same(&other.tracking)
        &&& seq_same(self.strrefs@, other.strrefs@)
        &&& self.level_first_class == other.level_first_class
        &&& self.level_second_class == other.level_second_class
        &&& self.level_third_class == other.level_third_class
        &&& self.sex == other.sex
        &&& self.strength == other.strength
        &&& self.strength_bonus == other.strength_bonus
        &&& self.intelligence == other.intelligence
        &&& self.wisdom == other.wisdom
        &&& self.dexterity == other.dexterity
        &&& self.constitution == other.constitution
        &&& self.charisma == other.charisma
        &&& self.morale == other.morale
        &&& self.morale_break == other.morale_break
        &&& self.racial_enemy == other.racial_enemy
        &&& self.morale_recovery_time == other.morale_recovery_time
        &&& self.kit == other.kit
        &&& self.override_script.same(&other.override_script)
        &&& self.class_script.same(&other.class_script)
        &&& self.race_script.same(&other.race_script)
        &&& self.general_script.same(&other.general_script)
        &&& self.creature_script_default.same(&other.creature_script_default)
        &&& self.enemy_ally == other.enemy_ally
        &&& self.general == other.general
        &&& self.race == other.race
        &&& self.class == other.class
        &&& self.specific == other.specific
        &&& self.gender == other.gender
        &&& seq_same(self.object_references@, other.object_references@)
        &&& self.alignment == other.alignment
        &&& self.global_actor_enumeration == other.global_actor_enumeration
        &&& self.local_actor_enumeration == other.local_actor_enumeration
        &&& self.death_variable.same(&other.death_variable)
        &&& self.offset_to_known_spells == other.offset_to_known_spells
        &&& self.count_of_known_spells == other.count_of_known_spells
        &&& self.offset_to_spell_memorization_info == other.offset_to_spell_memorization_info
        &&& self.count_of_spell_memorization_info == other.count_of_spell_memorization_info
        &&& self.offset_to_memorized_spell_table == other.offset_to_memorized_spell_table
        &&& self.count_of_memorized_spell_table == other.count_of_memorized_spell_table
        &&& self.offset_to_item_slots == other.offset_to_item_slots
        &&& self.offset_to_items == other.offset_to_items
        &&& self.count_of_items == other.count_of_items
        &&& self.offset_to_effects == other.offset_to_effects
        &&& self.count_of_effects == other.count_of_effects
        &&& self.dialog_ref.same(&other.dialog_ref)
    }

    fn byte_width() -> (n: usize) {
        724
    }

    fn check_wf(&self) -> (b: bool) {
        self.header.check_wf() && self.unused_proficiencies.len() == 7 && check_all_wf(self.unused_proficiencies.as_slice()) && self.strrefs.len() == 100 && check_all_wf(self.strrefs.as_slice()) && self.object_references.len() == 5 && check_all_wf(self.object_references.as_slice())
    }

    proof fn lemma_enc_len(&self) {
        self.header.lemma_enc_len();
        self.long_creature_name.lemma_enc_len();
        self.short_creature_name.lemma_enc_len();
        self.flags.lemma_enc_len();
        self.exp_for_killing.lemma_enc_len();
        self.exp.lemma_enc_len();
        self.gold.lemma_enc_len();
        self.state_flags.lemma_enc_len();
        self.current_hp.lemma_enc_len();
        self.base_hp.lemma_enc_len();
        self.animation_id.lemma_enc_len();
        self.metal_color.lemma_enc_len();
        self.minor_color.lemma_enc_len();
        self.major_color.lemma_enc_len();
        self.skin_color.lemma_enc_len();
        self.leather_color.lemma_enc_len();
        self.armor_color.lemma_enc_len();
        self.hair_color.lemma_enc_len();
        self.effstructure.lemma_enc_len();
        self.small_portrait.lemma_enc_len();
        self.large_portrait.lemma_enc_len();
        self.reputation.lemma_enc_len();
        self.hide_in_shadows.lemma_enc_len();
        self.nac_1.lemma_enc_len();
        self.nac_2.lemma_enc_len();
        self.nac_mod_crushing.lemma_enc_len();
        self.nac_mod_missile.lemma_enc_len();
        self.nac_mod_piercing.lemma_enc_len();
        self.nac_mod_slashing.lemma_enc_len();
        self.thac0.lemma_enc_len();
        self.attacks.lemma_enc_len();
        self.save_death.lemma_enc_len();
        self.save_wands.lemma_enc_len();
        self.save_poly.lemma_enc_len();
        self.save_breath.lemma_enc_len();
        self.save_spells.lemma_enc_len();
        self.resist_fire.lemma_enc_len();
        self.resist_cold.lemma_enc_len();
        self.resist_electricity.lemma_enc_len();
        self.resist_acid.lemma_enc_len();
        self.resist_magic.lemma_enc_len();
        self.resist_magicfire.lemma_enc_len();
        self.resist_magiccold.lemma_enc_len();
        self.resist_slashing.lemma_enc_len();
        self.resist_crushing.lemma_enc_len();
        self.resist_piercing.lemma_enc_len();
        self.resist_missile.lemma_enc_len();
        self.detect_illusions.lemma_enc_len();
        self.set_traps.lemma_enc_len();
        self.lore.lemma_enc_len();
        self.open_locks.lemma_enc_len();
        self.move_silently.lemma_enc_len();
        self.find_traps.lemma_enc_len();
        self.pick_pockets.lemma_enc_len();
        self.fatigue.lemma_enc_len();
        self.intoxication.lemma_enc_len();
        self.luck.lemma_enc_len();
        self.proficiency_large_swords.lemma_enc_len();
        self.proficiency_small_swords.lemma_enc_len();
        self.proficiency_bows.lemma_enc_len();
        self.proficiency_spears.lemma_enc_len();
        self.proficiency_blunt.lemma_enc_len();
        self.proficiency_spiked.lemma_enc_len();
        self.proficiency_axes.lemma_enc_len();
        self.proficiency_missiles.lemma_enc_len();
        lemma_enc_seq_len(self.unused_proficiencies@);
        self.nightmare_mode.lemma_enc_len();
        self.translucency.lemma_enc_len();
        self.reputation_loss_if_killed.lemma_enc_len();
        self.reputation_loss_if_joins_party.lemma_enc_len();
        self.reputation_loss_if_leaves_party.lemma_enc_len();
        self.turn_undead_level.lemma_enc_len();
        self.tracking_skill.lemma_enc_len();
        self.tracking.lemma_enc_len();
        lemma_enc_seq_len(self.strrefs@);
        self.level_first_class.lemma_enc_len();
        self.level_second_class.lemma_enc_len();
        self.level_third_class.lemma_enc_len();
        self.sex.lemma_enc_len();
        self.strength.lemma_enc_len();
        self.strength_bonus.lemma_enc_len();
        self.intelligence.lemma_enc_len();
        self.wisdom.lemma_enc_len();
        self.dexterity.lemma_enc_len();
        self.constitution.lemma_enc_len();
        self.charisma.lemma_enc_len();
        self.morale.lemma_enc_len();
        self.morale_break.lemma_enc_len();
        self.racial_enemy.lemma_enc_len();
        self.morale_recovery_time.lemma_enc_len();
        self.kit.lemma_enc_len();
        self.override_script.lemma_enc_len();
        self.class_script.lemma_enc_len();
        self.race_script.lemma_enc_len();
        self.general_script.lemma_enc_len();
        self.creature_script_default.lemma_enc_len();
        self.enemy_ally.lemma_enc_len();
        self.general.lemma_enc_len();
        self.race.lemma_enc_len();
        self.class.lemma_enc_len();
        self.specific.lemma_enc_len();
        self.gender.lemma_enc_len();
        lemma_enc_seq_len(self.object_references@);
        self.alignment.lemma_enc_len();
        self.global_actor_enumeration.lemma_enc_len();
        self.local_actor_enumeration.lemma_enc_len();
        self.death_variable.lemma_enc_len();
        self.offset_to_known_spells.lemma_enc_len();
        self.count_of_known_spells.lemma_enc_len();
        self.offset_to_spell_memorization_info.lemma_enc_len();
        self.count_of_spell_memorization_info.lemma_enc_len();
        self.offset_to_memorized_spell_table.lemma_enc_len();
        self.count_of_memorized_spell_table.lemma_enc_len();
        self.offset_to_item_slots.lemma_enc_len();
        self.offset_to_items.lemma_enc_len();
        self.count_of_items.lemma_enc_len();
        self.offset_to_effects.lemma_enc_len();
        self.count_of_effects.lemma_enc_len();
        self.dialog_ref.lemma_enc_len();
    }

    proof fn lemma_enc_injective(&self, other: &Self) {
        self.header.lemma_enc_len();
        self.long_creature_name.lemma_enc_len();
        self.short_creature_name.lemma_enc_len();
        self.flags.lemma_enc_len();
        self.exp_for_killing.lemma_enc_len();
        self.exp.lemma_enc_len();
        self.gold.lemma_enc_len();
        self.state_flags.lemma_enc_len();
        self.current_hp.lemma_enc_len();
        self.base_hp.lemma_enc_len();
        self.animation_id.lemma_enc_len();
        self.metal_color.lemma_enc_len();
        self.minor_color.lemma_enc_len();
        self.major_color.lemma_enc_len();
        self.skin_color.lemma_enc_len();
        self.leather_color.lemma_enc_len();
        self.armor_color.lemma_enc_len();
        self.hair_color.lemma_enc_len();
        self.effstructure.lemma_enc_len();
        self.small_portrait.lemma_enc_len();
        self.large_portrait.lemma_enc_len();
        self.reputation.lemma_enc_len();
        self.hide_in_shadows.lemma_enc_len();
        self.nac_1.lemma_enc_len();
        self.nac_2.lemma_enc_len();
        self.nac_mod_crushing.lemma_enc_len();
        self.nac_mod_missile.lemma_enc_len();
        self.nac_mod_piercing.lemma_enc_len();
        self.nac_mod_slashing.lemma_enc_len();
        self.thac0.lemma_enc_len();
        self.attacks.lemma_enc_len();
        self.save_death.lemma_enc_len();
        self.save_wands.lemma_enc_len();
        self.save_poly.lemma_enc_len();
        self.save_breath.lemma_enc_len();
        self.save_spells.lemma_enc_len();
        self.resist_fire.lemma_enc_len();
        self.resist_cold.lemma_enc_len();
        self.resist_electricity.lemma_enc_len();
        self.resist_acid.lemma_enc_len();
        self.resist_magic.lemma_enc_len();
        self.resist_magicfire.lemma_enc_len();
        self.resist_magiccold.lemma_enc_len();
        self.resist_slashing.lemma_enc_len();
        self.resist_crushing.lemma_enc_len();
        self.resist_piercing.lemma_enc_len();
        self.resist_missile.lemma_enc_len();
        self.detect_illusions.lemma_enc_len();
        self.set_traps.lemma_enc_len();
        self.lore.lemma_enc_len();
        self.open_locks.lemma_enc_len();
        self.move_silently.lemma_enc_len();
        self.find_traps.lemma_enc_len();
        self.pick_pockets.lemma_enc_len();
        self.fatigue.lemma_enc_len();
        self.intoxication.lemma_enc_len();
        self.luck.lemma_enc_len();
        self.proficiency_large_swords.lemma_enc_len();
        self.proficiency_small_swords.lemma_enc_len();
        self.proficiency_bows.lemma_enc_len();
        self.proficiency_spears.lemma_enc_len();
        self.proficiency_blunt.lemma_enc_len();
        self.proficiency_spiked.lemma_enc_len();
        self.proficiency_axes.lemma_enc_len();
        self.proficiency_missiles.lemma_enc_len();
        lemma_enc_seq_len(self.unused_proficiencies@);
        self.nightmare_mode.lemma_enc_len();
        self.translucency.lemma_enc_len();
        self.reputation_loss_if_killed.lemma_enc_len();
        self.reputation_loss_if_joins_party.lemma_enc_len();
        self.reputation_loss_if_leaves_party.lemma_enc_len();
        self.turn_undead_level.lemma_enc_len();
        self.tracking_skill.lemma_enc_len();
        self.tracking.lemma_enc_len();
        lemma_enc_seq_len(self.strrefs@);
        self.level_first_class.lemma_enc_len();
        self.level_second_class.lemma_enc_len();
        self.level_third_class.lemma_enc_len();
        self.sex.lemma_enc_len();
        self.strength.lemma_enc_len();
        self.strength_bonus.lemma_enc_len();
        self.intelligence.lemma_enc_len();
        self.wisdom.lemma_enc_len();
        self.dexterity.lemma_enc_len();
        self.constitution.lemma_enc_len();
        self.charisma.lemma_enc_len();
        self.morale.lemma_enc_len();
        self.morale_break.lemma_enc_len();
        self.racial_enemy.lemma_enc_len();
        self.morale_recovery_time.lemma_enc_len();
        self.kit.lemma_enc_len();
        self.override_script.lemma_enc_len();
        self.class_script.lemma_enc_len();
        self.race_script.lemma_enc_len();
        self.general_script.lemma_enc_len();
        self.creature_script_default.lemma_enc_len();
        self.enemy_ally.lemma_enc_len();
        self.general.lemma_enc_len();
        self.race.lemma_enc_len();
        self.class.lemma_enc_len();
        self.specific.lemma_enc_len();
        self.gender.lemma_enc_len();
        lemma_enc_seq_len(self.object_references@);
        self.alignment.lemma_enc_len();
        self.global_actor_enumeration.lemma_enc_len();
        self.local_actor_enumeration.lemma_enc_len();
        self.death_variable.lemma_enc_len();
        self.offset_to_known_spells.lemma_enc_len();
        self.count_of_known_spells.lemma_enc_len();
        self.offset_to_spell_memorization_info.lemma_enc_len();
        self.count_of_spell_memorization_info.lemma_enc_len();
        self.offset_to_memorized_spell_table.lemma_enc_len();
        self.count_of_memorized_spell_table.lemma_enc_len();
        self.offset_to_item_slots.lemma_enc_len();
        self.offset_to_items.lemma_enc_len();
        self.count_of_items.lemma_enc_len();
        self.offset_to_effects.lemma_enc_len();
        self.count_of_effects.lemma_enc_len();
        self.dialog_ref.lemma_enc_len();
        other.header.lemma_enc_len();
        other.long_creature_name.lemma_enc_len();
        other.short_creature_name.lemma_enc_len();
        other.flags.lemma_enc_len();
        other.exp_for_killing.lemma_enc_len();
        other.exp.lemma_enc_len();
        other.gold.lemma_enc_len();
        other.state_flags.lemma_enc_len();
        other.current_hp.lemma_enc_len();
        other.base_hp.lemma_enc_len();
        other.animation_id.lemma_enc_len();
        other.metal_color.lemma_enc_len();
        other.minor_color.lemma_enc_len();
        other.major_color.lemma_enc_len();
        other.skin_color.lemma_enc_len();
        other.leather_color.lemma_enc_len();
        other.armor_color.lemma_enc_len();
        other.hair_color.lemma_enc_len();
        other.effstructure.lemma_enc_len();
        other.small_portrait.lemma_enc_len();
        other.large_portrait.lemma_enc_len();
        other.reputation.lemma_enc_len();
        other.hide_in_shadows.lemma_enc_len();
        other.nac_1.lemma_enc_len();
        other.nac_2.lemma_enc_len();
        other.nac_mod_crushing.lemma_enc_len();
        other.nac_mod_missile.lemma_enc_len();
        other.nac_mod_piercing.lemma_enc_len();
        other.nac_mod_slashing.lemma_enc_len();
        other.thac0.lemma_enc_len();
        other.attacks.lemma_enc_len();
        other.save_death.lemma_enc_len();
        other.save_wands.lemma_enc_len();
        other.save_poly.lemma_enc_len();
        other.save_breath.lemma_enc_len();
        other.save_spells.lemma_enc_len();
        other.resist_fire.lemma_enc_len();
        other.resist_cold.lemma_enc_len();
        other.resist_electricity.lemma_enc_len();
        other.resist_acid.lemma_enc_len();
        other.resist_magic.lemma_enc_len();
        other.resist_magicfire.lemma_enc_len();
        other.resist_magiccold.lemma_enc_len();
        other.resist_slashing.lemma_enc_len();
        other.resist_crushing.lemma_enc_len();
        other.resist_piercing.lemma_enc_len();
        other.resist_missile.lemma_enc_len();
        other.detect_illusions.lemma_enc_len();
        other.set_traps.lemma_enc_len();
        other.lore.lemma_enc_len();
        other.open_locks.lemma_enc_len();
        other.move_silently.lemma_enc_len();
        other.find_traps.lemma_enc_len();
        other.pick_pockets.lemma_enc_len();
        other.fatigue.lemma_enc_len();
        other.intoxication.lemma_enc_len();
        other.luck.lemma_enc_len();
        other.proficiency_large_swords.lemma_enc_len();
        other.proficiency_small_swords.lemma_enc_len();
        other.proficiency_bows.lemma_enc_len();
        other.proficiency_spears.lemma_enc_len();
        other.proficiency_blunt.lemma_enc_len();
        other.proficiency_spiked.lemma_enc_len();
        other.proficiency_axes.lemma_enc_len();
        other.proficiency_missiles.lemma_enc_len();
        lemma_enc_seq_len(other.unused_proficiencies@);
        other.nightmare_mode.lemma_enc_len();
        other.translucency.lemma_enc_len();
        other.reputation_loss_if_killed.lemma_enc_len();
        other.reputation_loss_if_joins_party.lemma_enc_len();
        other.reputation_loss_if_leaves_party.lemma_enc_len();
        other.turn_undead_level.lemma_enc_len();
        other.tracking_skill.lemma_enc_len();
        other.tracking.lemma_enc_len();
        lemma_enc_seq_len(other.strrefs@);
        other.level_first_class.lemma_enc_len();
        other.level_second_class.lemma_enc_len();
        other.level_third_class.lemma_enc_len();
        other.sex.lemma_enc_len();
        other.strength.lemma_enc_len();
        other.strength_bonus.lemma_enc_len();
        other.intelligence.lemma_enc_len();
        other.wisdom.lemma_enc_len();
        other.dexterity.lemma_enc_len();
        other.constitution.lemma_enc_len();
        other.charisma.lemma_enc_len();
        other.morale.lemma_enc_len();
        other.morale_break.lemma_enc_len();
        other.racial_enemy.lemma_enc_len();
        other.morale_recovery_time.lemma_enc_len();
        other.kit.lemma_enc_len();
        other.override_script.lemma_enc_len();
        other.class_script.lemma_enc_len();
        other.race_script.lemma_enc_len();
        other.general_script.lemma_enc_len();
        other.creature_script_default.lemma_enc_len();
        other.enemy_ally.lemma_enc_len();
        other.general.lemma_enc_len();
        other.race.lemma_enc_len();
        other.class.lemma_enc_len();
        other.specific.lemma_enc_len();
        other.gender.lemma_enc_len();
        lemma_enc_seq_len(other.object_references@);
        other.alignment.lemma_enc_len();
        other.global_actor_enumeration.lemma_enc_len();
        other.local_actor_enumeration.lemma_enc_len();
        other.death_variable.lemma_enc_len();
        other.offset_to_known_spells.lemma_enc_len();
        other.count_of_known_spells.lemma_enc_len();
        other.offset_to_spell_memorization_info.lemma_enc_len();
        other.count_of_spell_memorization_info.lemma_enc_len();
        other.offset_to_memorized_spell_table.lemma_enc_len();
        other.count_of_memorized_spell_table.lemma_enc_len();
        other.offset_to_item_slots.lemma_enc_len();
        other.offset_to_items.lemma_enc_len();
        other.count_of_items.lemma_enc_len();
        other.offset_to_effects.lemma_enc_len();
        other.count_of_effects.lemma_enc_len();
        other.dialog_ref.lemma_enc_len();
        lemma_concat_peel(self.bytes_0_59(), self.bytes_59_119(), other.bytes_0_59(), other.bytes_59_119());
        lemma_concat_peel(self.bytes_0_29(), self.bytes_29_59(), other.bytes_0_29(), other.bytes_29_59());
        lemma_concat_peel(self.bytes_0_14(), self.bytes_14_29(), other.bytes_0_14(), other.bytes_14_29());
        lemma_concat_peel(self.bytes_0_7(), self.bytes_7_14(), other.bytes_0_7(), other.bytes_7_14());
        lemma_concat_peel(self.bytes_0_3(), self.bytes_3_7(), other.bytes_0_3(), other.bytes_3_7());
        lemma_concat_peel(self.header.enc(), self.bytes_1_3(), other.header.enc(), other.bytes_1_3());
        lemma_concat_peel(self.long_creature_name.enc(), self.short_creature_name.enc(), other.long_creature_name.enc(), other.short_creature_name.enc());
        lemma_concat_peel(self.bytes_3_5(), self.bytes_5_7(), other.bytes_3_5(), other.bytes_5_7());
        lemma_concat_peel(self.flags.enc(), self.exp_for_killing.enc(), other.flags.enc(), other.exp_for_killing.enc());
        lemma_concat_peel(self.exp.enc(), self.gold.enc(), other.exp.enc(), other.gold.enc());
        lemma_concat_peel(self.bytes_7_10(), self.bytes_10_14(), other.bytes_7_10(), other.bytes_10_14());
        lemma_concat_peel(self.state_flags.enc(), self.bytes_8_10(), other.state_flags.enc(), other.bytes_8_10());
        lemma_concat_peel(self.current_hp.enc(), self.base_hp.enc(), other.current_hp.enc(), other.base_hp.enc());
        lemma_concat_peel(self.bytes_10_12(), self.bytes_12_14(), other.bytes_10_12(), other.bytes_12_14());
        lemma_concat_peel(self.animation_id.enc(), self.metal_color.enc(), other.animation_id.enc(), other.metal_color.enc());
        lemma_concat_peel(self.minor_color.enc(), self.major_color.enc(), other.minor_color.enc(), other.major_color.enc());
        lemma_concat_peel(self.bytes_14_21(), self.bytes_21_29(), other.bytes_14_21(), other.bytes_21_29());
        lemma_concat_peel(self.bytes_14_17(), self.bytes_17_21(), other.bytes_14_17(), other.bytes_17_21());
        lemma_concat_peel(self.skin_color.enc(), self.bytes_15_17(), other.skin_color.enc(), other.bytes_15_17());
        lemma_concat_peel(self.leather_color.enc(), self.armor_color.enc(), other.leather_color.enc(), other.armor_color.enc());
        lemma_concat_peel(self.bytes_17_19(), self.bytes_19_21(), other.bytes_17_19(), other.bytes_19_21());
        lemma_concat_peel(self.hair_color.enc(), self.effstructure.enc(), other.hair_color.enc(), other.effstructure.enc());
        lemma_concat_peel(self.small_portrait.enc(), self.large_portrait.enc(), other.small_portrait.enc(), other.large_portrait.enc());
        lemma_concat_peel(self.bytes_21_25(), self.bytes_25_29(), other.bytes_21_25(), other.bytes_25_29());
        lemma_concat_peel(self.bytes_21_23(), self.bytes_23_25(), other.bytes_21_23(), other.bytes_23_25());
        lemma_concat_peel(self.reputation.enc(), self.hide_in_shadows.enc(), other.reputation.enc(), other.hide_in_shadows.enc());
        lemma_concat_peel(self.nac_1.enc(), self.nac_2.enc(), other.nac_1.enc(), other.nac_2.enc());
        lemma_concat_peel(self.bytes_25_27(), self.bytes_27_29(), other.bytes_25_27(), other.bytes_27_29());
        lemma_concat_peel(self.nac_mod_crushing.enc(), self.nac_mod_missile.enc(), other.nac_mod_crushing.enc(), other.nac_mod_missile.enc());
        lemma_concat_peel(self.nac_mod_piercing.enc(), self.nac_mod_slashing.enc(), other.nac_mod_piercing.enc(), other.nac_mod_slashing.enc());
        lemma_concat_peel(self.bytes_29_44(), self.bytes_44_59(), other.bytes_29_44(), other.bytes_44_59());
        lemma_concat_peel(self.bytes_29_36(), self.bytes_36_44(), other.bytes_29_36(), other.bytes_36_44());
        lemma_concat_peel(self.bytes_29_32(), self.bytes_32_36(), other.bytes_29_32(), other.bytes_32_36());
        lemma_concat_peel(self.thac0.enc(), self.bytes_30_32(), other.thac0.enc(), other.bytes_30_32());
        lemma_concat_peel(self.attacks.enc(), self.save_death.enc(), other.attacks.enc(), other.save_death.enc());
        lemma_concat_peel(self.bytes_32_34(), self.bytes_34_36(), other.bytes_32_34(), other.bytes_34_36());
        lemma_concat_peel(self.save_wands.enc(), self.save_poly.enc(), other.save_wands.enc(), other.save_poly.enc());
        lemma_concat_peel(self.save_breath.enc(), self.save_spells.enc(), other.save_breath.enc(), other.save_spells.enc());
        lemma_concat_peel(self.bytes_36_40(), self.bytes_40_44(), other.bytes_36_40(), other.bytes_40_44());
        lemma_concat_peel(self.bytes_36_38(), self.bytes_38_40(), other.bytes_36_38(), other.bytes_38_40());
        lemma_concat_peel(self.resist_fire.enc(), self.resist_cold.enc(), other.resist_fire.enc(), other.resist_cold.enc());
        lemma_concat_peel(self.resist_electricity.enc(), self.resist_acid.enc(), other.resist_electricity.enc(), other.resist_acid.enc());
        lemma_concat_peel(self.bytes_40_42(), self.bytes_42_44(), other.bytes_40_42(), other.bytes_42_44());
        lemma_concat_peel(self.resist_magic.enc(), self.resist_magicfire.enc(), other.resist_magic.enc(), other.resist_magicfire.enc());
        lemma_concat_peel(self.resist_magiccold.enc(), self.resist_slashing.enc(), other.resist_magiccold.enc(), other.resist_slashing.enc());
        lemma_concat_peel(self.bytes_44_51(), self.bytes_51_59(), other.bytes_44_51(), other.bytes_51_59());
        lemma_concat_peel(self.bytes_44_47(), self.bytes_47_51(), other.bytes_44_47(), other.bytes_47_51());
        lemma_concat_peel(self.resist_crushing.enc(), self.bytes_45_47(), other.resist_crushing.enc(), other.bytes_45_47());
        lemma_concat_peel(self.resist_piercing.enc(), self.resist_missile.enc(), other.resist_piercing.enc(), other.resist_missile.enc());
        lemma_concat_peel(self.bytes_47_49(), self.bytes_49_51(), other.bytes_47_49(), other.bytes_49_51());
        lemma_concat_peel(self.detect_illusions.enc(), self.set_traps.enc(), other.detect_illusions.enc(), other.set_traps.enc());
        lemma_concat_peel(self.lore.enc(), self.open_locks.enc(), other.lore.enc(), other.open_locks.enc());
        lemma_concat_peel(self.bytes_51_55(), self.bytes_55_59(), other.bytes_51_55(), other.bytes_55_59());
        lemma_concat_peel(self.bytes_51_53(), self.bytes_53_55(), other.bytes_51_53(), other.bytes_53_55());
        lemma_concat_peel(self.move_silently.enc(), self.find_traps.enc(), other.move_silently.enc(), other.find_traps.enc());
        lemma_concat_peel(self.pick_pockets.enc(), self.fatigue.enc(), other.pick_pockets.enc(), other.fatigue.enc());
        lemma_concat_peel(self.bytes_55_57(), self.bytes_57_59(), other.bytes_55_57(), other.bytes_57_59());
        lemma_concat_peel(self.intoxication.enc(), self.luck.enc(), other.intoxication.enc(), other.luck.enc());
        lemma_concat_peel(self.proficiency_large_swords.enc(), self.proficiency_small_swords.enc(), other.proficiency_large_swords.enc(), other.proficiency_small_swords.enc());
        lemma_concat_peel(self.bytes_59_89(), self.bytes_89_119(), other.bytes_59_89(), other.bytes_89_119());
        lemma_concat_peel(self.bytes_59_74(), self.bytes_74_89(), other.bytes_59_74(), other.bytes_74_89());
        lemma_concat_peel(self.bytes_59_66(), self.bytes_66_74(), other.bytes_59_66(), other.bytes_66_74());
        lemma_concat_peel(self.bytes_59_62(), self.bytes_62_66(), other.bytes_59_62(), other.bytes_62_66());
        lemma_concat_peel(self.proficiency_bows.enc(), self.bytes_60_62(), other.proficiency_bows.enc(), other.bytes_60_62());
        lemma_concat_peel(self.proficiency_spears.enc(), self.proficiency_blunt.enc(), other.proficiency_spears.enc(), other.proficiency_blunt.enc());
        lemma_concat_peel(self.bytes_62_64(), self.bytes_64_66(), other.bytes_62_64(), other.bytes_64_66());
        lemma_concat_peel(self.proficiency_spiked.enc(), self.proficiency_axes.enc(), other.proficiency_spiked.enc(), other.proficiency_axes.enc());
        lemma_concat_peel(self.proficiency_missiles.enc(), enc_seq(self.unused_proficiencies@), other.proficiency_missiles.enc(), enc_seq(other.unused_proficiencies@));
        lemma_concat_peel(self.bytes_66_70(), self.bytes_70_74(), other.bytes_66_70(), other.bytes_70_74());
        lemma_concat_peel(self.bytes_66_68(), self.bytes_68_70(), other.bytes_66_68(), other.bytes_68_70());
        lemma_concat_peel(self.nightmare_mode.enc(), self.translucency.enc(), other.nightmare_mode.enc(), other.translucency.enc());
        lemma_concat_peel(self.reputation_loss_if_killed.enc(), self.reputation_loss_if_joins_party.enc(), other.reputation_loss_if_killed.enc(), other.reputation_loss_if_joins_party.enc());
        lemma_concat_peel(self.bytes_70_72(), self.bytes_72_74(), other.bytes_70_72(), other.bytes_72_74());
        lemma_concat_peel(self.reputation_loss_if_leaves_party.enc(), self.turn_undead_level.enc(), other.reputation_loss_if_leaves_party.enc(), other.turn_undead_level.enc());
        lemma_concat_peel(self.tracking_skill.enc(), self.tracking.enc(), other.tracking_skill.enc(), other.tracking.enc());
        lemma_concat_peel(self.bytes_74_81(), self.bytes_81_89(), other.bytes_74_81(), other.bytes_81_89());
        lemma_concat_peel(self.bytes_74_77(), self.bytes_77_81(), other.bytes_74_77(), other.bytes_77_81());
        lemma_concat_peel(enc_seq(self.strrefs@), self.bytes_75_77(), enc_seq(other.strrefs@), other.bytes_75_77());
        lemma_concat_peel(self.level_first_class.enc(), self.level_second_class.enc(), other.level_first_class.enc(), other.level_second_class.enc());
        lemma_concat_peel(self.bytes_77_79(), self.bytes_79_81(), other.bytes_77_79(), other.bytes_79_81());
        lemma_concat_peel(self.level_third_class.enc(), self.sex.enc(), other.level_third_class.enc(), other.sex.enc());
        lemma_concat_peel(self.strength.enc(), self.strength_bonus.enc(), other.strength.enc(), other.strength_bonus.enc());
        lemma_concat_peel(self.bytes_81_85(), self.bytes_85_89(), other.bytes_81_85(), other.bytes_85_89());
        lemma_concat_peel(self.bytes_81_83(), self.bytes_83_85(), other.bytes_81_83(), other.bytes_83_85());
        lemma_concat_peel(self.intelligence.enc(), self.wisdom.enc(), other.intelligence.enc(), other.wisdom.enc());
        lemma_concat_peel(self.dexterity.enc(), self.constitution.enc(), other.dexterity.enc(), other.constitution.enc());
        lemma_concat_peel(self.bytes_85_87(), self.bytes_87_89(), other.bytes_85_87(), other.bytes_87_89());
        lemma_concat_peel(self.charisma.enc(), self.morale.enc(), other.charisma.enc(), other.morale.enc());
        lemma_concat_peel(self.morale_break.enc(), self.racial_enemy.enc(), other.morale_break.enc(), other.racial_enemy.enc());
        lemma_concat_peel(self.bytes_89_104(), self.bytes_104_119(), other.bytes_89_104(), other.bytes_104_119());
        lemma_concat_peel(self.bytes_89_96(), self.bytes_96_104(), other.bytes_89_96(), other.bytes_96_104());
        lemma_concat_peel(self.bytes_89_92(), self.bytes_92_96(), other.bytes_89_92(), other.bytes_92_96());
        lemma_concat_peel(self.morale_recovery_time.enc(), self.bytes_90_92(), other.morale_recovery_time.enc(), other.bytes_90_92());
        lemma_concat_peel(self.kit.enc(), self.override_script.enc(), other.kit.enc(), other.override_script.enc());
        lemma_concat_peel(self.bytes_92_94(), self.bytes_94_96(), other.bytes_92_94(), other.bytes_94_96());
        lemma_concat_peel(self.class_script.enc(), self.race_script.enc(), other.class_script.enc(), other.race_script.enc());
        lemma_concat_peel(self.general_script.enc(), self.creature_script_default.enc(), other.general_script.enc(), other.creature_script_default.enc());
        lemma_concat_peel(self.bytes_96_100(), self.bytes_100_104(), other.bytes_96_100(), other.bytes_100_104());
        lemma_concat_peel(self.bytes_96_98(), self.bytes_98_100(), other.bytes_96_98(), other.bytes_98_100());
        lemma_concat_peel(self.enemy_ally.enc(), self.general.enc(), other.enemy_ally.enc(), other.general.enc());
        lemma_concat_peel(self.race.enc(), self.class.enc(), other.race.enc(), other.class.enc());
        lemma_concat_peel(self.bytes_100_102(), self.bytes_102_104(), other.bytes_100_102(), other.bytes_102_104());
        lemma_concat_peel(self.specific.enc(), self.gender.enc(), other.specific.enc(), other.gender.enc());
        lemma_concat_peel(enc_seq(self.object_references@), self.alignment.enc(), enc_seq(other.object_references@), other.alignment.enc());
        lemma_concat_peel(self.bytes_104_111(), self.bytes_111_119(), other.bytes_104_111(), other.bytes_111_119());
        lemma_concat_peel(self.bytes_104_107(), self.bytes_107_111(), other.bytes_104_107(), other.bytes_107_111());
        lemma_concat_peel(self.global_actor_enumeration.enc(), self.bytes_105_107(), other.global_actor_enumeration.enc(), other.bytes_105_107());
        lemma_concat_peel(self.local_actor_enumeration.enc(), self.death_variable.enc(), other.local_actor_enumeration.enc(), other.death_variable.enc());
        lemma_concat_peel(self.bytes_107_109(), self.bytes_109_111(), other.bytes_107_109(), other.bytes_109_111());
        lemma_concat_peel(self.offset_to_known_spells.enc(), self.count_of_known_spells.enc(), other.offset_to_known_spells.enc(), other.count_of_known_spells.enc());
        lemma_concat_peel(self.offset_to_spell_memorization_info.enc(), self.count_of_spell_memorization_info.enc(), other.offset_to_spell_memorization_info.enc(), other.count_of_spell_memorization_info.enc());
        lemma_concat_peel(self.bytes_111_115(), self.bytes_115_119(), other.bytes_111_115(), other.bytes_115_119());
        lemma_concat_peel(self.bytes_111_113(), self.bytes_113_115(), other.bytes_111_113(), other.bytes_113_115());
        lemma_concat_peel(self.offset_to_memorized_spell_table.enc(), self.count_of_memorized_spell_table.enc(), other.offset_to_memorized_spell_table.enc(), other.count_of_memorized_spell_table.enc());
        lemma_concat_peel(self.offset_to_item_slots.enc(), self.offset_to_items.enc(), other.offset_to_item_slots.enc(), other.offset_to_items.enc());
        lemma_concat_peel(self.bytes_115_117(), self.bytes_117_119(), other.bytes_115_117(), other.bytes_117_119());
        lemma_concat_peel(self.count_of_items.enc(), self.offset_to_effects.enc(), other.count_of_items.enc(), other.offset_to_effects.enc());
        lemma_concat_peel(self.count_of_effects.enc(), self.dialog_ref.enc(), other.count_of_effects.enc(), other.dialog_ref.enc());
        self.header.lemma_enc_injective(&other.header);
        self.long_creature_name.lemma_enc_injective(&other.long_creature_name);
        self.short_creature_name.lemma_enc_injective(&other.short_creature_name);
        self.flags.lemma_enc_injective(&other.flags);
        self.exp_for_killing.lemma_enc_injective(&other.exp_for_killing);
        self.exp.lemma_enc_injective(&other.exp);
        self.gold.lemma_enc_injective(&other.gold);
        self.state_flags.lemma_enc_injective(&other.state_flags);
        self.current_hp.lemma_enc_injective(&other.current_hp);
        self.base_hp.lemma_enc_injective(&other.base_hp);
        self.animation_id.lemma_enc_injective(&other.animation_id);
        self.metal_color.lemma_enc_injective(&other.metal_color);
        self.minor_color.lemma_enc_injective(&other.minor_color);
        self.major_color.lemma_enc_injective(&other.major_color);
        self.skin_color.lemma_enc_injective(&other.skin_color);
        self.leather_color.lemma_enc_injective(&other.leather_color);
        self.armor_color.lemma_enc_injective(&other.armor_color);
        self.hair_color.lemma_enc_injective(&other.hair_color);
        self.effstructure.lemma_enc_injective(&other.effstructure);
        self.small_portrait.lemma_enc_injective(&other.small_portrait);
        self.large_portrait.lemma_enc_injective(&other.large_portrait);
        self.reputation.lemma_enc_injective(&other.reputation);
        self.hide_in_shadows.lemma_enc_injective(&other.hide_in_shadows);
        self.nac_1.lemma_enc_injective(&other.nac_1);
        self.nac_2.lemma_enc_injective(&other.nac_2);
        self.nac_mod_crushing.lemma_enc_injective(&other.nac_mod_crushing);
        self.nac_mod_missile.lemma_enc_injective(&other.nac_mod_missile);
        self.nac_mod_piercing.lemma_enc_injective(&other.nac_mod_piercing);
        self.nac_mod_slashing.lemma_enc_injective(&other.nac_mod_slashing);
        self.thac0.lemma_enc_injective(&other.thac0);
        self.attacks.lemma_enc_injective(&other.attacks);
        self.save_death.lemma_enc_injective(&other.save_death);
        self.save_wands.lemma_enc_injective(&other.save_wands);
        self.save_poly.lemma_enc_injective(&other.save_poly);
        self.save_breath.lemma_enc_injective(&other.save_breath);
        self.save_spells.lemma_enc_injective(&other.save_spells);
        self.resist_fire.lemma_enc_injective(&other.resist_fire);
        self.resist_cold.lemma_enc_injective(&other.resist_cold);
        self.resist_electricity.lemma_enc_injective(&other.resist_electricity);
        self.resist_acid.lemma_enc_injective(&other.resist_acid);
        self.resist_magic.lemma_enc_injective(&other.resist_magic);
        self.resist_magicfire.lemma_enc_injective(&other.resist_magicfire);
        self.resist_magiccold.lemma_enc_injective(&other.resist_magiccold);
        self.resist_slashing.lemma_enc_injective(&other.resist_slashing);
        self.resist_crushing.lemma_enc_injective(&other.resist_crushing);
        self.resist_piercing.lemma_enc_injective(&other.resist_piercing);
        self.resist_missile.lemma_enc_injective(&other.resist_missile);
        self.detect_illusions.lemma_enc_injective(&other.detect_illusions);
        self.set_traps.lemma_enc_injective(&other.set_traps);
        self.lore.lemma_enc_injective(&other.lore);
        self.open_locks.lemma_enc_injective(&other.open_locks);
        self.move_silently.lemma_enc_injective(&other.move_silently);
        self.find_traps.lemma_enc_injective(&other.find_traps);
        self.pick_pockets.lemma_enc_injective(&other.pick_pockets);
        self.fatigue.lemma_enc_injective(&other.fatigue);
        self.intoxication.lemma_enc_injective(&other.intoxication);
        self.luck.lemma_enc_injective(&other.luck);
        self.proficiency_large_swords.lemma_enc_injective(&other.proficiency_large_swords);
        self.proficiency_small_swords.lemma_enc_injective(&other.proficiency_small_swords);
        self.proficiency_bows.lemma_enc_injective(&other.proficiency_bows);
        self.proficiency_spears.lemma_enc_injective(&other.proficiency_spears);
        self.proficiency_blunt.lemma_enc_injective(&other.proficiency_blunt);
        self.proficiency_spiked.lemma_enc_injective(&other.proficiency_spiked);
        self.proficiency_axes.lemma_enc_injective(&other.proficiency_axes);
        self.proficiency_missiles.lemma_enc_injective(&other.proficiency_missiles);
        lemma_enc_seq_injective(self.unused_proficiencies@, other.unused_proficiencies@);
        self.nightmare_mode.lemma_enc_injective(&other.nightmare_mode);
        self.translucency.lemma_enc_injective(&other.translucency);
        self.reputation_loss_if_killed.lemma_enc_injective(&other.reputation_loss_if_killed);
        self.reputation_loss_if_joins_party.lemma_enc_injective(&other.reputation_loss_if_joins_party);
        self.reputation_loss_if_leaves_party.lemma_enc_injective(&other.reputation_loss_if_leaves_party);
        self.turn_undead_level.lemma_enc_injective(&other.turn_undead_level);
        self.tracking_skill.lemma_enc_injective(&other.tracking_skill);
        self.tracking.lemma_enc_injective(&other.tracking);
        lemma_enc_seq_injective(self.strrefs@, other.strrefs@);
        self.level_first_class.lemma_enc_injective(&other.level_first_class);
        self.level_second_class.lemma_enc_injective(&other.level_second_class);
        self.level_third_class.lemma_enc_injective(&other.level_third_class);
        self.sex.lemma_enc_injective(&other.sex);
        self.strength.lemma_enc_injective(&other.strength);
        self.strength_bonus.lemma_enc_injective(&other.strength_bonus);
        self.intelligence.lemma_enc_injective(&other.intelligence);
        self.wisdom.lemma_enc_injective(&other.wisdom);
        self.dexterity.lemma_enc_injective(&other.dexterity);
        self.constitution.lemma_enc_injective(&other.constitution);
        self.charisma.lemma_enc_injective(&other.charisma);
        self.morale.lemma_enc_injective(&other.morale);
        self.morale_break.lemma_enc_injective(&other.morale_break);
        self.racial_enemy.lemma_enc_injective(&other.racial_enemy);
        self.morale_recovery_time.lemma_enc_injective(&other.morale_recovery_time);
        self.kit.lemma_enc_injective(&other.kit);
        self.override_script.lemma_enc_injective(&other.override_script);
        self.class_script.lemma_enc_injective(&other.class_script);
        self.race_script.lemma_enc_injective(&other.race_script);
        self.general_script.lemma_enc_injective(&other.general_script);
        self.creature_script_default.lemma_enc_injective(&other.creature_script_default);
        self.enemy_ally.lemma_enc_injective(&other.enemy_ally);
        self.general.lemma_enc_injective(&other.general);
        self.race.lemma_enc_injective(&other.race);
        self.class.lemma_enc_injective(&other.class);
        self.specific.lemma_enc_injective(&other.specific);
        self.gender.lemma_enc_injective(&other.gender);
        lemma_enc_seq_injective(self.object_references@, other.object_references@);
        self.alignment.lemma_enc_injective(&other.alignment);
        self.global_actor_enumeration.lemma_enc_injective(&other.global_actor_enumeration);
        self.local_actor_enumeration.lemma_enc_injective(&other.local_actor_enumeration);
        self.death_variable.lemma_enc_injective(&other.death_variable);
        self.offset_to_known_spells.lemma_enc_injective(&other.offset_to_known_spells);
        self.count_of_known_spells.lemma_enc_injective(&other.count_of_known_spells);
        self.offset_to_spell_memorization_info.lemma_enc_injective(&other.offset_to_spell_memorization_info);
        self.count_of_spell_memorization_info.lemma_enc_injective(&other.count_of_spell_memorization_info);
        self.offset_to_memorized_spell_table.lemma_enc_injective(&other.offset_to_memorized_spell_table);
        self.count_of_memorized_spell_table.lemma_enc_injective(&other.count_of_memorized_spell_table);
        self.offset_to_item_slots.lemma_enc_injective(&other.offset_to_item_slots);
        self.offset_to_items.lemma_enc_injective(&other.offset_to_items);
        self.count_of_items.lemma_enc_injective(&other.count_of_items);
        self.offset_to_effects.lemma_enc_injective(&other.offset_to_effects);
        self.count_of_effects.lemma_enc_injective(&other.count_of_effects);
        self.dialog_ref.lemma_enc_injective(&other.dialog_ref);
    }

    #[verifier::rlimit(100)]
    #[verifier::spinoff_prover]
    fn decode(buf: &[u8], pos: usize) -> (v: Self) {
        let len = buf.len();
        let fld0 = Header::decode(buf, pos + 0);
        let fld1 = u32::decode(buf, pos + 8);
        let fld2 = u32::decode(buf, pos + 12);
        let fld3 = u32::decode(buf, pos + 16);
        let fld4 = u32::decode(buf, pos + 20);
        let fld5 = u32::decode(buf, pos + 24);
        let fld6 = u32::decode(buf, pos + 28);
        let fld7 = u32::decode(buf, pos + 32);
        let fld8 = u16::decode(buf, pos + 36);
        let fld9 = u16::decode(buf, pos + 38);
        let fld10 = u32::decode(buf, pos + 40);
        let fld11 = u8::decode(buf, pos + 44);
        let fld12 = u8::decode(buf, pos + 45);
        let fld13 = u8::decode(buf, pos + 46);
        let fld14 = u8::decode(buf, pos + 47);
        let fld15 = u8::decode(buf, pos + 48);
        let fld16 = u8::decode(buf, pos + 49);
        let fld17 = u8::decode(buf, pos + 50);
        let fld18 = u8::decode(buf, pos + 51);
        let fld19 = Resref::decode(buf, pos + 52);
        let fld20 = Resref::decode(buf, pos + 60);
        let fld21 = u8::decode(buf, pos + 68);
        let fld22 = u8::decode(buf, pos + 69);
        let fld23 = u16::decode(buf, pos + 70);
        let fld24 = u16::decode(buf, pos + 72);
        let fld25 = u16::decode(buf, pos + 74);
        let fld26 = u16::decode(buf, pos + 76);
        let fld27 = u16::decode(buf, pos + 78);
        let fld28 = u16::decode(buf, pos + 80);
        let fld29 = u8::decode(buf, pos + 82);
        let fld30 = u8::decode(buf, pos + 83);
        let fld31 = u8::decode(buf, pos + 84);
        let fld32 = u8::decode(buf, pos + 85);
        let fld33 = u8::decode(buf, pos + 86);
        let fld34 = u8::decode(buf, pos + 87);
        let fld35 = u8::decode(buf, pos + 88);
        let fld36 = u8::decode(buf, pos + 89);
        let fld37 = u8::decode(buf, pos + 90);
        let fld38 = u8::decode(buf, pos + 91);
        let fld39 = u8::decode(buf, pos + 92);
        let fld40 = u8::decode(buf, pos + 93);
        let fld41 = u8::decode(buf, pos + 94);
        let fld42 = u8::decode(buf, pos + 95);
        let fld43 = u8::decode(buf, pos + 96);
        let fld44 = u8::decode(buf, pos + 97);
        let fld45 = u8::decode(buf, pos + 98);
        let fld46 = u8::decode(buf, pos + 99);
        let fld47 = u8::decode(buf, pos + 100);
        let fld48 = u8::decode(buf, pos + 101);
        let fld49 = u8::decode(buf, pos + 102);
        let fld50 = u8::decode(buf, pos + 103);
        let fld51 = u8::decode(buf, pos + 104);
        let fld52 = u8::decode(buf, pos + 105);
        let fld53 = u8::decode(buf, pos + 106);
        let fld54 = u8::decode(buf, pos + 107);
        let fld55 = u8::decode(buf, pos + 108);
        let fld56 = u8::decode(buf, pos + 109);
        let fld57 = u8::decode(buf, pos + 110);
        let fld58 = u8::decode(buf, pos + 111);
        let fld59 = u8::decode(buf, pos + 112);
        let fld60 = u8::decode(buf, pos + 113);
        let fld61 = u8::decode(buf, pos + 114);
        let fld62 = u8::decode(buf, pos + 115);
        let fld63 = u8::decode(buf, pos + 116);
        let fld64 = u8::decode(buf, pos + 117);
        let fld65 = decode_vec::<u8>(buf, pos + 118, 7);
        let fld66 = u8::decode(buf, pos + 125);
        let fld67 = u8::decode(buf, pos + 126);
        let fld68 = u8::decode(buf, pos + 127);
        let fld69 = u8::decode(buf, pos + 128);
        let fld70 = u8::decode(buf, pos + 129);
        let fld71 = u8::decode(buf, pos + 130);
        let fld72 = u8::decode(buf, pos + 131);
        let fld73 = <CharArray<32>>::decode(buf, pos + 132);
        let fld74 = decode_vec::<Strref>(buf, pos + 164, 100);
        let fld75 = u8::decode(buf, pos + 564);
        let fld76 = u8::decode(buf, pos + 565);
        let fld77 = u8::decode(buf, pos + 566);
        let fld78 = u8::decode(buf, pos + 567);
        let fld79 = u8::decode(buf, pos + 568);
        let fld80 = u8::decode(buf, pos + 569);
        let fld81 = u8::decode(buf, pos + 570);
        let fld82 = u8::decode(buf, pos + 571);
        let fld83 = u8::decode(buf, pos + 572);
        let fld84 = u8::decode(buf, pos + 573);
        let fld85 = u8::decode(buf, pos + 574);
        let fld86 = u8::decode(buf, pos + 575);
        let fld87 = u8::decode(buf, pos + 576);
        let fld88 = u8::decode(buf, pos + 577);
        let fld89 = u16::decode(buf, pos + 578);
        let fld90 = u32::decode(buf, pos + 580);
        let fld91 = Resref::decode(buf, pos + 584);
        let fld92 = Resref::decode(buf, pos + 592);
        let fld93 = Resref::decode(buf, pos + 600);
        let fld94 = Resref::decode(buf, pos + 608);
        let fld95 = Resref::decode(buf, pos + 616);
        let fld96 = u8::decode(buf, pos + 624);
        let fld97 = u8::decode(buf, pos + 625);
        let fld98 = u8::decode(buf, pos + 626);
        let fld99 = u8::decode(buf, pos + 627);
        let fld100 = u8::decode(buf, pos + 628);
        let fld101 = u8::decode(buf, pos + 629);
        let fld102 = decode_vec::<u8>(buf, pos + 630, 5);
        let fld103 = u8::decode(buf, pos + 635);
        let fld104 = u16::decode(buf, pos + 636);
        let fld105 = u16::decode(buf, pos + 638);
        let fld106 = <CharArray<32>>::decode(buf, pos + 640);
        let fld107 = u32::decode(buf, pos + 672);
        let fld108 = u32::decode(buf, pos + 676);
        let fld109 = u32::decode(buf, pos + 680);
        let fld110 = u32::decode(buf, pos + 684);
        let fld111 = u32::decode(buf, pos + 688);
        let fld112 = u32::decode(buf, pos + 692);
        let fld113 = u32::decode(buf, pos + 696);
        let fld114 = u32::decode(buf, pos + 700);
        let fld115 = u32::decode(buf, pos + 704);
        let fld116 = u32::decode(buf, pos + 708);
        let fld117 = u32::decode(buf, pos + 712);
        let fld118 = Resref::decode(buf, pos + 716);
        let v = BGEECreatureHeader {
            header: fld0,
            long_creature_name: fld1,
            short_creature_name: fld2,
            flags: fld3,
            exp_for_killing: fld4,
            exp: fld5,
            gold: fld6,
            state_flags: fld7,
            current_hp: fld8,
            base_hp: fld9,
            animation_id: fld10,
            metal_color: fld11,
            minor_color: fld12,
            major_color: fld13,
            skin_color: fld14,
            leather_color: fld15,
            armor_color: fld16,
            hair_color: fld17,
            effstructure: fld18,
            small_portrait: fld19,
            large_portrait: fld20,
            reputation: fld21,
            hide_in_shadows: fld22,
            nac_1: fld23,
            nac_2: fld24,
            nac_mod_crushing: fld25,
            nac_mod_missile: fld26,
            nac_mod_piercing: fld27,
            nac_mod_slashing: fld28,
            thac0: fld29,
            attacks: fld30,
            save_death: fld31,
            save_wands: fld32,
            save_poly: fld33,
            save_breath: fld34,
            save_spells: fld35,
            resist_fire: fld36,
            resist_cold: fld37,
            resist_electricity: fld38,
            resist_acid: fld39,
            resist_magic: fld40,
            resist_magicfire: fld41,
            resist_magiccold: fld42,
            resist_slashing: fld43,
            resist_crushing: fld44,
            resist_piercing: fld45,
            resist_missile: fld46,
            detect_illusions: fld47,
            set_traps: fld48,
            lore: fld49,
            open_locks: fld50,
            move_silently: fld51,
            find_traps: fld52,
            pick_pockets: fld53,
            fatigue: fld54,
            intoxication: fld55,
            luck: fld56,
            proficiency_large_swords: fld57,
            proficiency_small_swords: fld58,
            proficiency_bows: fld59,
            proficiency_spears: fld60,
            proficiency_blunt: fld61,
            proficiency_spiked: fld62,
            proficiency_axes: fld63,
            proficiency_missiles: fld64,
            unused_proficiencies: fld65,
            nightmare_mode: fld66,
            translucency: fld67,
            reputation_loss_if_killed: fld68,
            reputation_loss_if_joins_party: fld69,
            reputation_loss_if_leaves_party: fld70,
            turn_undead_level: fld71,
            tracking_skill: fld72,
            tracking: fld73,
            strrefs: fld74,
            level_first_class: fld75,
            level_second_class: fld76,
            level_third_class: fld77,
            sex: fld78,
            strength: fld79,
            strength_bonus: fld80,
            intelligence: fld81,
            wisdom: fld82,
            dexterity: fld83,
            constitution: fld84,
            charisma: fld85,
            morale: fld86,
            morale_break: fld87,
            racial_enemy: fld88,
            morale_recovery_time: fld89,
            kit: fld90,
            override_script: fld91,
            class_script: fld92,
            race_script: fld93,
            general_script: fld94,
            creature_script_default: fld95,
            enemy_ally: fld96,
            general: fld97,
            race: fld98,
            class: fld99,
            specific: fld100,
            gender: fld101,
            object_references: fld102,
            alignment: fld103,
            global_actor_enumeration: fld104,
            local_actor_enumeration: fld105,
            death_variable: fld106,
            offset_to_known_spells: fld107,
            count_of_known_spells: fld108,
            offset_to_spell_memorization_info: fld109,
            count_of_spell_memorization_info: fld110,
            offset_to_memorized_spell_table: fld111,
            count_of_memorized_spell_table: fld112,
            offset_to_item_slots: fld113,
            offset_to_items: fld114,
            count_of_items: fld115,
            offset_to_effects: fld116,
            count_of_effects: fld117,
            dialog_ref: fld118,
        };
        proof {
            lemma_subrange_concat(buf@, pos + 0, pos + 112, pos + 724);
            lemma_subrange_concat(buf@, pos + 0, pos + 82, pos + 112);
            lemma_subrange_concat(buf@, pos + 0, pos + 47, pos + 82);
            lemma_subrange_concat(buf@, pos + 0, pos + 32, pos + 47);
            lemma_subrange_concat(buf@, pos + 0, pos + 16, pos + 32);
            lemma_subrange_concat(buf@, pos + 0, pos + 8, pos + 16);
            lemma_subrange_concat(buf@, pos + 8, pos + 12, pos + 16);
            lemma_subrange_concat(buf@, pos + 16, pos + 24, pos + 32);
            lemma_subrange_concat(buf@, pos + 16, pos + 20, pos + 24);
            lemma_subrange_concat(buf@, pos + 24, pos + 28, pos + 32);
            lemma_subrange_concat(buf@, pos + 32, pos + 40, pos + 47);
            lemma_subrange_concat(buf@, pos + 32, pos + 36, pos + 40);
            lemma_subrange_concat(buf@, pos + 36, pos + 38, pos + 40);
            lemma_subrange_concat(buf@, pos + 40, pos + 45, pos + 47);
            lemma_subrange_concat(buf@, pos + 40, pos + 44, pos + 45);
            lemma_subrange_concat(buf@, pos + 45, pos + 46, pos + 47);
            lemma_subrange_concat(buf@, pos + 47, pos + 68, pos + 82);
            lemma_subrange_concat(buf@, pos + 47, pos + 50, pos + 68);
            lemma_subrange_concat(buf@, pos + 47, pos + 48, pos + 50);
            lemma_subrange_concat(buf@, pos + 48, pos + 49, pos + 50);
            lemma_subrange_concat(buf@, pos + 50, pos + 52, pos + 68);
            lemma_subrange_concat(buf@, pos + 50, pos + 51, pos + 52);
            lemma_subrange_concat(buf@, pos + 52, pos + 60, pos + 68);
            lemma_subrange_concat(buf@, pos + 68, pos + 74, pos + 82);
            lemma_subrange_concat(buf@, pos + 68, pos + 70, pos + 74);
            lemma_subrange_concat(buf@, pos + 68, pos + 69, pos + 70);
            lemma_subrange_concat(buf@, pos + 70, pos + 72, pos + 74);
            lemma_subrange_concat(buf@, pos + 74, pos + 78, pos + 82);
            lemma_subrange_concat(buf@, pos + 74, pos + 76, pos + 78);
            lemma_subrange_concat(buf@, pos + 78, pos + 80, pos + 82);
            lemma_subrange_concat(buf@, pos + 82, pos + 97, pos + 112);
            lemma_subrange_concat(buf@, pos + 82, pos + 89, pos + 97);
            lemma_subrange_concat(buf@, pos + 82, pos + 85, pos + 89);
            lemma_subrange_concat(buf@, pos + 82, pos + 83, pos + 85);
            lemma_subrange_concat(buf@, pos + 83, pos + 84, pos + 85);
            lemma_subrange_concat(buf@, pos + 85, pos + 87, pos + 89);
            lemma_subrange_concat(buf@, pos + 85, pos + 86, pos + 87);
            lemma_subrange_concat(buf@, pos + 87, pos + 88, pos + 89);
            lemma_subrange_concat(buf@, pos + 89, pos + 93, pos + 97);
            lemma_subrange_concat(buf@, pos + 89, pos + 91, pos + 93);
            lemma_subrange_concat(buf@, pos + 89, pos + 90, pos + 91);
            lemma_subrange_concat(buf@, pos + 91, pos + 92, pos + 93);
            lemma_subrange_concat(buf@, pos + 93, pos + 95, pos + 97);
            lemma_subrange_concat(buf@, pos + 93, pos + 94, pos + 95);
            lemma_subrange_concat(buf@, pos + 95, pos + 96, pos + 97);
            lemma_subrange_concat(buf@, pos + 97, pos + 104, pos + 112);
            lemma_subrange_concat(buf@, pos + 97, pos + 100, pos + 104);
            lemma_subrange_concat(buf@, pos + 97, pos + 98, pos + 100);
            lemma_subrange_concat(buf@, pos + 98, pos + 99, pos + 100);
            lemma_subrange_concat(buf@, pos + 100, pos + 102, pos + 104);
            lemma_subrange_concat(buf@, pos + 100, pos + 101, pos + 102);
            lemma_subrange_concat(buf@, pos + 102, pos + 103, pos + 104);
            lemma_subrange_concat(buf@, pos + 104, pos + 108, pos + 112);
            lemma_subrange_concat(buf@, pos + 104, pos + 106, pos + 108);
            lemma_subrange_concat(buf@, pos + 104, pos + 105, pos + 106);
            lemma_subrange_concat(buf@, pos + 106, pos + 107, pos + 108);
            lemma_subrange_concat(buf@, pos + 108, pos + 110, pos + 112);
            lemma_subrange_concat(buf@, pos + 108, pos + 109, pos + 110);
            lemma_subrange_concat(buf@, pos + 110, pos + 111, pos + 112);
            lemma_subrange_concat(buf@, pos + 112, pos + 578, pos + 724);
            lemma_subrange_concat(buf@, pos + 112, pos + 164, pos + 578);
            lemma_subrange_concat(buf@, pos + 112, pos + 125, pos + 164);
            lemma_subrange_concat(buf@, pos + 112, pos + 115, pos + 125);
            lemma_subrange_concat(buf@, pos + 112, pos + 113, pos + 115);
            lemma_subrange_concat(buf@, pos + 113, pos + 114, pos + 115);
            lemma_subrange_concat(buf@, pos + 115, pos + 117, pos + 125);
            lemma_subrange_concat(buf@, pos + 115, pos + 116, pos + 117);
            lemma_subrange_concat(buf@, pos + 117, pos + 118, pos + 125);
            lemma_subrange_concat(buf@, pos + 125, pos + 129, pos + 164);
            lemma_subrange_concat(buf@, pos + 125, pos + 127, pos + 129);
            lemma_subrange_concat(buf@, pos + 125, pos + 126, pos + 127);
            lemma_subrange_concat(buf@, pos + 127, pos + 128, pos + 129);
            lemma_subrange_concat(buf@, pos + 129, pos + 131, pos + 164);
            lemma_subrange_concat(buf@, pos + 129, pos + 130, pos + 131);
            lemma_subrange_concat(buf@, pos + 131, pos + 132, pos + 164);
            lemma_subrange_concat(buf@, pos + 164, pos + 570, pos + 578);
            lemma_subrange_concat(buf@, pos + 164, pos + 566, pos + 570);
            lemma_subrange_concat(buf@, pos + 164, pos + 564, pos + 566);
            lemma_subrange_concat(buf@, pos + 564, pos + 565, pos + 566);
            lemma_subrange_concat(buf@, pos + 566, pos + 568, pos + 570);
            lemma_subrange_concat(buf@, pos + 566, pos + 567, pos + 568);
            lemma_subrange_concat(buf@, pos + 568, pos + 569, pos + 570);
            lemma_subrange_concat(buf@, pos + 570, pos + 574, pos + 578);
            lemma_subrange_concat(buf@, pos + 570, pos + 572, pos + 574);
            lemma_subrange_concat(buf@, pos + 570, pos + 571, pos + 572);
            lemma_subrange_concat(buf@, pos + 572, pos + 573, pos + 574);
            lemma_subrange_concat(buf@, pos + 574, pos + 576, pos + 578);
            lemma_subrange_concat(buf@, pos + 574, pos + 575, pos + 576);
            lemma_subrange_concat(buf@, pos + 576, pos + 577, pos + 578);
            lemma_subrange_concat(buf@, pos + 578, pos + 636, pos + 724);
            lemma_subrange_concat(buf@, pos + 578, pos + 624, pos + 636);
            lemma_subrange_concat(buf@, pos + 578, pos + 592, pos + 624);
            lemma_subrange_concat(buf@, pos + 578, pos + 580, pos + 592);
            lemma_subrange_concat(buf@, pos + 580, pos + 584, pos + 592);
            lemma_subrange_concat(buf@, pos + 592, pos + 608, pos + 624);
            lemma_subrange_concat(buf@, pos + 592, pos + 600, pos + 608);
            lemma_subrange_concat(buf@, pos + 608, pos + 616, pos + 624);
            lemma_subrange_concat(buf@, pos + 624, pos + 628, pos + 636);
            lemma_subrange_concat(buf@, pos + 624, pos + 626, pos + 628);
            lemma_subrange_concat(buf@, pos + 624, pos + 625, pos + 626);
            lemma_subrange_concat(buf@, pos + 626, pos + 627, pos + 628);
            lemma_subrange_concat(buf@, pos + 628, pos + 630, pos + 636);
            lemma_subrange_concat(buf@, pos + 628, pos + 629, pos + 630);
            lemma_subrange_concat(buf@, pos + 630, pos + 635, pos + 636);
            lemma_subrange_concat(buf@, pos + 636, pos + 688, pos + 724);
            lemma_subrange_concat(buf@, pos + 636, pos + 672, pos + 688);
            lemma_subrange_concat(buf@, pos + 636, pos + 638, pos + 672);
            lemma_subrange_concat(buf@, pos + 638, pos + 640, pos + 672);
            lemma_subrange_concat(buf@, pos + 672, pos + 680, pos + 688);
            lemma_subrange_concat(buf@, pos + 672, pos + 676, pos + 680);
            lemma_subrange_concat(buf@, pos + 680, pos + 684, pos + 688);
            lemma_subrange_concat(buf@, pos + 688, pos + 704, pos + 724);
            lemma_subrange_concat(buf@, pos + 688, pos + 696, pos + 704);
            lemma_subrange_concat(buf@, pos + 688, pos + 692, pos + 696);
            lemma_subrange_concat(buf@, pos + 696, pos + 700, pos + 704);
            lemma_subrange_concat(buf@, pos + 704, pos + 712, pos + 724);
            lemma_subrange_concat(buf@, pos + 704, pos + 708, pos + 712);
            lemma_subrange_concat(buf@, pos + 712, pos + 716, pos + 724);
        }
        v
    }

    fn encode(&self, out: &mut Vec<u8>) {
        let mut b0 = encoded(&self.header);
        let mut b1 = encoded(&self.long_creature_name);
        let mut b2 = encoded(&self.short_creature_name);
        let mut b3 = encoded(&self.flags);
        let mut b4 = encoded(&self.exp_for_killing);
        let mut b5 = encoded(&self.exp);
        let mut b6 = encoded(&self.gold);
        let mut b7 = encoded(&self.state_flags);
        let mut b8 = encoded(&self.current_hp);
        let mut b9 = encoded(&self.base_hp);
        let mut b10 = encoded(&self.animation_id);
        let mut b11 = encoded(&self.metal_color);
        let mut b12 = encoded(&self.minor_color);
        let mut b13 = encoded(&self.major_color);
        let mut b14 = encoded(&self.skin_color);
        let mut b15 = encoded(&self.leather_color);
        let mut b16 = encoded(&self.armor_color);
        let mut b17 = encoded(&self.hair_color);
        let mut b18 = encoded(&self.effstructure);
        let mut b19 = encoded(&self.small_portrait);
        let mut b20 = encoded(&self.large_portrait);
        let mut b21 = encoded(&self.reputation);
        let mut b22 = encoded(&self.hide_in_shadows);
        let mut b23 = encoded(&self.nac_1);
        let mut b24 = encoded(&self.nac_2);
        let mut b25 = encoded(&self.nac_mod_crushing);
        let mut b26 = encoded(&self.nac_mod_missile);
        let mut b27 = encoded(&self.nac_mod_piercing);
        let mut b28 = encoded(&self.nac_mod_slashing);
        let mut b29 = encoded(&self.thac0);
        let mut b30 = encoded(&self.attacks);
        let mut b31 = encoded(&self.save_death);
        let mut b32 = encoded(&self.save_wands);
        let mut b33 = encoded(&self.save_poly);
        let mut b34 = encoded(&self.save_breath);
        let mut b35 = encoded(&self.save_spells);
        let mut b36 = encoded(&self.resist_fire);
        let mut b37 = encoded(&self.resist_cold);
        let mut b38 = encoded(&self.resist_electricity);
        let mut b39 = encoded(&self.resist_acid);
        let mut b40 = encoded(&self.resist_magic);
        let mut b41 = encoded(&self.resist_magicfire);
        let mut b42 = encoded(&self.resist_magiccold);
        let mut b43 = encoded(&self.resist_slashing);
        let mut b44 = encoded(&self.resist_crushing);
        let mut b45 = encoded(&self.resist_piercing);
        let mut b46 = encoded(&self.resist_missile);
        let mut b47 = encoded(&self.detect_illusions);
        let mut b48 = encoded(&self.set_traps);
        let mut b49 = encoded(&self.lore);
        let mut b50 = encoded(&self.open_locks);
        let mut b51 = encoded(&self.move_silently);
        let mut b52 = encoded(&self.find_traps);
        let mut b53 = encoded(&self.pick_pockets);
        let mut b54 = encoded(&self.fatigue);
        let mut b55 = encoded(&self.intoxication);
        let mut b56 = encoded(&self.luck);
        let mut b57 = encoded(&self.proficiency_large_swords);
        let mut b58 = encoded(&self.proficiency_small_swords);
        let mut b59 = encoded(&self.proficiency_bows);
        let mut b60 = encoded(&self.proficiency_spears);
        let mut b61 = encoded(&self.proficiency_blunt);
        let mut b62 = encoded(&self.proficiency_spiked);
        let mut b63 = encoded(&self.proficiency_axes);
        let mut b64 = encoded(&self.proficiency_missiles);
        let mut b65 = encoded_slice(self.unused_proficiencies.as_slice());
        let mut b66 = encoded(&self.nightmare_mode);
        let mut b67 = encoded(&self.translucency);
        let mut b68 = encoded(&self.reputation_loss_if_killed);
        let mut b69 = encoded(&self.reputation_loss_if_joins_party);
        let mut b70 = encoded(&self.reputation_loss_if_leaves_party);
        let mut b71 = encoded(&self.turn_undead_level);
        let mut b72 = encoded(&self.tracking_skill);
        let mut b73 = encoded(&self.tracking);
        let mut b74 = encoded_slice(self.strrefs.as_slice());
        let mut b75 = encoded(&self.level_first_class);
        let mut b76 = encoded(&self.level_second_class);
        let mut b77 = encoded(&self.level_third_class);
        let mut b78 = encoded(&self.sex);
        let mut b79 = encoded(&self.strength);
        let mut b80 = encoded(&self.strength_bonus);
        let mut b81 = encoded(&self.intelligence);
        let mut b82 = encoded(&self.wisdom);
        let mut b83 = encoded(&self.dexterity);
        let mut b84 = encoded(&self.constitution);
        let mut b85 = encoded(&self.charisma);
        let mut b86 = encoded(&self.morale);
        let mut b87 = encoded(&self.morale_break);
        let mut b88 = encoded(&self.racial_enemy);
        let mut b89 = encoded(&self.morale_recovery_time);
        let mut b90 = encoded(&self.kit);
        let mut b91 = encoded(&self.override_script);
        let mut b92 = encoded(&self.class_script);
        let mut b93 = encoded(&self.race_script);
        let mut b94 = encoded(&self.general_script);
        let mut b95 = encoded(&self.creature_script_default);
        let mut b96 = encoded(&self.enemy_ally);
        let mut b97 = encoded(&self.general);
        let mut b98 = encoded(&self.race);
        let mut b99 = encoded(&self.class);
        let mut b100 = encoded(&self.specific);
        let mut b101 = encoded(&self.gender);
        let mut b102 = encoded_slice(self.object_references.as_slice());
        let mut b103 = encoded(&self.alignment);
        let mut b104 = encoded(&self.global_actor_enumeration);
        let mut b105 = encoded(&self.local_actor_enumeration);
        let mut b106 = encoded(&self.death_variable);
        let mut b107 = encoded(&self.offset_to_known_spells);
        let mut b108 = encoded(&self.count_of_known_spells);
        let mut b109 = encoded(&self.offset_to_spell_memorization_info);
        let mut b110 = encoded(&self.count_of_spell_memorization_info);
        let mut b111 = encoded(&self.offset_to_memorized_spell_table);
        let mut b112 = encoded(&self.count_of_memorized_spell_table);
        let mut b113 = encoded(&self.offset_to_item_slots);
        let mut b114 = encoded(&self.offset_to_items);
        let mut b115 = encoded(&self.count_of_items);
        let mut b116 = encoded(&self.offset_to_effects);
        let mut b117 = encoded(&self.count_of_effects);
        let mut b118 = encoded(&self.dialog_ref);
        b117.append(&mut b118);
        b115.append(&mut b116);
        b115.append(&mut b117);
        b113.append(&mut b114);
        b111.append(&mut b112);
        b111.append(&mut b113);
        b111.append(&mut b115);
        b109.append(&mut b110);
        b107.append(&mut b108);
        b107.append(&mut b109);
        b105.append(&mut b106);
        b104.append(&mut b105);
        b104.append(&mut b107);
        b104.append(&mut b111);
        b102.append(&mut b103);
        b100.append(&mut b101);
        b100.append(&mut b102);
        b98.append(&mut b99);
        b96.append(&mut b97);
        b96.append(&mut b98);
        b96.append(&mut b100);
        b94.append(&mut b95);
        b92.append(&mut b93);
        b92.append(&mut b94);
        b90.append(&mut b91);
        b89.append(&mut b90);
        b89.append(&mut b92);
        b89.append(&mut b96);
        b89.append(&mut b104);
        b87.append(&mut b88);
        b85.append(&mut b86);
        b85.append(&mut b87);
        b83.append(&mut b84);
        b81.append(&mut b82);
        b81.append(&mut b83);
        b81.append(&mut b85);
        b79.append(&mut b80);
        b77.append(&mut b78);
        b77.append(&mut b79);
        b75.append(&mut b76);
        b74.append(&mut b75);
        b74.append(&mut b77);
        b74.append(&mut b81);
        b72.append(&mut b73);
        b70.append(&mut b71);
        b70.append(&mut b72);
        b68.append(&mut b69);
        b66.append(&mut b67);
        b66.append(&mut b68);
        b66.append(&mut b70);
        b64.append(&mut b65);
        b62.append(&mut b63);
        b62.append(&mut b64);
        b60.append(&mut b61);
        b59.append(&mut b60);
        b59.append(&mut b62);
        b59.append(&mut b66);
        b59.append(&mut b74);
        b59.append(&mut b89);
        b57.append(&mut b58);
        b55.append(&mut b56);
        b55.append(&mut b57);
        b53.append(&mut b54);
        b51.append(&mut b52);
        b51.append(&mut b53);
        b51.append(&mut b55);
        b49.append(&mut b50);
        b47.append(&mut b48);
        b47.append(&mut b49);
        b45.append(&mut b46);
        b44.append(&mut b45);
        b44.append(&mut b47);
        b44.append(&mut b51);
        b42.append(&mut b43);
        b40.append(&mut b41);
        b40.append(&mut b42);
        b38.append(&mut b39);
        b36.append(&mut b37);
        b36.append(&mut b38);
        b36.append(&mut b40);
        b34.append(&mut b35);
        b32.append(&mut b33);
        b32.append(&mut b34);
        b30.append(&mut b31);
        b29.append(&mut b30);
        b29.append(&mut b32);
        b29.append(&mut b36);
        b29.append(&mut b44);
        b27.append(&mut b28);
        b25.append(&mut b26);
        b25.append(&mut b27);
        b23.append(&mut b24);
        b21.append(&mut b22);
        b21.append(&mut b23);
        b21.append(&mut b25);
        b19.append(&mut b20);
        b17.append(&mut b18);
        b17.append(&mut b19);
        b15.append(&mut b16);
        b14.append(&mut b15);
        b14.append(&mut b17);
        b14.append(&mut b21);
        b12.append(&mut b13);
        b10.append(&mut b11);
        b10.append(&mut b12);
        b8.append(&mut b9);
        b7.append(&mut b8);
        b7.append(&mut b10);
        b5.append(&mut b6);
        b3.append(&mut b4);
        b3.append(&mut b5);
        b1.append(&mut b2);
        b0.append(&mut b1);
        b0.append(&mut b3);
        b0.append(&mut b7);
        b0.append(&mut b14);
        b0.append(&mut b29);
        b0.append(&mut b59);
        out.append(&mut b0);
    }
}

/// A creature: its header, the tables the header places, its item slots,
/// and the bytes it was read from.
/// <https://gibberlings3.github.io/iesdp/file_formats/ie_formats/cre_v1.htm>
#[derive(Debug, PartialEq)]
pub struct Creature {
    /// The file from where the creature starts to its end.
    pub original_bytes: Vec<u8>,
    pub header: BGEECreatureHeader,
    pub known_spells: Vec<KnownSpells>,
    pub memorized_spell_info: Vec<SpellMemorizationInfo>,
    pub memorized_spells: Vec<SpellMemorizationTable>,
    /// The effects, when the header says they are stored as version 1 (0).
    pub effects_v1: Vec<EffectV1>,
    /// The effects, when the header says they are stored as version 2 (1).
    pub effects_v2: Vec<EffectV2Body>,
    pub item_table: Vec<ItemReferenceTable>,
    pub item_slots: Option<ItemSlots>,
}

impl Creature {
    /// The number of effects stored in the given layout (0: version 1, 1: version 2).
    pub open spec fn effect_count(h: BGEECreatureHeader, layout: u8) -> int {
        if h.effstructure == layout { h.count_of_effects as int } else { 0 }
    }

    /// A creature can be read at `start` of `buffer`: its header fits there and
    /// the tables it places (at offsets from the start of `buffer`) fit too.
    #[verifier::opaque]
    pub open spec fn parses_at(buffer: Seq<u8>, start: int) -> bool {
        let h = decoded_at::<BGEECreatureHeader>(buffer, start);
        let len = buffer.len();
        &&& 0 <= start
        &&& start + BGEECreatureHeader::width() <= len
        &&& section_ok(len, h.offset_to_known_spells as int, h.count_of_known_spells as int, KnownSpells::width())
        &&& section_ok(len, h.offset_to_spell_memorization_info as int, h.count_of_spell_memorization_info as int, SpellMemorizationInfo::width())
        &&& section_ok(len, h.offset_to_memorized_spell_table as int, h.count_of_memorized_spell_table as int, SpellMemorizationTable::width())
        &&& section_ok(len, h.offset_to_effects as int, Creature::effect_count(h, 0), EffectV1::width())
        &&& section_ok(len, h.offset_to_effects as int, Creature::effect_count(h, 1), EffectV2Body::width())
        &&& section_ok(len, h.offset_to_items as int, h.count_of_items as int, ItemReferenceTable::width())
        &&& h.offset_to_item_slots + ItemSlots::width() <= len
    }

    /// `self` is the creature read at `start` of `buffer`.
    #[verifier::opaque]
    pub open spec fn parsed_at(&self, buffer: Seq<u8>, start: int) -> bool {
        let h = self.header;
        &&& self.original_bytes@ == buffer.subrange(start, buffer.len() as int)
        &&& record_parsed(h, buffer, start)
        &&& section_parsed(self.known_spells@, buffer, h.offset_to_known_spells as int, h.count_of_known_spells as int)
        &&& section_parsed(self.memorized_spell_info@, buffer, h.offset_to_spell_memorization_info as int, h.count_of_spell_memorization_info as int)
        &&& section_parsed(self.memorized_spells@, buffer, h.offset_to_memorized_spell_table as int, h.count_of_memorized_spell_table as int)
        &&& section_parsed(self.effects_v1@, buffer, h.offset_to_effects as int, Creature::effect_count(h, 0))
        &&& section_parsed(self.effects_v2@, buffer, h.offset_to_effects as int, Creature::effect_count(h, 1))
        &&& section_parsed(self.item_table@, buffer, h.offset_to_items as int, h.count_of_items as int)
        &&& self.item_slots matches Some(slots) && record_parsed(slots, buffer, h.offset_to_item_slots as int)
    }

    /// Reads a creature that starts at `start` of `buffer`; the tables are
    /// found at their offsets from the start of `buffer`.
    pub fn parse_at(buffer: &[u8], start: usize) -> (r: Option<Self>)
        ensures
            r is Some <==> Creature::parses_at(buffer@, start as int),
            r matches Some(c) ==> c.parsed_at(buffer@, start as int),
    {
        reveal(Creature::parses_at);
        reveal(Creature::parsed_at);
        let header = match read_at::<BGEECreatureHeader>(buffer, start as u64) {
            Some(h) => h,
            None => return None,
        };
        proof {
            lemma_decoded_at(buffer@, start as int, header);
        }
        let known_spells = match read_section::<KnownSpells>(buffer, header.offset_to_known_spells as u64, header.count_of_known_spells as u64) {
            Some(v) => v,
            None => return None,
        };
        let memorized_spell_info = match read_section::<SpellMemorizationInfo>(buffer, header.offset_to_spell_memorization_info as u64, header.count_of_spell_memorization_info as u64) {
            Some(v) => v,
            None => return None,
        };
        let memorized_spells = match read_section::<SpellMemorizationTable>(buffer, header.offset_to_memorized_spell_table as u64, header.count_of_memorized_spell_table as u64) {
            Some(v) => v,
            None => return None,
        };
        let v1_count: u64 = if header.effstructure == 0 { header.count_of_effects as u64 } else { 0 };
        let effects_v1 = match read_section::<EffectV1>(buffer, header.offset_to_effects as u64, v1_count) {
            Some(v) => v,
            None => return None,
        };
        let v2_count: u64 = if header.effstructure == 1 { header.count_of_effects as u64 } else { 0 };
        let effects_v2 = match read_section::<EffectV2Body>(buffer, header.offset_to_effects as u64, v2_count) {
            Some(v) => v,
            None => return None,
        };
        let item_table = match read_section::<ItemReferenceTable>(buffer, header.offset_to_items as u64, header.count_of_items as u64) {
            Some(v) => v,
            None => return None,
        };
        let slots = match read_at::<ItemSlots>(buffer, header.offset_to_item_slots as u64) {
            Some(v) => v,
            None => return None,
        };
        let original_bytes = vstd::slice::slice_to_vec(vstd::slice::slice_subrange(buffer, start, buffer.len()));
        Some(Creature {
            original_bytes,
            header,
            known_spells,
            memorized_spell_info,
            memorized_spells,
            effects_v1,
            effects_v2,
            item_table,
            item_slots: Some(slots),
        })
    }

    /// The bytes a creature is written as: the bytes it was read from.
    pub open spec fn written(&self) -> Seq<u8> {
        self.original_bytes@
    }

    /// Appends the bytes the creature was read from.
    pub fn write_to(&self, out: &mut Vec<u8>)
        ensures
            final(out)@ == old(out)@ + self.written(),
    {
        append_bytes(out, self.original_bytes.as_slice());
    }
}

impl Model for Creature {
    open spec fn spec_parses(buffer: Seq<u8>) -> bool {
        Creature::parses_at(buffer, 0)
    }

    open spec fn parsed_from(&self, buffer: Seq<u8>) -> bool {
        self.parsed_at(buffer, 0)
    }

    open spec fn spec_writable(&self) -> bool {
        true
    }

    fn writable(&self) -> (b: bool) {
        true
    }

    open spec fn spec_bytes(&self) -> Seq<u8> {
        self.written()
    }

    fn parse(buffer: &[u8]) -> (r: Option<Self>) {
        Creature::parse_at(buffer, 0)
    }

    fn to_bytes(&self) -> (b: Vec<u8>) {
        let mut out = Vec::new();
        self.write_to(&mut out);
        assert(out@ =~= self.written());
        out
    }
}

} // verus!
