//! Saved games (GAM V2.0).
use vstd::prelude::*;

use crate::common::binary::{Codec, check_all_wf, enc_seq, all_wf, seq_same, lemma_subrange_concat, lemma_concat_peel, lemma_enc_seq_len, lemma_enc_seq_injective, decode_vec, decode_array, encoded, encoded_slice, decoded_at, lemma_decoded_at, record_parsed, section_parsed, section_entries, lemma_section_entries, read_at, read_section, read_until_eof, section_ok, until_eof_count};
use crate::common::char_array::CharArray;
use crate::common::header::Header;
use crate::common::strref::Strref;
use crate::common::Resref;
use crate::common::parsers::rest;
use crate::creature::Creature;
use crate::model::Model;

verus! {

/// https://gibberlings3.github.io/iesdp/file_formats/ie_formats/gam_v2.0.htm#GAMEV2_0_Stats
#[derive(Debug, Clone, PartialEq)]
pub struct CharacterKillStats {
    pub most_powerful_vanquished_name: Strref,
    pub most_powerful_vanquished_xp_reward: u32,
    /// 1/15 seconds
    pub time_in_party: u32,
    /// 1/15 seconds
    pub time_joined: u32,
    /// 0 = not in party, 1 = in party
    pub party_member: u8,
    pub unused: u16,
    /// changed to *
    pub first_letter_of_cre_resref: u8,
    pub chapter_kills_xp_gained: u32,
    pub chapter_kills_number: u32,
    pub game_kills_xp_gained: u32,
    pub game_kills_number: u32,
    pub favourite_spells: Vec<Resref>,
    pub favourite_spell_count: Vec<u16>,
    pub favourite_weapons: Vec<Resref>,
    /// time equipped in combat - 1/15 seconds
    pub favourite_weapon_time: Vec<u16>,
}

impl CharacterKillStats {
    /// Encoding of the fields 0 to 14, in order.
    pub open spec fn bytes_0_15(&self) -> Seq<u8> {
        self.bytes_0_7() + self.bytes_7_15()
    }

    /// Encoding of the fields 0 to 6, in order.
    pub open spec fn bytes_0_7(&self) -> Seq<u8> {
        self.bytes_0_3() + self.bytes_3_7()
    }

    /// Encoding of the fields 0 to 2, in order.
    pub open spec fn bytes_0_3(&self) -> Seq<u8> {
        self.most_powerful_vanquished_name.enc() + self.bytes_1_3()
    }

    /// Encoding of the fields 1 to 2, in order.
    pub open spec fn bytes_1_3(&self) -> Seq<u8> {
        self.most_powerful_vanquished_xp_reward.enc() + self.time_in_party.enc()
    }

    /// Encoding of the fields 3 to 6, in order.
    pub open spec fn bytes_3_7(&self) -> Seq<u8> {
        self.bytes_3_5() + self.bytes_5_7()
    }

    /// Encoding of the fields 3 to 4, in order.
    pub open spec fn bytes_3_5(&self) -> Seq<u8> {
        self.time_joined.enc() + self.party_member.enc()
    }

    /// Encoding of the fields 5 to 6, in order.
    pub open spec fn bytes_5_7(&self) -> Seq<u8> {
        self.unused.enc() + self.first_letter_of_cre_resref.enc()
    }

    /// Encoding of the fields 7 to 14, in order.
    pub open spec fn bytes_7_15(&self) -> Seq<u8> {
        self.bytes_7_11() + self.bytes_11_15()
    }

    /// Encoding of the fields 7 to 10, in order.
    pub open spec fn bytes_7_11(&self) -> Seq<u8> {
        self.bytes_7_9() + self.bytes_9_11()
    }

    /// Encoding of the fields 7 to 8, in order.
    pub open spec fn bytes_7_9(&self) -> Seq<u8> {
        self.chapter_kills_xp_gained.enc() + self.chapter_kills_number.enc()
    }

    /// Encoding of the fields 9 to 10, in order.
    pub open spec fn bytes_9_11(&self) -> Seq<u8> {
        self.game_kills_xp_gained.enc() + self.game_kills_number.enc()
    }

    /// Encoding of the fields 11 to 14, in order.
    pub open spec fn bytes_11_15(&self) -> Seq<u8> {
        self.bytes_11_13() + self.bytes_13_15()
    }

    /// Encoding of the fields 11 to 12, in order.
    pub open spec fn bytes_11_13(&self) -> Seq<u8> {
        enc_seq(self.favourite_spells@) + enc_seq(self.favourite_spell_count@)
    }

    /// Encoding of the fields 13 to 14, in order.
    pub open spec fn bytes_13_15(&self) -> Seq<u8> {
        enc_seq(self.favourite_weapons@) + enc_seq(self.favourite_weapon_time@)
    }
}

impl Codec for CharacterKillStats {
    open spec fn width() -> nat {
        116
    }

    open spec fn enc(&self) -> Seq<u8> {
        self.bytes_0_15()
    }

    open spec fn wf(&self) -> bool {
        &&& self.favourite_spells@.len() == 4
        &&& all_wf(self.favourite_spells@)
        &&& self.favourite_spell_count@.len() == 4
        &&& all_wf(self.favourite_spell_count@)
        &&& self.favourite_weapons@.len() == 4
        &&& all_wf(self.favourite_weapons@)
        &&& self.favourite_weapon_time@.len() == 4
        &&& all_wf(self.favourite_weapon_time@)
    }

    open spec fn same(&self, other: &Self) -> bool {
        &&& self.most_powerful_vanquished_name.same(&other.most_powerful_vanquished_name)
        &&& self.most_powerful_vanquished_xp_reward == other.most_powerful_vanquished_xp_reward
        &&& self.time_in_party == other.time_in_party
        &&& self.time_joined == other.time_joined
        &&& self.party_member == other.party_member
        &&& self.unused == other.unused
        &&& self.first_letter_of_cre_resref == other.first_letter_of_cre_resref
        &&& self.chapter_kills_xp_gained == other.chapter_kills_xp_gained
        &&& self.chapter_kills_number == other.chapter_kills_number
        &&& self.game_kills_xp_gained == other.game_kills_xp_gained
        &&& self.game_kills_number == other.game_kills_number
        &&& seq_same(self.favourite_spells@, other.favourite_spells@)
        &&& seq_same(self.favourite_spell_count@, other.favourite_spell_count@)
        &&& seq_same(self.favourite_weapons@, other.favourite_weapons@)
        &&& seq_same(self.favourite_weapon_time@, other.favourite_weapon_time@)
    }

    fn byte_width() -> (n: usize) {
        116
    }

    fn check_wf(&self) -> (b: bool) {
        self.favourite_spells.len() == 4 && check_all_wf(self.favourite_spells.as_slice()) && self.favourite_spell_count.len() == 4 && check_all_wf(self.favourite_spell_count.as_slice()) && self.favourite_weapons.len() == 4 && check_all_wf(self.favourite_weapons.as_slice()) && self.favourite_weapon_time.len() == 4 && check_all_wf(self.favourite_weapon_time.as_slice())
    }

    proof fn lemma_enc_len(&self) {
        self.most_powerful_vanquished_name.lemma_enc_len();
        self.most_powerful_vanquished_xp_reward.lemma_enc_len();
        self.time_in_party.lemma_enc_len();
        self.time_joined.lemma_enc_len();
        self.party_member.lemma_enc_len();
        self.unused.lemma_enc_len();
        self.first_letter_of_cre_resref.lemma_enc_len();
        self.chapter_kills_xp_gained.lemma_enc_len();
        self.chapter_kills_number.lemma_enc_len();
        self.game_kills_xp_gained.lemma_enc_len();
        self.game_kills_number.lemma_enc_len();
        lemma_enc_seq_len(self.favourite_spells@);
        lemma_enc_seq_len(self.favourite_spell_count@);
        lemma_enc_seq_len(self.favourite_weapons@);
        lemma_enc_seq_len(self.favourite_weapon_time@);
    }

    proof fn lemma_enc_injective(&self, other: &Self) {
        self.most_powerful_vanquished_name.lemma_enc_len();
        self.most_powerful_vanquished_xp_reward.lemma_enc_len();
        self.time_in_party.lemma_enc_len();
        self.time_joined.lemma_enc_len();
        self.party_member.lemma_enc_len();
        self.unused.lemma_enc_len();
        self.first_letter_of_cre_resref.lemma_enc_len();
        self.chapter_kills_xp_gained.lemma_enc_len();
        self.chapter_kills_number.lemma_enc_len();
        self.game_kills_xp_gained.lemma_enc_len();
        self.game_kills_number.lemma_enc_len();
        lemma_enc_seq_len(self.favourite_spells@);
        lemma_enc_seq_len(self.favourite_spell_count@);
        lemma_enc_seq_len(self.favourite_weapons@);
        lemma_enc_seq_len(self.favourite_weapon_time@);
        other.most_powerful_vanquished_name.lemma_enc_len();
        other.most_powerful_vanquished_xp_reward.lemma_enc_len();
        other.time_in_party.lemma_enc_len();
        other.time_joined.lemma_enc_len();
        other.party_member.lemma_enc_len();
        other.unused.lemma_enc_len();
        other.first_letter_of_cre_resref.lemma_enc_len();
        other.chapter_kills_xp_gained.lemma_enc_len();
        other.chapter_kills_number.lemma_enc_len();
        other.game_kills_xp_gained.lemma_enc_len();
        other.game_kills_number.lemma_enc_len();
        lemma_enc_seq_len(other.favourite_spells@);
        lemma_enc_seq_len(other.favourite_spell_count@);
        lemma_enc_seq_len(other.favourite_weapons@);
        lemma_enc_seq_len(other.favourite_weapon_time@);
        lemma_concat_peel(self.bytes_0_7(), self.bytes_7_15(), other.bytes_0_7(), other.bytes_7_15());
        lemma_concat_peel(self.bytes_0_3(), self.bytes_3_7(), other.bytes_0_3(), other.bytes_3_7());
        lemma_concat_peel(self.most_powerful_vanquished_name.enc(), self.bytes_1_3(), other.most_powerful_vanquished_name.enc(), other.bytes_1_3());
        lemma_concat_peel(self.most_powerful_vanquished_xp_reward.enc(), self.time_in_party.enc(), other.most_powerful_vanquished_xp_reward.enc(), other.time_in_party.enc());
        lemma_concat_peel(self.bytes_3_5(), self.bytes_5_7(), other.bytes_3_5(), other.bytes_5_7());
        lemma_concat_peel(self.time_joined.enc(), self.party_member.enc(), other.time_joined.enc(), other.party_member.enc());
        lemma_concat_peel(self.unused.enc(), self.first_letter_of_cre_resref.enc(), other.unused.enc(), other.first_letter_of_cre_resref.enc());
        lemma_concat_peel(self.bytes_7_11(), self.bytes_11_15(), other.bytes_7_11(), other.bytes_11_15());
        lemma_concat_peel(self.bytes_7_9(), self.bytes_9_11(), other.bytes_7_9(), other.bytes_9_11());
        lemma_concat_peel(self.chapter_kills_xp_gained.enc(), self.chapter_kills_number.enc(), other.chapter_kills_xp_gained.enc(), other.chapter_kills_number.enc());
        lemma_concat_peel(self.game_kills_xp_gained.enc(), self.game_kills_number.enc(), other.game_kills_xp_gained.enc(), other.game_kills_number.enc());
        lemma_concat_peel(self.bytes_11_13(), self.bytes_13_15(), other.bytes_11_13(), other.bytes_13_15());
        lemma_concat_peel(enc_seq(self.favourite_spells@), enc_seq(self.favourite_spell_count@), enc_seq(other.favourite_spells@), enc_seq(other.favourite_spell_count@));
        lemma_concat_peel(enc_seq(self.favourite_weapons@), enc_seq(self.favourite_weapon_time@), enc_seq(other.favourite_weapons@), enc_seq(other.favourite_weapon_time@));
        self.most_powerful_vanquished_name.lemma_enc_injective(&other.most_powerful_vanquished_name);
        self.most_powerful_vanquished_xp_reward.lemma_enc_injective(&other.most_powerful_vanquished_xp_reward);
        self.time_in_party.lemma_enc_injective(&other.time_in_party);
        self.time_joined.lemma_enc_injective(&other.time_joined);
        self.party_member.lemma_enc_injective(&other.party_member);
        self.unused.lemma_enc_injective(&other.unused);
        self.first_letter_of_cre_resref.lemma_enc_injective(&other.first_letter_of_cre_resref);
        self.chapter_kills_xp_gained.lemma_enc_injective(&other.chapter_kills_xp_gained);
        self.chapter_kills_number.lemma_enc_injective(&other.chapter_kills_number);
        self.game_kills_xp_gained.lemma_enc_injective(&other.game_kills_xp_gained);
        self.game_kills_number.lemma_enc_injective(&other.game_kills_number);
        lemma_enc_seq_injective(self.favourite_spells@, other.favourite_spells@);
        lemma_enc_seq_injective(self.favourite_spell_count@, other.favourite_spell_count@);
        lemma_enc_seq_injective(self.favourite_weapons@, other.favourite_weapons@);
        lemma_enc_seq_injective(self.favourite_weapon_time@, other.favourite_weapon_time@);
    }

    fn decode(buf: &[u8], pos: usize) -> (v: Self) {
        let len = buf.len();
        let fld0 = Strref::decode(buf, pos + 0);
        let fld1 = u32::decode(buf, pos + 4);
        let fld2 = u32::decode(buf, pos + 8);
        let fld3 = u32::decode(buf, pos + 12);
        let fld4 = u8::decode(buf, pos + 16);
        let fld5 = u16::decode(buf, pos + 17);
        let fld6 = u8::decode(buf, pos + 19);
        let fld7 = u32::decode(buf, pos + 20);
        let fld8 = u32::decode(buf, pos + 24);
        let fld9 = u32::decode(buf, pos + 28);
        let fld10 = u32::decode(buf, pos + 32);
        let fld11 = decode_vec::<Resref>(buf, pos + 36, 4);
        let fld12 = decode_vec::<u16>(buf, pos + 68, 4);
        let fld13 = decode_vec::<Resref>(buf, pos + 76, 4);
        let fld14 = decode_vec::<u16>(buf, pos + 108, 4);
        let v = CharacterKillStats {
            most_powerful_vanquished_name: fld0,
            most_powerful_vanquished_xp_reward: fld1,
            time_in_party: fld2,
            time_joined: fld3,
            party_member: fld4,
            unused: fld5,
            first_letter_of_cre_resref: fld6,
            chapter_kills_xp_gained: fld7,
            chapter_kills_number: fld8,
            game_kills_xp_gained: fld9,
            game_kills_number: fld10,
            favourite_spells: fld11,
            favourite_spell_count: fld12,
            favourite_weapons: fld13,
            favourite_weapon_time: fld14,
        };
        proof {
            lemma_subrange_concat(buf@, pos + 0, pos + 20, pos + 116);
            lemma_subrange_concat(buf@, pos + 0, pos + 12, pos + 20);
            lemma_subrange_concat(buf@, pos + 0, pos + 4, pos + 12);
            lemma_subrange_concat(buf@, pos + 4, pos + 8, pos + 12);
            lemma_subrange_concat(buf@, pos + 12, pos + 17, pos + 20);
            lemma_subrange_concat(buf@, pos + 12, pos + 16, pos + 17);
            lemma_subrange_concat(buf@, pos + 17, pos + 19, pos + 20);
            lemma_subrange_concat(buf@, pos + 20, pos + 36, pos + 116);
            lemma_subrange_concat(buf@, pos + 20, pos + 28, pos + 36);
            lemma_subrange_concat(buf@, pos + 20, pos + 24, pos + 28);
            lemma_subrange_concat(buf@, pos + 28, pos + 32, pos + 36);
            lemma_subrange_concat(buf@, pos + 36, pos + 76, pos + 116);
            lemma_subrange_concat(buf@, pos + 36, pos + 68, pos + 76);
            lemma_subrange_concat(buf@, pos + 76, pos + 108, pos + 116);
        }
        v
    }

    fn encode(&self, out: &mut Vec<u8>) {
        let mut b0 = encoded(&self.most_powerful_vanquished_name);
        let mut b1 = encoded(&self.most_powerful_vanquished_xp_reward);
        let mut b2 = encoded(&self.time_in_party);
        let mut b3 = encoded(&self.time_joined);
        let mut b4 = encoded(&self.party_member);
        let mut b5 = encoded(&self.unused);
        let mut b6 = encoded(&self.first_letter_of_cre_resref);
        let mut b7 = encoded(&self.chapter_kills_xp_gained);
        let mut b8 = encoded(&self.chapter_kills_number);
        let mut b9 = encoded(&self.game_kills_xp_gained);
        let mut b10 = encoded(&self.game_kills_number);
        let mut b11 = encoded_slice(self.favourite_spells.as_slice());
        let mut b12 = encoded_slice(self.favourite_spell_count.as_slice());
        let mut b13 = encoded_slice(self.favourite_weapons.as_slice());
        let mut b14 = encoded_slice(self.favourite_weapon_time.as_slice());
        b13.append(&mut b14);
        b11.append(&mut b12);
        b11.append(&mut b13);
        b9.append(&mut b10);
        b7.append(&mut b8);
        b7.append(&mut b9);
        b7.append(&mut b11);
        b5.append(&mut b6);
        b3.append(&mut b4);
        b3.append(&mut b5);
        b1.append(&mut b2);
        b0.append(&mut b1);
        b0.append(&mut b3);
        b0.append(&mut b7);
        out.append(&mut b0);
    }
}

/// https://gibberlings3.github.io/iesdp/file_formats/ie_formats/gam_v2.0.htm#GAMEV2_0_NPC
#[derive(Debug, Clone, PartialEq)]
pub struct GameNPC {
    pub character_selection: u16,
    /// x0-0x5 = player_x_fill, 0x_ffff = not in party
    pub party_order: u16,
    pub offset_to_cre_resource: u32,
    pub size_of_cre_resource: u32,
    pub character_name: CharArray<8>,
    pub character_orientation: u32,
    pub characters_current_area: Resref,
    pub character_x_coordinate: u16,
    pub character_y_coordinate: u16,
    pub viewing_rectangle_x_coordinate: u16,
    pub viewing_rectangle_y_coordinate: u16,
    pub modal_action: u16,
    pub happiness: u16,
    /// all of the num times interacted are not used so we just group them
    pub num_times_interacted: [u32; 24],
    /// (0x_ffff = none)
    pub index_of_quick_weapon_1: u16,
    /// (0x_ffff = none)
    pub index_of_quick_weapon_2: u16,
    /// (0x_ffff = none)
    pub index_of_quick_weapon_3: u16,
    /// (0x_ffff = none)
    pub index_of_quick_weapon_4: u16,
    /// (0/1/2 or -1 disabled)
    pub quick_weapon_slot_1_ability: u16,
    /// (0/1/2 or -1 disabled)
    pub quick_weapon_slot_2_ability: u16,
    /// (0/1/2 or -1 disabled)
    pub quick_weapon_slot_3_ability: u16,
    /// (0/1/2 or -1 disabled)
    pub quick_weapon_slot_4_ability: u16,
    pub quick_spell_1_resource: Resref,
    pub quick_spell_2_resource: Resref,
    pub quick_spell_3_resource: Resref,
    /// (0x_ffff = none)
    pub index_of_quick_item_1: u16,
    /// (0x_ffff = none)
    pub index_of_quick_item_2: u16,
    /// (0x_ffff = none)
    pub index_of_quick_item_3: u16,
    /// (0/1/2 or -1 disabled)
    pub quick_item_slot_1_ability: u16,
    /// (0/1/2 or -1 disabled)
    pub quick_item_slot_2_ability: u16,
    /// (0/1/2 or -1 disabled)
    pub quick_item_slot_3_ability: u16,
    pub name: CharArray<32>,
    pub talk_count: u32,
    pub character_kill_stats: CharacterKillStats,
    /// filename prefix for voice set
    pub voice_set: Vec<u8>,
}

impl GameNPC {
    /// Encoding of the fields 0 to 34, in order.
    pub open spec fn bytes_0_35(&self) -> Seq<u8> {
        self.bytes_0_17() + self.bytes_17_35()
    }

    /// Encoding of the fields 0 to 16, in order.
    pub open spec fn bytes_0_17(&self) -> Seq<u8> {
        self.bytes_0_8() + self.bytes_8_17()
    }

    /// Encoding of the fields 0 to 7, in order.
    pub open spec fn bytes_0_8(&self) -> Seq<u8> {
        self.bytes_0_4() + self.bytes_4_8()
    }

    /// Encoding of the fields 0 to 3, in order.
    pub open spec fn bytes_0_4(&self) -> Seq<u8> {
        self.bytes_0_2() + self.bytes_2_4()
    }

    /// Encoding of the fields 0 to 1, in order.
    pub open spec fn bytes_0_2(&self) -> Seq<u8> {
        self.character_selection.enc() + self.party_order.enc()
    }

    /// Encoding of the fields 2 to 3, in order.
    pub open spec fn bytes_2_4(&self) -> Seq<u8> {
        self.offset_to_cre_resource.enc() + self.size_of_cre_resource.enc()
    }

    /// Encoding of the fields 4 to 7, in order.
    pub open spec fn bytes_4_8(&self) -> Seq<u8> {
        self.bytes_4_6() + self.bytes_6_8()
    }

    /// Encoding of the fields 4 to 5, in order.
    pub open spec fn bytes_4_6(&self) -> Seq<u8> {
        self.character_name.enc() + self.character_orientation.enc()
    }

    /// Encoding of the fields 6 to 7, in order.
    pub open spec fn bytes_6_8(&self) -> Seq<u8> {
        self.characters_current_area.enc() + self.character_x_coordinate.enc()
    }

    /// Encoding of the fields 8 to 16, in order.
    pub open spec fn bytes_8_17(&self) -> Seq<u8> {
        self.bytes_8_12() + self.bytes_12_17()
    }

    /// Encoding of the fields 8 to 11, in order.
    pub open spec fn bytes_8_12(&self) -> Seq<u8> {
        self.bytes_8_10() + self.bytes_10_12()
    }

    /// Encoding of the fields 8 to 9, in order.
    pub open spec fn bytes_8_10(&self) -> Seq<u8> {
        self.character_y_coordinate.enc() + self.viewing_rectangle_x_coordinate.enc()
    }

    /// Encoding of the fields 10 to 11, in order.
    pub open spec fn bytes_10_12(&self) -> Seq<u8> {
        self.viewing_rectangle_y_coordinate.enc() + self.modal_action.enc()
    }

    /// Encoding of the fields 12 to 16, in order.
    pub open spec fn bytes_12_17(&self) -> Seq<u8> {
        self.bytes_12_14() + self.bytes_14_17()
    }

    /// Encoding of the fields 12 to 13, in order.
    pub open spec fn bytes_12_14(&self) -> Seq<u8> {
        self.happiness.enc() + enc_seq(self.num_times_interacted@)
    }

    /// Encoding of the fields 14 to 16, in order.
    pub open spec fn bytes_14_17(&self) -> Seq<u8> {
        self.index_of_quick_weapon_1.enc() + self.bytes_15_17()
    }

    /// Encoding of the fields 15 to 16, in order.
    pub open spec fn bytes_15_17(&self) -> Seq<u8> {
        self.index_of_quick_weapon_2.enc() + self.index_of_quick_weapon_3.enc()
    }

    /// Encoding of the fields 17 to 34, in order.
    pub open spec fn bytes_17_35(&self) -> Seq<u8> {
        self.bytes_17_26() + self.bytes_26_35()
    }

    /// Encoding of the fields 17 to 25, in order.
    pub open spec fn bytes_17_26(&self) -> Seq<u8> {
        self.bytes_17_21() + self.bytes_21_26()
    }

    /// Encoding of the fields 17 to 20, in order.
    pub open spec fn bytes_17_21(&self) -> Seq<u8> {
        self.bytes_17_19() + self.bytes_19_21()
    }

    /// Encoding of the fields 17 to 18, in order.
    pub open spec fn bytes_17_19(&self) -> Seq<u8> {
        self.index_of_quick_weapon_4.enc() + self.quick_weapon_slot_1_ability.enc()
    }

    /// Encoding of the fields 19 to 20, in order.
    pub open spec fn bytes_19_21(&self) -> Seq<u8> {
        self.quick_weapon_slot_2_ability.enc() + self.quick_weapon_slot_3_ability.enc()
    }

    /// Encoding of the fields 21 to 25, in order.
    pub open spec fn bytes_21_26(&self) -> Seq<u8> {
        self.bytes_21_23() + self.bytes_23_26()
    }

    /// Encoding of the fields 21 to 22, in order.
    pub open spec fn bytes_21_23(&self) -> Seq<u8> {
        self.quick_weapon_slot_4_ability.enc() + self.quick_spell_1_resource.enc()
    }

    /// Encoding of the fields 23 to 25, in order.
    pub open spec fn bytes_23_26(&self) -> Seq<u8> {
        self.quick_spell_2_resource.enc() + self.bytes_24_26()
    }

    /// Encoding of the fields 24 to 25, in order.
    pub open spec fn bytes_24_26(&self) -> Seq<u8> {
        self.quick_spell_3_resource.enc() + self.index_of_quick_item_1.enc()
    }

    /// Encoding of the fields 26 to 34, in order.
    pub open spec fn bytes_26_35(&self) -> Seq<u8> {
        self.bytes_26_30() + self.bytes_30_35()
    }

    /// Encoding of the fields 26 to 29, in order.
    pub open spec fn bytes_26_30(&self) -> Seq<u8> {
        self.bytes_26_28() + self.bytes_28_30()
    }

    /// Encoding of the fields 26 to 27, in order.
    pub open spec fn bytes_26_28(&self) -> Seq<u8> {
        self.index_of_quick_item_2.enc() + self.index_of_quick_item_3.enc()
    }

    /// Encoding of the fields 28 to 29, in order.
    pub open spec fn bytes_28_30(&self) -> Seq<u8> {
        self.quick_item_slot_1_ability.enc() + self.quick_item_slot_2_ability.enc()
    }

    /// Encoding of the fields 30 to 34, in order.
    pub open spec fn bytes_30_35(&self) -> Seq<u8> {
        self.bytes_30_32() + self.bytes_32_35()
    }

    /// Encoding of the fields 30 to 31, in order.
    pub open spec fn bytes_30_32(&self) -> Seq<u8> {
        self.quick_item_slot_3_ability.enc() + self.name.enc()
    }

    /// Encoding of the fields 32 to 34, in order.
    pub open spec fn bytes_32_35(&self) -> Seq<u8> {
        self.talk_count.enc() + self.bytes_33_35()
    }

    /// Encoding of the fields 33 to 34, in order.
    pub open spec fn bytes_33_35(&self) -> Seq<u8> {
        self.character_kill_stats.enc() + enc_seq(self.voice_set@)
    }
}

impl Codec for GameNPC {
    open spec fn width() -> nat {
        352
    }

    open spec fn enc(&self) -> Seq<u8> {
        self.bytes_0_35()
    }

    open spec fn wf(&self) -> bool {
        &&& all_wf(self.num_times_interacted@)
        &&& self.character_kill_stats.wf()
        &&& self.voice_set@.len() == 8
        &&& all_wf(self.voice_set@)
    }

    open spec fn same(&self, other: &Self) -> bool {
        &&& self.character_selection == other.character_selection
        &&& self.party_order == other.party_order
        &&& self.offset_to_cre_resource == other.offset_to_cre_resource
        &&& self.size_of_cre_resource == other.size_of_cre_resource
        &&& self.character_name.same(&other.character_name)
        &&& self.character_orientation == other.character_orientation
        &&& self.characters_current_area.same(&other.characters_current_area)
        &&& self.character_x_coordinate == other.character_x_coordinate
        &&& self.character_y_coordinate == other.character_y_coordinate
        &&& self.viewing_rectangle_x_coordinate == other.viewing_rectangle_x_coordinate
        &&& self.viewing_rectangle_y_coordinate == other.viewing_rectangle_y_coordinate
        &&& self.modal_action == other.modal_action
        &&& self.happiness == other.happiness
        &&& seq_same(self.num_times_interacted@, other.num_times_interacted@)
        &&& self.index_of_quick_weapon_1 == other.index_of_quick_weapon_1
        &&& self.index_of_quick_weapon_2 == other.index_of_quick_weapon_2
        &&& self.index_of_quick_weapon_3 == other.index_of_quick_weapon_3
        &&& self.index_of_quick_weapon_4 == other.index_of_quick_weapon_4
        &&& self.quick_weapon_slot_1_ability == other.quick_weapon_slot_1_ability
        &&& self.quick_weapon_slot_2_ability == other.quick_weapon_slot_2_ability
        &&& self.quick_weapon_slot_3_ability == other.quick_weapon_slot_3_ability
        &&& self.quick_weapon_slot_4_ability == other.quick_weapon_slot_4_ability
        &&& self.quick_spell_1_resource.same(&other.quick_spell_1_resource)
        &&& self.quick_spell_2_resource.same(&other.quick_spell_2_resource)
        &&& self.quick_spell_3_resource.same(&other.quick_spell_3_resource)
        &&& self.index_of_quick_item_1 == other.index_of_quick_item_1
        &&& self.index_of_quick_item_2 == other.index_of_quick_item_2
        &&& self.index_of_quick_item_3 == other.index_of_quick_item_3
        &&& self.quick_item_slot_1_ability == other.quick_item_slot_1_ability
        &&& self.quick_item_slot_2_ability == other.quick_item_slot_2_ability
        &&& self.quick_item_slot_3_ability == other.quick_item_slot_3_ability
        &&& self.name.same(&other.name)
        &&& self.talk_count == other.talk_count
        &&& self.character_kill_stats.same(&other.character_kill_stats)
        &&& seq_same(self.voice_set@, other.voice_set@)
    }

    fn byte_width() -> (n: usize) {
        352
    }

    fn check_wf(&self) -> (b: bool) {
        check_all_wf(self.num_times_interacted.as_slice()) && self.character_kill_stats.check_wf() && self.voice_set.len() == 8 && check_all_wf(self.voice_set.as_slice())
    }

    proof fn lemma_enc_len(&self) {
        self.character_selection.lemma_enc_len();
        self.party_order.lemma_enc_len();
        self.offset_to_cre_resource.lemma_enc_len();
        self.size_of_cre_resource.lemma_enc_len();
        self.character_name.lemma_enc_len();
        self.character_orientation.lemma_enc_len();
        self.characters_current_area.lemma_enc_len();
        self.character_x_coordinate.lemma_enc_len();
        self.character_y_coordinate.lemma_enc_len();
        self.viewing_rectangle_x_coordinate.lemma_enc_len();
        self.viewing_rectangle_y_coordinate.lemma_enc_len();
        self.modal_action.lemma_enc_len();
        self.happiness.lemma_enc_len();
        lemma_enc_seq_len(self.num_times_interacted@);
        self.index_of_quick_weapon_1.lemma_enc_len();
        self.index_of_quick_weapon_2.lemma_enc_len();
        self.index_of_quick_weapon_3.lemma_enc_len();
        self.index_of_quick_weapon_4.lemma_enc_len();
        self.quick_weapon_slot_1_ability.lemma_enc_len();
        self.quick_weapon_slot_2_ability.lemma_enc_len();
        self.quick_weapon_slot_3_ability.lemma_enc_len();
        self.quick_weapon_slot_4_ability.lemma_enc_len();
        self.quick_spell_1_resource.lemma_enc_len();
        self.quick_spell_2_resource.lemma_enc_len();
        self.quick_spell_3_resource.lemma_enc_len();
        self.index_of_quick_item_1.lemma_enc_len();
        self.index_of_quick_item_2.lemma_enc_len();
        self.index_of_quick_item_3.lemma_enc_len();
        self.quick_item_slot_1_ability.lemma_enc_len();
        self.quick_item_slot_2_ability.lemma_enc_len();
        self.quick_item_slot_3_ability.lemma_enc_len();
        self.name.lemma_enc_len();
        self.talk_count.lemma_enc_len();
        self.character_kill_stats.lemma_enc_len();
        lemma_enc_seq_len(self.voice_set@);
    }

    proof fn lemma_enc_injective(&self, other: &Self) {
        self.character_selection.lemma_enc_len();
        self.party_order.lemma_enc_len();
        self.offset_to_cre_resource.lemma_enc_len();
        self.size_of_cre_resource.lemma_enc_len();
        self.character_name.lemma_enc_len();
        self.character_orientation.lemma_enc_len();
        self.characters_current_area.lemma_enc_len();
        self.character_x_coordinate.lemma_enc_len();
        self.character_y_coordinate.lemma_enc_len();
        self.viewing_rectangle_x_coordinate.lemma_enc_len();
        self.viewing_rectangle_y_coordinate.lemma_enc_len();
        self.modal_action.lemma_enc_len();
        self.happiness.lemma_enc_len();
        lemma_enc_seq_len(self.num_times_interacted@);
        self.index_of_quick_weapon_1.lemma_enc_len();
        self.index_of_quick_weapon_2.lemma_enc_len();
        self.index_of_quick_weapon_3.lemma_enc_len();
        self.index_of_quick_weapon_4.lemma_enc_len();
        self.quick_weapon_slot_1_ability.lemma_enc_len();
        self.quick_weapon_slot_2_ability.lemma_enc_len();
        self.quick_weapon_slot_3_ability.lemma_enc_len();
        self.quick_weapon_slot_4_ability.lemma_enc_len();
        self.quick_spell_1_resource.lemma_enc_len();
        self.quick_spell_2_resource.lemma_enc_len();
        self.quick_spell_3_resource.lemma_enc_len();
        self.index_of_quick_item_1.lemma_enc_len();
        self.index_of_quick_item_2.lemma_enc_len();
        self.index_of_quick_item_3.lemma_enc_len();
        self.quick_item_slot_1_ability.lemma_enc_len();
        self.quick_item_slot_2_ability.lemma_enc_len();
        self.quick_item_slot_3_ability.lemma_enc_len();
        self.name.lemma_enc_len();
        self.talk_count.lemma_enc_len();
        self.character_kill_stats.lemma_enc_len();
        lemma_enc_seq_len(self.voice_set@);
        other.character_selection.lemma_enc_len();
        other.party_order.lemma_enc_len();
        other.offset_to_cre_resource.lemma_enc_len();
        other.size_of_cre_resource.lemma_enc_len();
        other.character_name.lemma_enc_len();
        other.character_orientation.lemma_enc_len();
        other.characters_current_area.lemma_enc_len();
        other.character_x_coordinate.lemma_enc_len();
        other.character_y_coordinate.lemma_enc_len();
        other.viewing_rectangle_x_coordinate.lemma_enc_len();
        other.viewing_rectangle_y_coordinate.lemma_enc_len();
        other.modal_action.lemma_enc_len();
        other.happiness.lemma_enc_len();
        lemma_enc_seq_len(other.num_times_interacted@);
        other.index_of_quick_weapon_1.lemma_enc_len();
        other.index_of_quick_weapon_2.lemma_enc_len();
        other.index_of_quick_weapon_3.lemma_enc_len();
        other.index_of_quick_weapon_4.lemma_enc_len();
        other.quick_weapon_slot_1_ability.lemma_enc_len();
        other.quick_weapon_slot_2_ability.lemma_enc_len();
        other.quick_weapon_slot_3_ability.lemma_enc_len();
        other.quick_weapon_slot_4_ability.lemma_enc_len();
        other.quick_spell_1_resource.lemma_enc_len();
        other.quick_spell_2_resource.lemma_enc_len();
        other.quick_spell_3_resource.lemma_enc_len();
        other.index_of_quick_item_1.lemma_enc_len();
        other.index_of_quick_item_2.lemma_enc_len();
        other.index_of_quick_item_3.lemma_enc_len();
        other.quick_item_slot_1_ability.lemma_enc_len();
        other.quick_item_slot_2_ability.lemma_enc_len();
        other.quick_item_slot_3_ability.lemma_enc_len();
        other.name.lemma_enc_len();
        other.talk_count.lemma_enc_len();
        other.character_kill_stats.lemma_enc_len();
        lemma_enc_seq_len(other.voice_set@);
        lemma_concat_peel(self.bytes_0_17(), self.bytes_17_35(), other.bytes_0_17(), other.bytes_17_35());
        lemma_concat_peel(self.bytes_0_8(), self.bytes_8_17(), other.bytes_0_8(), other.bytes_8_17());
        lemma_concat_peel(self.bytes_0_4(), self.bytes_4_8(), other.bytes_0_4(), other.bytes_4_8());
        lemma_concat_peel(self.bytes_0_2(), self.bytes_2_4(), other.bytes_0_2(), other.bytes_2_4());
        lemma_concat_peel(self.character_selection.enc(), self.party_order.enc(), other.character_selection.enc(), other.party_order.enc());
        lemma_concat_peel(self.offset_to_cre_resource.enc(), self.size_of_cre_resource.enc(), other.offset_to_cre_resource.enc(), other.size_of_cre_resource.enc());
        lemma_concat_peel(self.bytes_4_6(), self.bytes_6_8(), other.bytes_4_6(), other.bytes_6_8());
        lemma_concat_peel(self.character_name.enc(), self.character_orientation.enc(), other.character_name.enc(), other.character_orientation.enc());
        lemma_concat_peel(self.characters_current_area.enc(), self.character_x_coordinate.enc(), other.characters_current_area.enc(), other.character_x_coordinate.enc());
        lemma_concat_peel(self.bytes_8_12(), self.bytes_12_17(), other.bytes_8_12(), other.bytes_12_17());
        lemma_concat_peel(self.bytes_8_10(), self.bytes_10_12(), other.bytes_8_10(), other.bytes_10_12());
        lemma_concat_peel(self.character_y_coordinate.enc(), self.viewing_rectangle_x_coordinate.enc(), other.character_y_coordinate.enc(), other.viewing_rectangle_x_coordinate.enc());
        lemma_concat_peel(self.viewing_rectangle_y_coordinate.enc(), self.modal_action.enc(), other.viewing_rectangle_y_coordinate.enc(), other.modal_action.enc());
        lemma_concat_peel(self.bytes_12_14(), self.bytes_14_17(), other.bytes_12_14(), other.bytes_14_17());
        lemma_concat_peel(self.happiness.enc(), enc_seq(self.num_times_interacted@), other.happiness.enc(), enc_seq(other.num_times_interacted@));
        lemma_concat_peel(self.index_of_quick_weapon_1.enc(), self.bytes_15_17(), other.index_of_quick_weapon_1.enc(), other.bytes_15_17());
        lemma_concat_peel(self.index_of_quick_weapon_2.enc(), self.index_of_quick_weapon_3.enc(), other.index_of_quick_weapon_2.enc(), other.index_of_quick_weapon_3.enc());
        lemma_concat_peel(self.bytes_17_26(), self.bytes_26_35(), other.bytes_17_26(), other.bytes_26_35());
        lemma_concat_peel(self.bytes_17_21(), self.bytes_21_26(), other.bytes_17_21(), other.bytes_21_26());
        lemma_concat_peel(self.bytes_17_19(), self.bytes_19_21(), other.bytes_17_19(), other.bytes_19_21());
        lemma_concat_peel(self.index_of_quick_weapon_4.enc(), self.quick_weapon_slot_1_ability.enc(), other.index_of_quick_weapon_4.enc(), other.quick_weapon_slot_1_ability.enc());
        lemma_concat_peel(self.quick_weapon_slot_2_ability.enc(), self.quick_weapon_slot_3_ability.enc(), other.quick_weapon_slot_2_ability.enc(), other.quick_weapon_slot_3_ability.enc());
        lemma_concat_peel(self.bytes_21_23(), self.bytes_23_26(), other.bytes_21_23(), other.bytes_23_26());
        lemma_concat_peel(self.quick_weapon_slot_4_ability.enc(), self.quick_spell_1_resource.enc(), other.quick_weapon_slot_4_ability.enc(), other.quick_spell_1_resource.enc());
        lemma_concat_peel(self.quick_spell_2_resource.enc(), self.bytes_24_26(), other.quick_spell_2_resource.enc(), other.bytes_24_26());
        lemma_concat_peel(self.quick_spell_3_resource.enc(), self.index_of_quick_item_1.enc(), other.quick_spell_3_resource.enc(), other.index_of_quick_item_1.enc());
        lemma_concat_peel(self.bytes_26_30(), self.bytes_30_35(), other.bytes_26_30(), other.bytes_30_35());
        lemma_concat_peel(self.bytes_26_28(), self.bytes_28_30(), other.bytes_26_28(), other.bytes_28_30());
        lemma_concat_peel(self.index_of_quick_item_2.enc(), self.index_of_quick_item_3.enc(), other.index_of_quick_item_2.enc(), other.index_of_quick_item_3.enc());
        lemma_concat_peel(self.quick_item_slot_1_ability.enc(), self.quick_item_slot_2_ability.enc(), other.quick_item_slot_1_ability.enc(), other.quick_item_slot_2_ability.enc());
        lemma_concat_peel(self.bytes_30_32(), self.bytes_32_35(), other.bytes_30_32(), other.bytes_32_35());
        lemma_concat_peel(self.quick_item_slot_3_ability.enc(), self.name.enc(), other.quick_item_slot_3_ability.enc(), other.name.enc());
        lemma_concat_peel(self.talk_count.enc(), self.bytes_33_35(), other.talk_count.enc(), other.bytes_33_35());
        lemma_concat_peel(self.character_kill_stats.enc(), enc_seq(self.voice_set@), other.character_kill_stats.enc(), enc_seq(other.voice_set@));
        self.character_selection.lemma_enc_injective(&other.character_selection);
        self.party_order.lemma_enc_injective(&other.party_order);
        self.offset_to_cre_resource.lemma_enc_injective(&other.offset_to_cre_resource);
        self.size_of_cre_resource.lemma_enc_injective(&other.size_of_cre_resource);
        self.character_name.lemma_enc_injective(&other.character_name);
        self.character_orientation.lemma_enc_injective(&other.character_orientation);
        self.characters_current_area.lemma_enc_injective(&other.characters_current_area);
        self.character_x_coordinate.lemma_enc_injective(&other.character_x_coordinate);
        self.character_y_coordinate.lemma_enc_injective(&other.character_y_coordinate);
        self.viewing_rectangle_x_coordinate.lemma_enc_injective(&other.viewing_rectangle_x_coordinate);
        self.viewing_rectangle_y_coordinate.lemma_enc_injective(&other.viewing_rectangle_y_coordinate);
        self.modal_action.lemma_enc_injective(&other.modal_action);
        self.happiness.lemma_enc_injective(&other.happiness);
        lemma_enc_seq_injective(self.num_times_interacted@, other.num_times_interacted@);
        self.index_of_quick_weapon_1.lemma_enc_injective(&other.index_of_quick_weapon_1);
        self.index_of_quick_weapon_2.lemma_enc_injective(&other.index_of_quick_weapon_2);
        self.index_of_quick_weapon_3.lemma_enc_injective(&other.index_of_quick_weapon_3);
        self.index_of_quick_weapon_4.lemma_enc_injective(&other.index_of_quick_weapon_4);
        self.quick_weapon_slot_1_ability.lemma_enc_injective(&other.quick_weapon_slot_1_ability);
        self.quick_weapon_slot_2_ability.lemma_enc_injective(&other.quick_weapon_slot_2_ability);
        self.quick_weapon_slot_3_ability.lemma_enc_injective(&other.quick_weapon_slot_3_ability);
        self.quick_weapon_slot_4_ability.lemma_enc_injective(&other.quick_weapon_slot_4_ability);
        self.quick_spell_1_resource.lemma_enc_injective(&other.quick_spell_1_resource);
        self.quick_spell_2_resource.lemma_enc_injective(&other.quick_spell_2_resource);
        self.quick_spell_3_resource.lemma_enc_injective(&other.quick_spell_3_resource);
        self.index_of_quick_item_1.lemma_enc_injective(&other.index_of_quick_item_1);
        self.index_of_quick_item_2.lemma_enc_injective(&other.index_of_quick_item_2);
        self.index_of_quick_item_3.lemma_enc_injective(&other.index_of_quick_item_3);
        self.quick_item_slot_1_ability.lemma_enc_injective(&other.quick_item_slot_1_ability);
        self.quick_item_slot_2_ability.lemma_enc_injective(&other.quick_item_slot_2_ability);
        self.quick_item_slot_3_ability.lemma_enc_injective(&other.quick_item_slot_3_ability);
        self.name.lemma_enc_injective(&other.name);
        self.talk_count.lemma_enc_injective(&other.talk_count);
        self.character_kill_stats.lemma_enc_injective(&other.character_kill_stats);
        lemma_enc_seq_injective(self.voice_set@, other.voice_set@);
    }

    #[verifier::rlimit(100)]
    #[verifier::spinoff_prover]
    fn decode(buf: &[u8], pos: usize) -> (v: Self) {
        let len = buf.len();
        let fld0 = u16::decode(buf, pos + 0);
        let fld1 = u16::decode(buf, pos + 2);
        let fld2 = u32::decode(buf, pos + 4);
        let fld3 = u32::decode(buf, pos + 8);
        let fld4 = <CharArray<8>>::decode(buf, pos + 12);
        let fld5 = u32::decode(buf, pos + 20);
        let fld6 = Resref::decode(buf, pos + 24);
        let fld7 = u16::decode(buf, pos + 32);
        let fld8 = u16::decode(buf, pos + 34);
        let fld9 = u16::decode(buf, pos + 36);
        let fld10 = u16::decode(buf, pos + 38);
        let fld11 = u16::decode(buf, pos + 40);
        let fld12 = u16::decode(buf, pos + 42);
        let fld13: [u32; 24] = decode_array(buf, pos + 44, 0u32);
        let fld14 = u16::decode(buf, pos + 140);
        let fld15 = u16::decode(buf, pos + 142);
        let fld16 = u16::decode(buf, pos + 144);
        let fld17 = u16::decode(buf, pos + 146);
        let fld18 = u16::decode(buf, pos + 148);
        let fld19 = u16::decode(buf, pos + 150);
        let fld20 = u16::decode(buf, pos + 152);
        let fld21 = u16::decode(buf, pos + 154);
        let fld22 = Resref::decode(buf, pos + 156);
        let fld23 = Resref::decode(buf, pos + 164);
        let fld24 = Resref::decode(buf, pos + 172);
        let fld25 = u16::decode(buf, pos + 180);
        let fld26 = u16::decode(buf, pos + 182);
        let fld27 = u16::decode(buf, pos + 184);
        let fld28 = u16::decode(buf, pos + 186);
        let fld29 = u16::decode(buf, pos + 188);
        let fld30 = u16::decode(buf, pos + 190);
        let fld31 = <CharArray<32>>::decode(buf, pos + 192);
        let fld32 = u32::decode(buf, pos + 224);
        let fld33 = CharacterKillStats::decode(buf, pos + 228);
        let fld34 = decode_vec::<u8>(buf, pos + 344, 8);
        let v = GameNPC {
            character_selection: fld0,
            party_order: fld1,
            offset_to_cre_resource: fld2,
            size_of_cre_resource: fld3,
            character_name: fld4,
            character_orientation: fld5,
            characters_current_area: fld6,
            character_x_coordinate: fld7,
            character_y_coordinate: fld8,
            viewing_rectangle_x_coordinate: fld9,
            viewing_rectangle_y_coordinate: fld10,
            modal_action: fld11,
            happiness: fld12,
            num_times_interacted: fld13,
            index_of_quick_weapon_1: fld14,
            index_of_quick_weapon_2: fld15,
            index_of_quick_weapon_3: fld16,
            index_of_quick_weapon_4: fld17,
            quick_weapon_slot_1_ability: fld18,
            quick_weapon_slot_2_ability: fld19,
            quick_weapon_slot_3_ability: fld20,
            quick_weapon_slot_4_ability: fld21,
            quick_spell_1_resource: fld22,
            quick_spell_2_resource: fld23,
            quick_spell_3_resource: fld24,
            index_of_quick_item_1: fld25,
            index_of_quick_item_2: fld26,
            index_of_quick_item_3: fld27,
            quick_item_slot_1_ability: fld28,
            quick_item_slot_2_ability: fld29,
            quick_item_slot_3_ability: fld30,
            name: fld31,
            talk_count: fld32,
            character_kill_stats: fld33,
            voice_set: fld34,
        };
        proof {
            lemma_subrange_concat(buf@, pos + 0, pos + 146, pos + 352);
            lemma_subrange_concat(buf@, pos + 0, pos + 34, pos + 146);
            lemma_subrange_concat(buf@, pos + 0, pos + 12, pos + 34);
            lemma_subrange_concat(buf@, pos + 0, pos + 4, pos + 12);
            lemma_subrange_concat(buf@, pos + 0, pos + 2, pos + 4);
            lemma_subrange_concat(buf@, pos + 4, pos + 8, pos + 12);
            lemma_subrange_concat(buf@, pos + 12, pos + 24, pos + 34);
            lemma_subrange_concat(buf@, pos + 12, pos + 20, pos + 24);
            lemma_subrange_concat(buf@, pos + 24, pos + 32, pos + 34);
            lemma_subrange_concat(buf@, pos + 34, pos + 42, pos + 146);
            lemma_subrange_concat(buf@, pos + 34, pos + 38, pos + 42);
            lemma_subrange_concat(buf@, pos + 34, pos + 36, pos + 38);
            lemma_subrange_concat(buf@, pos + 38, pos + 40, pos + 42);
            lemma_subrange_concat(buf@, pos + 42, pos + 140, pos + 146);
            lemma_subrange_concat(buf@, pos + 42, pos + 44, pos + 140);
            lemma_subrange_concat(buf@, pos + 140, pos + 142, pos + 146);
            lemma_subrange_concat(buf@, pos + 142, pos + 144, pos + 146);
            lemma_subrange_concat(buf@, pos + 146, pos + 182, pos + 352);
            lemma_subrange_concat(buf@, pos + 146, pos + 154, pos + 182);
            lemma_subrange_concat(buf@, pos + 146, pos + 150, pos + 154);
            lemma_subrange_concat(buf@, pos + 146, pos + 148, pos + 150);
            lemma_subrange_concat(buf@, pos + 150, pos + 152, pos + 154);
            lemma_subrange_concat(buf@, pos + 154, pos + 164, pos + 182);
            lemma_subrange_concat(buf@, pos + 154, pos + 156, pos + 164);
            lemma_subrange_concat(buf@, pos + 164, pos + 172, pos + 182);
            lemma_subrange_concat(buf@, pos + 172, pos + 180, pos + 182);
            lemma_subrange_concat(buf@, pos + 182, pos + 190, pos + 352);
            lemma_subrange_concat(buf@, pos + 182, pos + 186, pos + 190);
            lemma_subrange_concat(buf@, pos + 182, pos + 184, pos + 186);
            lemma_subrange_concat(buf@, pos + 186, pos + 188, pos + 190);
            lemma_subrange_concat(buf@, pos + 190, pos + 224, pos + 352);
            lemma_subrange_concat(buf@, pos + 190, pos + 192, pos + 224);
            lemma_subrange_concat(buf@, pos + 224, pos + 228, pos + 352);
            lemma_subrange_concat(buf@, pos + 228, pos + 344, pos + 352);
        }
        v
    }

    fn encode(&self, out: &mut Vec<u8>) {
        let mut b0 = encoded(&self.character_selection);
        let mut b1 = encoded(&self.party_order);
        let mut b2 = encoded(&self.offset_to_cre_resource);
        let mut b3 = encoded(&self.size_of_cre_resource);
        let mut b4 = encoded(&self.character_name);
        let mut b5 = encoded(&self.character_orientation);
        let mut b6 = encoded(&self.characters_current_area);
        let mut b7 = encoded(&self.character_x_coordinate);
        let mut b8 = encoded(&self.character_y_coordinate);
        let mut b9 = encoded(&self.viewing_rectangle_x_coordinate);
        let mut b10 = encoded(&self.viewing_rectangle_y_coordinate);
        let mut b11 = encoded(&self.modal_action);
        let mut b12 = encoded(&self.happiness);
        let mut b13 = encoded_slice(self.num_times_interacted.as_slice());
        let mut b14 = encoded(&self.index_of_quick_weapon_1);
        let mut b15 = encoded(&self.index_of_quick_weapon_2);
        let mut b16 = encoded(&self.index_of_quick_weapon_3);
        let mut b17 = encoded(&self.index_of_quick_weapon_4);
        let mut b18 = encoded(&self.quick_weapon_slot_1_ability);
        let mut b19 = encoded(&self.quick_weapon_slot_2_ability);
        let mut b20 = encoded(&self.quick_weapon_slot_3_ability);
        let mut b21 = encoded(&self.quick_weapon_slot_4_ability);
        let mut b22 = encoded(&self.quick_spell_1_resource);
        let mut b23 = encoded(&self.quick_spell_2_resource);
        let mut b24 = encoded(&self.quick_spell_3_resource);
        let mut b25 = encoded(&self.index_of_quick_item_1);
        let mut b26 = encoded(&self.index_of_quick_item_2);
        let mut b27 = encoded(&self.index_of_quick_item_3);
        let mut b28 = encoded(&self.quick_item_slot_1_ability);
        let mut b29 = encoded(&self.quick_item_slot_2_ability);
        let mut b30 = encoded(&self.quick_item_slot_3_ability);
        let mut b31 = encoded(&self.name);
        let mut b32 = encoded(&self.talk_count);
        let mut b33 = encoded(&self.character_kill_stats);
        let mut b34 = encoded_slice(self.voice_set.as_slice());
        b33.append(&mut b34);
        b32.append(&mut b33);
        b30.append(&mut b31);
        b30.append(&mut b32);
        b28.append(&mut b29);
        b26.append(&mut b27);
        b26.append(&mut b28);
        b26.append(&mut b30);
        b24.append(&mut b25);
        b23.append(&mut b24);
        b21.append(&mut b22);
        b21.append(&mut b23);
        b19.append(&mut b20);
        b17.append(&mut b18);
        b17.append(&mut b19);
        b17.append(&mut b21);
        b17.append(&mut b26);
        b15.append(&mut b16);
        b14.append(&mut b15);
        b12.append(&mut b13);
        b12.append(&mut b14);
        b10.append(&mut b11);
        b8.append(&mut b9);
        b8.append(&mut b10);
        b8.append(&mut b12);
        b6.append(&mut b7);
        b4.append(&mut b5);
        b4.append(&mut b6);
        b2.append(&mut b3);
        b0.append(&mut b1);
        b0.append(&mut b2);
        b0.append(&mut b4);
        b0.append(&mut b8);
        b0.append(&mut b17);
        out.append(&mut b0);
    }
}

/// https://gibberlings3.github.io/iesdp/file_formats/ie_formats/gam_v2.0.htm#GAMEV2_0_Header
#[derive(Debug, Clone, PartialEq)]
pub struct BGEEGameHeader {
    pub header: Header,
    pub game_time: u32,
    pub selected_formation: u16,
    pub formation_button_1: u16,
    pub formation_button_2: u16,
    pub formation_button_3: u16,
    pub formation_button_4: u16,
    pub formation_button_5: u16,
    pub party_gold: u32,
    pub view_of_party_member: u16,
    /// Weather bitfield
    /// bit0: Rain
    /// bit1: Snow
    /// bit2: Light Rain
    /// bit3: Medium Rain
    /// bit4: Light Wind
    /// bit5: Medium Wind
    /// bit6: Rare Lightning
    /// bit7: Lightning
    /// bit8: Storm Increasing
    /// bits 9->15 unused
    pub weather_bitfield: Vec<u8>,
    pub offset_to_npc_structs_for_party_members: u32,
    pub count_of_npc_structs_for_party_members: u32,
    pub offset_to_party_inventory: u32,
    pub count_of_party_inventory: u32,
    pub offset_to_npc_structs_for_npcs: u32,
    pub count_of_npc_structs_for_npcs: u32,
    pub offset_to_global_namespace_variables: u32,
    pub count_of_global_namespace_variables: u32,
    pub main_area: Resref,
    pub offset_to_familiar_extra: u32,
    pub count_of_journal_entries: u32,
    pub offset_to_journal_entries: u32,
    pub party_reputation: u32,
    pub current_area: Resref,
    pub gui_flags: Vec<u8>,
    pub loading_progress: Vec<u8>,
    pub offset_to_familiar: u32,
    pub offset_to_stored_locations: u32,
    pub count_of_stored_locations: u32,
    pub game_time_real_seconds: u32,
    pub offset_to_pocket_plane_locations: u32,
    pub count_of_pocket_plane_locations: u32,
    /// EE fields
    pub zoom_level: u32,
    pub random_encounter_area: Resref,
    pub current_world_map: Resref,
    pub current_campaign: CharArray<8>,
    pub familiar_owner: u32,
    pub random_encounter_script: CharArray<20>,
}

impl BGEEGameHeader {
    /// Encoding of the fields 0 to 38, in order.
    pub open spec fn bytes_0_39(&self) -> Seq<u8> {
        self.bytes_0_19() + self.bytes_19_39()
    }

    /// Encoding of the fields 0 to 18, in order.
    pub open spec fn bytes_0_19(&self) -> Seq<u8> {
        self.bytes_0_9() + self.bytes_9_19()
    }

    /// Encoding of the fields 0 to 8, in order.
    pub open spec fn bytes_0_9(&self) -> Seq<u8> {
        self.bytes_0_4() + self.bytes_4_9()
    }

    /// Encoding of the fields 0 to 3, in order.
    pub open spec fn bytes_0_4(&self) -> Seq<u8> {
        self.bytes_0_2() + self.bytes_2_4()
    }

    /// Encoding of the fields 0 to 1, in order.
    pub open spec fn bytes_0_2(&self) -> Seq<u8> {
        self.header.enc() + self.game_time.enc()
    }

    /// Encoding of the fields 2 to 3, in order.
    pub open spec fn bytes_2_4(&self) -> Seq<u8> {
        self.selected_formation.enc() + self.formation_button_1.enc()
    }

    /// Encoding of the fields 4 to 8, in order.
    pub open spec fn bytes_4_9(&self) -> Seq<u8> {
        self.bytes_4_6() + self.bytes_6_9()
    }

    /// Encoding of the fields 4 to 5, in order.
    pub open spec fn bytes_4_6(&self) -> Seq<u8> {
        self.formation_button_2.enc() + self.formation_button_3.enc()
    }

    /// Encoding of the fields 6 to 8, in order.
    pub open spec fn bytes_6_9(&self) -> Seq<u8> {
        self.formation_button_4.enc() + self.bytes_7_9()
    }

    /// Encoding of the fields 7 to 8, in order.
    pub open spec fn bytes_7_9(&self) -> Seq<u8> {
        self.formation_button_5.enc() + self.party_gold.enc()
    }

    /// Encoding of the fields 9 to 18, in order.
    pub open spec fn bytes_9_19(&self) -> Seq<u8> {
        self.bytes_9_14() + self.bytes_14_19()
    }

    /// Encoding of the fields 9 to 13, in order.
    pub open spec fn bytes_9_14(&self) -> Seq<u8> {
        self.bytes_9_11() + self.bytes_11_14()
    }

    /// Encoding of the fields 9 to 10, in order.
    pub open spec fn bytes_9_11(&self) -> Seq<u8> {
        self.view_of_party_member.enc() + enc_seq(self.weather_bitfield@)
    }

    /// Encoding of the fields 11 to 13, in order.
    pub open spec fn bytes_11_14(&self) -> Seq<u8> {
        self.offset_to_npc_structs_for_party_members.enc() + self.bytes_12_14()
    }

    /// Encoding of the fields 12 to 13, in order.
    pub open spec fn bytes_12_14(&self) -> Seq<u8> {
        self.count_of_npc_structs_for_party_members.enc() + self.offset_to_party_inventory.enc()
    }

    /// Encoding of the fields 14 to 18, in order.
    pub open spec fn bytes_14_19(&self) -> Seq<u8> {
        self.bytes_14_16() + self.bytes_16_19()
    }

    /// Encoding of the fields 14 to 15, in order.
    pub open spec fn bytes_14_16(&self) -> Seq<u8> {
        self.count_of_party_inventory.enc() + self.offset_to_npc_structs_for_npcs.enc()
    }

    /// Encoding of the fields 16 to 18, in order.
    pub open spec fn bytes_16_19(&self) -> Seq<u8> {
        self.count_of_npc_structs_for_npcs.enc() + self.bytes_17_19()
    }

    /// Encoding of the fields 17 to 18, in order.
    pub open spec fn bytes_17_19(&self) -> Seq<u8> {
        self.offset_to_global_namespace_variables.enc() + self.count_of_global_namespace_variables.enc()
    }

    /// Encoding of the fields 19 to 38, in order.
    pub open spec fn bytes_19_39(&self) -> Seq<u8> {
        self.bytes_19_29() + self.bytes_29_39()
    }

    /// Encoding of the fields 19 to 28, in order.
    pub open spec fn bytes_19_29(&self) -> Seq<u8> {
        self.bytes_19_24() + self.bytes_24_29()
    }

    /// Encoding of the fields 19 to 23, in order.
    pub open spec fn bytes_19_24(&self) -> Seq<u8> {
        self.bytes_19_21() + self.bytes_21_24()
    }

    /// Encoding of the fields 19 to 20, in order.
    pub open spec fn bytes_19_21(&self) -> Seq<u8> {
        self.main_area.enc() + self.offset_to_familiar_extra.enc()
    }

    /// Encoding of the fields 21 to 23, in order.
    pub open spec fn bytes_21_24(&self) -> Seq<u8> {
        self.count_of_journal_entries.enc() + self.bytes_22_24()
    }

    /// Encoding of the fields 22 to 23, in order.
    pub open spec fn bytes_22_24(&self) -> Seq<u8> {
        self.offset_to_journal_entries.enc() + self.party_reputation.enc()
    }

    /// Encoding of the fields 24 to 28, in order.
    pub open spec fn bytes_24_29(&self) -> Seq<u8> {
        self.bytes_24_26() + self.bytes_26_29()
    }

    /// Encoding of the fields 24 to 25, in order.
    pub open spec fn bytes_24_26(&self) -> Seq<u8> {
        self.current_area.enc() + enc_seq(self.gui_flags@)
    }

    /// Encoding of the fields 26 to 28, in order.
    pub open spec fn bytes_26_29(&self) -> Seq<u8> {
        enc_seq(self.loading_progress@) + self.bytes_27_29()
    }

    /// Encoding of the fields 27 to 28, in order.
    pub open spec fn bytes_27_29(&self) -> Seq<u8> {
        self.offset_to_familiar.enc() + self.offset_to_stored_locations.enc()
    }

    /// Encoding of the fields 29 to 38, in order.
    pub open spec fn bytes_29_39(&self) -> Seq<u8> {
        self.bytes_29_34() + self.bytes_34_39()
    }

    /// Encoding of the fields 29 to 33, in order.
    pub open spec fn bytes_29_34(&self) -> Seq<u8> {
        self.bytes_29_31() + self.bytes_31_34()
    }

    /// Encoding of the fields 29 to 30, in order.
    pub open spec fn bytes_29_31(&self) -> Seq<u8> {
        self.count_of_stored_locations.enc() + self.game_time_real_seconds.enc()
    }

    /// Encoding of the fields 31 to 33, in order.
    pub open spec fn bytes_31_34(&self) -> Seq<u8> {
        self.offset_to_pocket_plane_locations.enc() + self.bytes_32_34()
    }

    /// Encoding of the fields 32 to 33, in order.
    pub open spec fn bytes_32_34(&self) -> Seq<u8> {
        self.count_of_pocket_plane_locations.enc() + self.zoom_level.enc()
    }

    /// Encoding of the fields 34 to 38, in order.
    pub open spec fn bytes_34_39(&self) -> Seq<u8> {
        self.bytes_34_36() + self.bytes_36_39()
    }

    /// Encoding of the fields 34 to 35, in order.
    pub open spec fn bytes_34_36(&self) -> Seq<u8> {
        self.random_encounter_area.enc() + self.current_world_map.enc()
    }

    /// Encoding of the fields 36 to 38, in order.
    pub open spec fn bytes_36_39(&self) -> Seq<u8> {
        self.current_campaign.enc() + self.bytes_37_39()
    }

    /// Encoding of the fields 37 to 38, in order.
    pub open spec fn bytes_37_39(&self) -> Seq<u8> {
        self.familiar_owner.enc() + self.random_encounter_script.enc()
    }
}

impl Codec for BGEEGameHeader {
    open spec fn width() -> nat {
        180
    }

    open spec fn enc(&self) -> Seq<u8> {
        self.bytes_0_39()
    }

    open spec fn wf(&self) -> bool {
        &&& self.header.wf()
        &&& self.weather_bitfield@.len() == 2
        &&& all_wf(self.weather_bitfield@)
        &&& self.gui_flags@.len() == 4
        &&& all_wf(self.gui_flags@)
        &&& self.loading_progress@.len() == 4
        &&& all_wf(self.loading_progress@)
    }

    open spec fn same(&self, other: &Self) -> bool {
        &&& self.header.same(&other.header)
        &&& self.game_time == other.game_time
        &&& self.selected_formation == other.selected_formation
        &&& self.formation_button_1 == other.formation_button_1
        &&& self.formation_button_2 == other.formation_button_2
        &&& self.formation_button_3 == other.formation_button_3
        &&& self.formation_button_4 == other.formation_button_4
        &&& self.formation_button_5 == other.formation_button_5
        &&& self.party_gold == other.party_gold
        &&& self.view_of_party_member == other.view_of_party_member
        &&& seq_same(self.weather_bitfield@, other.weather_bitfield@)
        &&& self.offset_to_npc_structs_for_party_members == other.offset_to_npc_structs_for_party_members
        &&& self.count_of_npc_structs_for_party_members == other.count_of_npc_structs_for_party_members
        &&& self.offset_to_party_inventory == other.offset_to_party_inventory
        &&& self.count_of_party_inventory == other.count_of_party_inventory
        &&& self.offset_to_npc_structs_for_npcs == other.offset_to_npc_structs_for_npcs
        &&& self.count_of_npc_structs_for_npcs == other.count_of_npc_structs_for_npcs
        &&& self.offset_to_global_namespace_variables == other.offset_to_global_namespace_variables
        &&& self.count_of_global_namespace_variables == other.count_of_global_namespace_variables
        &&& self.main_area.same(&other.main_area)
        &&& self.offset_to_familiar_extra == other.offset_to_familiar_extra
        &&& self.count_of_journal_entries == other.count_of_journal_entries
        &&& self.offset_to_journal_entries == other.offset_to_journal_entries
        &&& self.party_reputation == other.party_reputation
        &&& self.current_area.same(&other.current_area)
        &&& seq_same(self.gui_flags@, other.gui_flags@)
        &&& seq_same(self.loading_progress@, other.loading_progress@)
        &&& self.offset_to_familiar == other.offset_to_familiar
        &&& self.offset_to_stored_locations == other.offset_to_stored_locations
        &&& self.count_of_stored_locations == other.count_of_stored_locations
        &&& self.game_time_real_seconds == other.game_time_real_seconds
        &&& self.offset_to_pocket_plane_locations == other.offset_to_pocket_plane_locations
        &&& self.count_of_pocket_plane_locations == other.count_of_pocket_plane_locations
        &&& self.zoom_level == other.zoom_level
        &&& self.random_encounter_area.same(&other.random_encounter_area)
        &&& self.current_world_map.same(&other.current_world_map)
        &&& self.current_campaign.same(&other.current_campaign)
        &&& self.familiar_owner == other.familiar_owner
        &&& self.random_encounter_script.same(&other.random_encounter_script)
    }

    fn byte_width() -> (n: usize) {
        180
    }

    fn check_wf(&self) -> (b: bool) {
        self.header.check_wf() && self.weather_bitfield.len() == 2 && check_all_wf(self.weather_bitfield.as_slice()) && self.gui_flags.len() == 4 && check_all_wf(self.gui_flags.as_slice()) && self.loading_progress.len() == 4 && check_all_wf(self.loading_progress.as_slice())
    }

    proof fn lemma_enc_len(&self) {
        self.header.lemma_enc_len();
        self.game_time.lemma_enc_len();
        self.selected_formation.lemma_enc_len();
        self.formation_button_1.lemma_enc_len();
        self.formation_button_2.lemma_enc_len();
        self.formation_button_3.lemma_enc_len();
        self.formation_button_4.lemma_enc_len();
        self.formation_button_5.lemma_enc_len();
        self.party_gold.lemma_enc_len();
        self.view_of_party_member.lemma_enc_len();
        lemma_enc_seq_len(self.weather_bitfield@);
        self.offset_to_npc_structs_for_party_members.lemma_enc_len();
        self.count_of_npc_structs_for_party_members.lemma_enc_len();
        self.offset_to_party_inventory.lemma_enc_len();
        self.count_of_party_inventory.lemma_enc_len();
        self.offset_to_npc_structs_for_npcs.lemma_enc_len();
        self.count_of_npc_structs_for_npcs.lemma_enc_len();
        self.offset_to_global_namespace_variables.lemma_enc_len();
        self.count_of_global_namespace_variables.lemma_enc_len();
        self.main_area.lemma_enc_len();
        self.offset_to_familiar_extra.lemma_enc_len();
        self.count_of_journal_entries.lemma_enc_len();
        self.offset_to_journal_entries.lemma_enc_len();
        self.party_reputation.lemma_enc_len();
        self.current_area.lemma_enc_len();
        lemma_enc_seq_len(self.gui_flags@);
        lemma_enc_seq_len(self.loading_progress@);
        self.offset_to_familiar.lemma_enc_len();
        self.offset_to_stored_locations.lemma_enc_len();
        self.count_of_stored_locations.lemma_enc_len();
        self.game_time_real_seconds.lemma_enc_len();
        self.offset_to_pocket_plane_locations.lemma_enc_len();
        self.count_of_pocket_plane_locations.lemma_enc_len();
        self.zoom_level.lemma_enc_len();
        self.random_encounter_area.lemma_enc_len();
        self.current_world_map.lemma_enc_len();
        self.current_campaign.lemma_enc_len();
        self.familiar_owner.lemma_enc_len();
        self.random_encounter_script.lemma_enc_len();
    }

    proof fn lemma_enc_injective(&self, other: &Self) {
        self.header.lemma_enc_len();
        self.game_time.lemma_enc_len();
        self.selected_formation.lemma_enc_len();
        self.formation_button_1.lemma_enc_len();
        self.formation_button_2.lemma_enc_len();
        self.formation_button_3.lemma_enc_len();
        self.formation_button_4.lemma_enc_len();
        self.formation_button_5.lemma_enc_len();
        self.party_gold.lemma_enc_len();
        self.view_of_party_member.lemma_enc_len();
        lemma_enc_seq_len(self.weather_bitfield@);
        self.offset_to_npc_structs_for_party_members.lemma_enc_len();
        self.count_of_npc_structs_for_party_members.lemma_enc_len();
        self.offset_to_party_inventory.lemma_enc_len();
        self.count_of_party_inventory.lemma_enc_len();
        self.offset_to_npc_structs_for_npcs.lemma_enc_len();
        self.count_of_npc_structs_for_npcs.lemma_enc_len();
        self.offset_to_global_namespace_variables.lemma_enc_len();
        self.count_of_global_namespace_variables.lemma_enc_len();
        self.main_area.lemma_enc_len();
        self.offset_to_familiar_extra.lemma_enc_len();
        self.count_of_journal_entries.lemma_enc_len();
        self.offset_to_journal_entries.lemma_enc_len();
        self.party_reputation.lemma_enc_len();
        self.current_area.lemma_enc_len();
        lemma_enc_seq_len(self.gui_flags@);
        lemma_enc_seq_len(self.loading_progress@);
        self.offset_to_familiar.lemma_enc_len();
        self.offset_to_stored_locations.lemma_enc_len();
        self.count_of_stored_locations.lemma_enc_len();
        self.game_time_real_seconds.lemma_enc_len();
        self.offset_to_pocket_plane_locations.lemma_enc_len();
        self.count_of_pocket_plane_locations.lemma_enc_len();
        self.zoom_level.lemma_enc_len();
        self.random_encounter_area.lemma_enc_len();
        self.current_world_map.lemma_enc_len();
        self.current_campaign.lemma_enc_len();
        self.familiar_owner.lemma_enc_len();
        self.random_encounter_script.lemma_enc_len();
        other.header.lemma_enc_len();
        other.game_time.lemma_enc_len();
        other.selected_formation.lemma_enc_len();
        other.formation_button_1.lemma_enc_len();
        other.formation_button_2.lemma_enc_len();
        other.formation_button_3.lemma_enc_len();
        other.formation_button_4.lemma_enc_len();
        other.formation_button_5.lemma_enc_len();
        other.party_gold.lemma_enc_len();
        other.view_of_party_member.lemma_enc_len();
        lemma_enc_seq_len(other.weather_bitfield@);
        other.offset_to_npc_structs_for_party_members.lemma_enc_len();
        other.count_of_npc_structs_for_party_members.lemma_enc_len();
        other.offset_to_party_inventory.lemma_enc_len();
        other.count_of_party_inventory.lemma_enc_len();
        other.offset_to_npc_structs_for_npcs.lemma_enc_len();
        other.count_of_npc_structs_for_npcs.lemma_enc_len();
        other.offset_to_global_namespace_variables.lemma_enc_len();
        other.count_of_global_namespace_variables.lemma_enc_len();
        other.main_area.lemma_enc_len();
        other.offset_to_familiar_extra.lemma_enc_len();
        other.count_of_journal_entries.lemma_enc_len();
        other.offset_to_journal_entries.lemma_enc_len();
        other.party_reputation.lemma_enc_len();
        other.current_area.lemma_enc_len();
        lemma_enc_seq_len(other.gui_flags@);
        lemma_enc_seq_len(other.loading_progress@);
        other.offset_to_familiar.lemma_enc_len();
        other.offset_to_stored_locations.lemma_enc_len();
        other.count_of_stored_locations.lemma_enc_len();
        other.game_time_real_seconds.lemma_enc_len();
        other.offset_to_pocket_plane_locations.lemma_enc_len();
        other.count_of_pocket_plane_locations.lemma_enc_len();
        other.zoom_level.lemma_enc_len();
        other.random_encounter_area.lemma_enc_len();
        other.current_world_map.lemma_enc_len();
        other.current_campaign.lemma_enc_len();
        other.familiar_owner.lemma_enc_len();
        other.random_encounter_script.lemma_enc_len();
        lemma_concat_peel(self.bytes_0_19(), self.bytes_19_39(), other.bytes_0_19(), other.bytes_19_39());
        lemma_concat_peel(self.bytes_0_9(), self.bytes_9_19(), other.bytes_0_9(), other.bytes_9_19());
        lemma_concat_peel(self.bytes_0_4(), self.bytes_4_9(), other.bytes_0_4(), other.bytes_4_9());
        lemma_concat_peel(self.bytes_0_2(), self.bytes_2_4(), other.bytes_0_2(), other.bytes_2_4());
        lemma_concat_peel(self.header.enc(), self.game_time.enc(), other.header.enc(), other.game_time.enc());
        lemma_concat_peel(self.selected_formation.enc(), self.formation_button_1.enc(), other.selected_formation.enc(), other.formation_button_1.enc());
        lemma_concat_peel(self.bytes_4_6(), self.bytes_6_9(), other.bytes_4_6(), other.bytes_6_9());
        lemma_concat_peel(self.formation_button_2.enc(), self.formation_button_3.enc(), other.formation_button_2.enc(), other.formation_button_3.enc());
        lemma_concat_peel(self.formation_button_4.enc(), self.bytes_7_9(), other.formation_button_4.enc(), other.bytes_7_9());
        lemma_concat_peel(self.formation_button_5.enc(), self.party_gold.enc(), other.formation_button_5.enc(), other.party_gold.enc());
        lemma_concat_peel(self.bytes_9_14(), self.bytes_14_19(), other.bytes_9_14(), other.bytes_14_19());
        lemma_concat_peel(self.bytes_9_11(), self.bytes_11_14(), other.bytes_9_11(), other.bytes_11_14());
        lemma_concat_peel(self.view_of_party_member.enc(), enc_seq(self.weather_bitfield@), other.view_of_party_member.enc(), enc_seq(other.weather_bitfield@));
        lemma_concat_peel(self.offset_to_npc_structs_for_party_members.enc(), self.bytes_12_14(), other.offset_to_npc_structs_for_party_members.enc(), other.bytes_12_14());
        lemma_concat_peel(self.count_of_npc_structs_for_party_members.enc(), self.offset_to_party_inventory.enc(), other.count_of_npc_structs_for_party_members.enc(), other.offset_to_party_inventory.enc());
        lemma_concat_peel(self.bytes_14_16(), self.bytes_16_19(), other.bytes_14_16(), other.bytes_16_19());
        lemma_concat_peel(self.count_of_party_inventory.enc(), self.offset_to_npc_structs_for_npcs.enc(), other.count_of_party_inventory.enc(), other.offset_to_npc_structs_for_npcs.enc());
        lemma_concat_peel(self.count_of_npc_structs_for_npcs.enc(), self.bytes_17_19(), other.count_of_npc_structs_for_npcs.enc(), other.bytes_17_19());
        lemma_concat_peel(self.offset_to_global_namespace_variables.enc(), self.count_of_global_namespace_variables.enc(), other.offset_to_global_namespace_variables.enc(), other.count_of_global_namespace_variables.enc());
        lemma_concat_peel(self.bytes_19_29(), self.bytes_29_39(), other.bytes_19_29(), other.bytes_29_39());
        lemma_concat_peel(self.bytes_19_24(), self.bytes_24_29(), other.bytes_19_24(), other.bytes_24_29());
        lemma_concat_peel(self.bytes_19_21(), self.bytes_21_24(), other.bytes_19_21(), other.bytes_21_24());
        lemma_concat_peel(self.main_area.enc(), self.offset_to_familiar_extra.enc(), other.main_area.enc(), other.offset_to_familiar_extra.enc());
        lemma_concat_peel(self.count_of_journal_entries.enc(), self.bytes_22_24(), other.count_of_journal_entries.enc(), other.bytes_22_24());
        lemma_concat_peel(self.offset_to_journal_entries.enc(), self.party_reputation.enc(), other.offset_to_journal_entries.enc(), other.party_reputation.enc());
        lemma_concat_peel(self.bytes_24_26(), self.bytes_26_29(), other.bytes_24_26(), other.bytes_26_29());
        lemma_concat_peel(self.current_area.enc(), enc_seq(self.gui_flags@), other.current_area.enc(), enc_seq(other.gui_flags@));
        lemma_concat_peel(enc_seq(self.loading_progress@), self.bytes_27_29(), enc_seq(other.loading_progress@), other.bytes_27_29());
        lemma_concat_peel(self.offset_to_familiar.enc(), self.offset_to_stored_locations.enc(), other.offset_to_familiar.enc(), other.offset_to_stored_locations.enc());
        lemma_concat_peel(self.bytes_29_34(), self.bytes_34_39(), other.bytes_29_34(), other.bytes_34_39());
        lemma_concat_peel(self.bytes_29_31(), self.bytes_31_34(), other.bytes_29_31(), other.bytes_31_34());
        lemma_concat_peel(self.count_of_stored_locations.enc(), self.game_time_real_seconds.enc(), other.count_of_stored_locations.enc(), other.game_time_real_seconds.enc());
        lemma_concat_peel(self.offset_to_pocket_plane_locations.enc(), self.bytes_32_34(), other.offset_to_pocket_plane_locations.enc(), other.bytes_32_34());
        lemma_concat_peel(self.count_of_pocket_plane_locations.enc(), self.zoom_level.enc(), other.count_of_pocket_plane_locations.enc(), other.zoom_level.enc());
        lemma_concat_peel(self.bytes_34_36(), self.bytes_36_39(), other.bytes_34_36(), other.bytes_36_39());
        lemma_concat_peel(self.random_encounter_area.enc(), self.current_world_map.enc(), other.random_encounter_area.enc(), other.current_world_map.enc());
        lemma_concat_peel(self.current_campaign.enc(), self.bytes_37_39(), other.current_campaign.enc(), other.bytes_37_39());
        lemma_concat_peel(self.familiar_owner.enc(), self.random_encounter_script.enc(), other.familiar_owner.enc(), other.random_encounter_script.enc());
        self.header.lemma_enc_injective(&other.header);
        self.game_time.lemma_enc_injective(&other.game_time);
        self.selected_formation.lemma_enc_injective(&other.selected_formation);
        self.formation_button_1.lemma_enc_injective(&other.formation_button_1);
        self.formation_button_2.lemma_enc_injective(&other.formation_button_2);
        self.formation_button_3.lemma_enc_injective(&other.formation_button_3);
        self.formation_button_4.lemma_enc_injective(&other.formation_button_4);
        self.formation_button_5.lemma_enc_injective(&other.formation_button_5);
        self.party_gold.lemma_enc_injective(&other.party_gold);
        self.view_of_party_member.lemma_enc_injective(&other.view_of_party_member);
        lemma_enc_seq_injective(self.weather_bitfield@, other.weather_bitfield@);
        self.offset_to_npc_structs_for_party_members.lemma_enc_injective(&other.offset_to_npc_structs_for_party_members);
        self.count_of_npc_structs_for_party_members.lemma_enc_injective(&other.count_of_npc_structs_for_party_members);
        self.offset_to_party_inventory.lemma_enc_injective(&other.offset_to_party_inventory);
        self.count_of_party_inventory.lemma_enc_injective(&other.count_of_party_inventory);
        self.offset_to_npc_structs_for_npcs.lemma_enc_injective(&other.offset_to_npc_structs_for_npcs);
        self.count_of_npc_structs_for_npcs.lemma_enc_injective(&other.count_of_npc_structs_for_npcs);
        self.offset_to_global_namespace_variables.lemma_enc_injective(&other.offset_to_global_namespace_variables);
        self.count_of_global_namespace_variables.lemma_enc_injective(&other.count_of_global_namespace_variables);
        self.main_area.lemma_enc_injective(&other.main_area);
        self.offset_to_familiar_extra.lemma_enc_injective(&other.offset_to_familiar_extra);
        self.count_of_journal_entries.lemma_enc_injective(&other.count_of_journal_entries);
        self.offset_to_journal_entries.lemma_enc_injective(&other.offset_to_journal_entries);
        self.party_reputation.lemma_enc_injective(&other.party_reputation);
        self.current_area.lemma_enc_injective(&other.current_area);
        lemma_enc_seq_injective(self.gui_flags@, other.gui_flags@);
        lemma_enc_seq_injective(self.loading_progress@, other.loading_progress@);
        self.offset_to_familiar.lemma_enc_injective(&other.offset_to_familiar);
        self.offset_to_stored_locations.lemma_enc_injective(&other.offset_to_stored_locations);
        self.count_of_stored_locations.lemma_enc_injective(&other.count_of_stored_locations);
        self.game_time_real_seconds.lemma_enc_injective(&other.game_time_real_seconds);
        self.offset_to_pocket_plane_locations.lemma_enc_injective(&other.offset_to_pocket_plane_locations);
        self.count_of_pocket_plane_locations.lemma_enc_injective(&other.count_of_pocket_plane_locations);
        self.zoom_level.lemma_enc_injective(&other.zoom_level);
        self.random_encounter_area.lemma_enc_injective(&other.random_encounter_area);
        self.current_world_map.lemma_enc_injective(&other.current_world_map);
        self.current_campaign.lemma_enc_injective(&other.current_campaign);
        self.familiar_owner.lemma_enc_injective(&other.familiar_owner);
        self.random_encounter_script.lemma_enc_injective(&other.random_encounter_script);
    }

    #[verifier::rlimit(100)]
    #[verifier::spinoff_prover]
    fn decode(buf: &[u8], pos: usize) -> (v: Self) {
        let len = buf.len();
        let fld0 = Header::decode(buf, pos + 0);
        let fld1 = u32::decode(buf, pos + 8);
        let fld2 = u16::decode(buf, pos + 12);
        let fld3 = u16::decode(buf, pos + 14);
        let fld4 = u16::decode(buf, pos + 16);
        let fld5 = u16::decode(buf, pos + 18);
        let fld6 = u16::decode(buf, pos + 20);
        let fld7 = u16::decode(buf, pos + 22);
        let fld8 = u32::decode(buf, pos + 24);
        let fld9 = u16::decode(buf, pos + 28);
        let fld10 = decode_vec::<u8>(buf, pos + 30, 2);
        let fld11 = u32::decode(buf, pos + 32);
        let fld12 = u32::decode(buf, pos + 36);
        let fld13 = u32::decode(buf, pos + 40);
        let fld14 = u32::decode(buf, pos + 44);
        let fld15 = u32::decode(buf, pos + 48);
        let fld16 = u32::decode(buf, pos + 52);
        let fld17 = u32::decode(buf, pos + 56);
        let fld18 = u32::decode(buf, pos + 60);
        let fld19 = Resref::decode(buf, pos + 64);
        let fld20 = u32::decode(buf, pos + 72);
        let fld21 = u32::decode(buf, pos + 76);
        let fld22 = u32::decode(buf, pos + 80);
        let fld23 = u32::decode(buf, pos + 84);
        let fld24 = Resref::decode(buf, pos + 88);
        let fld25 = decode_vec::<u8>(buf, pos + 96, 4);
        let fld26 = decode_vec::<u8>(buf, pos + 100, 4);
        let fld27 = u32::decode(buf, pos + 104);
        let fld28 = u32::decode(buf, pos + 108);
        let fld29 = u32::decode(buf, pos + 112);
        let fld30 = u32::decode(buf, pos + 116);
        let fld31 = u32::decode(buf, pos + 120);
        let fld32 = u32::decode(buf, pos + 124);
        let fld33 = u32::decode(buf, pos + 128);
        let fld34 = Resref::decode(buf, pos + 132);
        let fld35 = Resref::decode(buf, pos + 140);
        let fld36 = <CharArray<8>>::decode(buf, pos + 148);
        let fld37 = u32::decode(buf, pos + 156);
        let fld38 = <CharArray<20>>::decode(buf, pos + 160);
        let v = BGEEGameHeader {
            header: fld0,
            game_time: fld1,
            selected_formation: fld2,
            formation_button_1: fld3,
            formation_button_2: fld4,
            formation_button_3: fld5,
            formation_button_4: fld6,
            formation_button_5: fld7,
            party_gold: fld8,
            view_of_party_member: fld9,
            weather_bitfield: fld10,
            offset_to_npc_structs_for_party_members: fld11,
            count_of_npc_structs_for_party_members: fld12,
            offset_to_party_inventory: fld13,
            count_of_party_inventory: fld14,
            offset_to_npc_structs_for_npcs: fld15,
            count_of_npc_structs_for_npcs: fld16,
            offset_to_global_namespace_variables: fld17,
            count_of_global_namespace_variables: fld18,
            main_area: fld19,
            offset_to_familiar_extra: fld20,
            count_of_journal_entries: fld21,
            offset_to_journal_entries: fld22,
            party_reputation: fld23,
            current_area: fld24,
            gui_flags: fld25,
            loading_progress: fld26,
            offset_to_familiar: fld27,
            offset_to_stored_locations: fld28,
            count_of_stored_locations: fld29,
            game_time_real_seconds: fld30,
            offset_to_pocket_plane_locations: fld31,
            count_of_pocket_plane_locations: fld32,
            zoom_level: fld33,
            random_encounter_area: fld34,
            current_world_map: fld35,
            current_campaign: fld36,
            familiar_owner: fld37,
            random_encounter_script: fld38,
        };
        proof {
            lemma_subrange_concat(buf@, pos + 0, pos + 64, pos + 180);
            lemma_subrange_concat(buf@, pos + 0, pos + 28, pos + 64);
            lemma_subrange_concat(buf@, pos + 0, pos + 16, pos + 28);
            lemma_subrange_concat(buf@, pos + 0, pos + 12, pos + 16);
            lemma_subrange_concat(buf@, pos + 0, pos + 8, pos + 12);
            lemma_subrange_concat(buf@, pos + 12, pos + 14, pos + 16);
            lemma_subrange_concat(buf@, pos + 16, pos + 20, pos + 28);
            lemma_subrange_concat(buf@, pos + 16, pos + 18, pos + 20);
            lemma_subrange_concat(buf@, pos + 20, pos + 22, pos + 28);
            lemma_subrange_concat(buf@, pos + 22, pos + 24, pos + 28);
            lemma_subrange_concat(buf@, pos + 28, pos + 44, pos + 64);
            lemma_subrange_concat(buf@, pos + 28, pos + 32, pos + 44);
            lemma_subrange_concat(buf@, pos + 28, pos + 30, pos + 32);
            lemma_subrange_concat(buf@, pos + 32, pos + 36, pos + 44);
            lemma_subrange_concat(buf@, pos + 36, pos + 40, pos + 44);
            lemma_subrange_concat(buf@, pos + 44, pos + 52, pos + 64);
            lemma_subrange_concat(buf@, pos + 44, pos + 48, pos + 52);
            lemma_subrange_concat(buf@, pos + 52, pos + 56, pos + 64);
            lemma_subrange_concat(buf@, pos + 56, pos + 60, pos + 64);
            lemma_subrange_concat(buf@, pos + 64, pos + 112, pos + 180);
            lemma_subrange_concat(buf@, pos + 64, pos + 88, pos + 112);
            lemma_subrange_concat(buf@, pos + 64, pos + 76, pos + 88);
            lemma_subrange_concat(buf@, pos + 64, pos + 72, pos + 76);
            lemma_subrange_concat(buf@, pos + 76, pos + 80, pos + 88);
            lemma_subrange_concat(buf@, pos + 80, pos + 84, pos + 88);
            lemma_subrange_concat(buf@, pos + 88, pos + 100, pos + 112);
            lemma_subrange_concat(buf@, pos + 88, pos + 96, pos + 100);
            lemma_subrange_concat(buf@, pos + 100, pos + 104, pos + 112);
            lemma_subrange_concat(buf@, pos + 104, pos + 108, pos + 112);
            lemma_subrange_concat(buf@, pos + 112, pos + 132, pos + 180);
            lemma_subrange_concat(buf@, pos + 112, pos + 120, pos + 132);
            lemma_subrange_concat(buf@, pos + 112, pos + 116, pos + 120);
            lemma_subrange_concat(buf@, pos + 120, pos + 124, pos + 132);
            lemma_subrange_concat(buf@, pos + 124, pos + 128, pos + 132);
            lemma_subrange_concat(buf@, pos + 132, pos + 148, pos + 180);
            lemma_subrange_concat(buf@, pos + 132, pos + 140, pos + 148);
            lemma_subrange_concat(buf@, pos + 148, pos + 156, pos + 180);
            lemma_subrange_concat(buf@, pos + 156, pos + 160, pos + 180);
        }
        v
    }

    fn encode(&self, out: &mut Vec<u8>) {
        let mut b0 = encoded(&self.header);
        let mut b1 = encoded(&self.game_time);
        let mut b2 = encoded(&self.selected_formation);
        let mut b3 = encoded(&self.formation_button_1);
        let mut b4 = encoded(&self.formation_button_2);
        let mut b5 = encoded(&self.formation_button_3);
        let mut b6 = encoded(&self.formation_button_4);
        let mut b7 = encoded(&self.formation_button_5);
        let mut b8 = encoded(&self.party_gold);
        let mut b9 = encoded(&self.view_of_party_member);
        let mut b10 = encoded_slice(self.weather_bitfield.as_slice());
        let mut b11 = encoded(&self.offset_to_npc_structs_for_party_members);
        let mut b12 = encoded(&self.count_of_npc_structs_for_party_members);
        let mut b13 = encoded(&self.offset_to_party_inventory);
        let mut b14 = encoded(&self.count_of_party_inventory);
        let mut b15 = encoded(&self.offset_to_npc_structs_for_npcs);
        let mut b16 = encoded(&self.count_of_npc_structs_for_npcs);
        let mut b17 = encoded(&self.offset_to_global_namespace_variables);
        let mut b18 = encoded(&self.count_of_global_namespace_variables);
        let mut b19 = encoded(&self.main_area);
        let mut b20 = encoded(&self.offset_to_familiar_extra);
        let mut b21 = encoded(&self.count_of_journal_entries);
        let mut b22 = encoded(&self.offset_to_journal_entries);
        let mut b23 = encoded(&self.party_reputation);
        let mut b24 = encoded(&self.current_area);
        let mut b25 = encoded_slice(self.gui_flags.as_slice());
        let mut b26 = encoded_slice(self.loading_progress.as_slice());
        let mut b27 = encoded(&self.offset_to_familiar);
        let mut b28 = encoded(&self.offset_to_stored_locations);
        let mut b29 = encoded(&self.count_of_stored_locations);
        let mut b30 = encoded(&self.game_time_real_seconds);
        let mut b31 = encoded(&self.offset_to_pocket_plane_locations);
        let mut b32 = encoded(&self.count_of_pocket_plane_locations);
        let mut b33 = encoded(&self.zoom_level);
        let mut b34 = encoded(&self.random_encounter_area);
        let mut b35 = encoded(&self.current_world_map);
        let mut b36 = encoded(&self.current_campaign);
        let mut b37 = encoded(&self.familiar_owner);
        let mut b38 = encoded(&self.random_encounter_script);
        b37.append(&mut b38);
        b36.append(&mut b37);
        b34.append(&mut b35);
        b34.append(&mut b36);
        b32.append(&mut b33);
        b31.append(&mut b32);
        b29.append(&mut b30);
        b29.append(&mut b31);
        b29.append(&mut b34);
        b27.append(&mut b28);
        b26.append(&mut b27);
        b24.append(&mut b25);
        b24.append(&mut b26);
        b22.append(&mut b23);
        b21.append(&mut b22);
        b19.append(&mut b20);
        b19.append(&mut b21);
        b19.append(&mut b24);
        b19.append(&mut b29);
        b17.append(&mut b18);
        b16.append(&mut b17);
        b14.append(&mut b15);
        b14.append(&mut b16);
        b12.append(&mut b13);
        b11.append(&mut b12);
        b9.append(&mut b10);
        b9.append(&mut b11);
        b9.append(&mut b14);
        b7.append(&mut b8);
        b6.append(&mut b7);
        b4.append(&mut b5);
        b4.append(&mut b6);
        b2.append(&mut b3);
        b0.append(&mut b1);
        b0.append(&mut b2);
        b0.append(&mut b4);
        b0.append(&mut b9);
        b0.append(&mut b19);
        out.append(&mut b0);
    }
}

/// https://gibberlings3.github.io/iesdp/file_formats/ie_formats/gam_v2.0.htm#GAMEV2_0_Variable
#[derive(Debug, Clone, PartialEq)]
pub struct GlobalVariables {
    pub name: CharArray<32>,
    /// bit 0: int
    /// bit 1: float
    /// bit 2: script name
    /// bit 3: resref
    /// bit 4: strref
    /// bit 5: dword
    pub variable_type: u16,
    pub resource_value: u16,
    pub dword_value: u32,
    pub int_value: u32,
    pub double_value: u64,
    pub script_name_value: CharArray<32>,
}

impl GlobalVariables {
    /// Encoding of the fields 0 to 6, in order.
    pub open spec fn bytes_0_7(&self) -> Seq<u8> {
        self.bytes_0_3() + self.bytes_3_7()
    }

    /// Encoding of the fields 0 to 2, in order.
    pub open spec fn bytes_0_3(&self) -> Seq<u8> {
        self.name.enc() + self.bytes_1_3()
    }

    /// Encoding of the fields 1 to 2, in order.
    pub open spec fn bytes_1_3(&self) -> Seq<u8> {
        self.variable_type.enc() + self.resource_value.enc()
    }

    /// Encoding of the fields 3 to 6, in order.
    pub open spec fn bytes_3_7(&self) -> Seq<u8> {
        self.bytes_3_5() + self.bytes_5_7()
    }

    /// Encoding of the fields 3 to 4, in order.
    pub open spec fn bytes_3_5(&self) -> Seq<u8> {
        self.dword_value.enc() + self.int_value.enc()
    }

    /// Encoding of the fields 5 to 6, in order.
    pub open spec fn bytes_5_7(&self) -> Seq<u8> {
        self.double_value.enc() + self.script_name_value.enc()
    }
}

impl Codec for GlobalVariables {
    open spec fn width() -> nat {
        84
    }

    open spec fn enc(&self) -> Seq<u8> {
        self.bytes_0_7()
    }

    open spec fn wf(&self) -> bool {
        true
    }

    open spec fn same(&self, other: &Self) -> bool {
        &&& self.name.same(&other.name)
        &&& self.variable_type == other.variable_type
        &&& self.resource_value == other.resource_value
        &&& self.dword_value == other.dword_value
        &&& self.int_value == other.int_value
        &&& self.double_value == other.double_value
        &&& self.script_name_value.same(&other.script_name_value)
    }

    fn byte_width() -> (n: usize) {
        84
    }

    fn check_wf(&self) -> (b: bool) {
        true
    }

    proof fn lemma_enc_len(&self) {
        self.name.lemma_enc_len();
        self.variable_type.lemma_enc_len();
        self.resource_value.lemma_enc_len();
        self.dword_value.lemma_enc_len();
        self.int_value.lemma_enc_len();
        self.double_value.lemma_enc_len();
        self.script_name_value.lemma_enc_len();
    }

    proof fn lemma_enc_injective(&self, other: &Self) {
        self.name.lemma_enc_len();
        self.variable_type.lemma_enc_len();
        self.resource_value.lemma_enc_len();
        self.dword_value.lemma_enc_len();
        self.int_value.lemma_enc_len();
        self.double_value.lemma_enc_len();
        self.script_name_value.lemma_enc_len();
        other.name.lemma_enc_len();
        other.variable_type.lemma_enc_len();
        other.resource_value.lemma_enc_len();
        other.dword_value.lemma_enc_len();
        other.int_value.lemma_enc_len();
        other.double_value.lemma_enc_len();
        other.script_name_value.lemma_enc_len();
        lemma_concat_peel(self.bytes_0_3(), self.bytes_3_7(), other.bytes_0_3(), other.bytes_3_7());
        lemma_concat_peel(self.name.enc(), self.bytes_1_3(), other.name.enc(), other.bytes_1_3());
        lemma_concat_peel(self.variable_type.enc(), self.resource_value.enc(), other.variable_type.enc(), other.resource_value.enc());
        lemma_concat_peel(self.bytes_3_5(), self.bytes_5_7(), other.bytes_3_5(), other.bytes_5_7());
        lemma_concat_peel(self.dword_value.enc(), self.int_value.enc(), other.dword_value.enc(), other.int_value.enc());
        lemma_concat_peel(self.double_value.enc(), self.script_name_value.enc(), other.double_value.enc(), other.script_name_value.enc());
        self.name.lemma_enc_injective(&other.name);
        self.variable_type.lemma_enc_injective(&other.variable_type);
        self.resource_value.lemma_enc_injective(&other.resource_value);
        self.dword_value.lemma_enc_injective(&other.dword_value);
        self.int_value.lemma_enc_injective(&other.int_value);
        self.double_value.lemma_enc_injective(&other.double_value);
        self.script_name_value.lemma_enc_injective(&other.script_name_value);
    }

    fn decode(buf: &[u8], pos: usize) -> (v: Self) {
        let len = buf.len();
        let fld0 = <CharArray<32>>::decode(buf, pos + 0);
        let fld1 = u16::decode(buf, pos + 32);
        let fld2 = u16::decode(buf, pos + 34);
        let fld3 = u32::decode(buf, pos + 36);
        let fld4 = u32::decode(buf, pos + 40);
        let fld5 = u64::decode(buf, pos + 44);
        let fld6 = <CharArray<32>>::decode(buf, pos + 52);
        let v = GlobalVariables {
            name: fld0,
            variable_type: fld1,
            resource_value: fld2,
            dword_value: fld3,
            int_value: fld4,
            double_value: fld5,
            script_name_value: fld6,
        };
        proof {
            lemma_subrange_concat(buf@, pos + 0, pos + 36, pos + 84);
            lemma_subrange_concat(buf@, pos + 0, pos + 32, pos + 36);
            lemma_subrange_concat(buf@, pos + 32, pos + 34, pos + 36);
            lemma_subrange_concat(buf@, pos + 36, pos + 44, pos + 84);
            lemma_subrange_concat(buf@, pos + 36, pos + 40, pos + 44);
            lemma_subrange_concat(buf@, pos + 44, pos + 52, pos + 84);
        }
        v
    }

    fn encode(&self, out: &mut Vec<u8>) {
        let mut b0 = encoded(&self.name);
        let mut b1 = encoded(&self.variable_type);
        let mut b2 = encoded(&self.resource_value);
        let mut b3 = encoded(&self.dword_value);
        let mut b4 = encoded(&self.int_value);
        let mut b5 = encoded(&self.double_value);
        let mut b6 = encoded(&self.script_name_value);
        b5.append(&mut b6);
        b3.append(&mut b4);
        b3.append(&mut b5);
        b1.append(&mut b2);
        b0.append(&mut b1);
        b0.append(&mut b3);
        out.append(&mut b0);
    }
}

/// https://gibberlings3.github.io/iesdp/file_formats/ie_formats/gam_v2.0.htm#GAMEV2_0_Journal
#[derive(Debug, Clone, PartialEq)]
pub struct JournalEntries {
    pub journal_text: Strref,
    /// seconds
    pub time: u32,
    pub current_chapter_number: u8,
    pub read_by_character: u8,
    /// bit 0: Quests
    /// bit 1: Competed quest
    /// bit 2: Journal Info
    /// bit 4: Journal Info and Completed?
    /// NB. If no bits are set, the entry is a user-note
    pub journal_section: u8,
    /// 0x1F = external TOT/TOH, 0xFF = internal TLK
    pub location_flag: u8,
}

impl JournalEntries {
    /// Encoding of the fields 0 to 5, in order.
    pub open spec fn bytes_0_6(&self) -> Seq<u8> {
        self.bytes_0_3() + self.bytes_3_6()
    }

    /// Encoding of the fields 0 to 2, in order.
    pub open spec fn bytes_0_3(&self) -> Seq<u8> {
        self.journal_text.enc() + self.bytes_1_3()
    }

    /// Encoding of the fields 1 to 2, in order.
    pub open spec fn bytes_1_3(&self) -> Seq<u8> {
        self.time.enc() + self.current_chapter_number.enc()
    }

    /// Encoding of the fields 3 to 5, in order.
    pub open spec fn bytes_3_6(&self) -> Seq<u8> {
        self.read_by_character.enc() + self.bytes_4_6()
    }

    /// Encoding of the fields 4 to 5, in order.
    pub open spec fn bytes_4_6(&self) -> Seq<u8> {
        self.journal_section.enc() + self.location_flag.enc()
    }
}

impl Codec for JournalEntries {
    open spec fn width() -> nat {
        12
    }

    open spec fn enc(&self) -> Seq<u8> {
        self.bytes_0_6()
    }

    open spec fn wf(&self) -> bool {
        true
    }

    open spec fn same(&self, other: &Self) -> bool {
        &&& self.journal_text.same(&other.journal_text)
        &&& self.time == other.time
        &&& self.current_chapter_number == other.current_chapter_number
        &&& self.read_by_character == other.read_by_character
        &&& self.journal_section == other.journal_section
        &&& self.location_flag == other.location_flag
    }

    fn byte_width() -> (n: usize) {
        12
    }

    fn check_wf(&self) -> (b: bool) {
        true
    }

    proof fn lemma_enc_len(&self) {
        self.journal_text.lemma_enc_len();
        self.time.lemma_enc_len();
        self.current_chapter_number.lemma_enc_len();
        self.read_by_character.lemma_enc_len();
        self.journal_section.lemma_enc_len();
        self.location_flag.lemma_enc_len();
    }

    proof fn lemma_enc_injective(&self, other: &Self) {
        self.journal_text.lemma_enc_len();
        self.time.lemma_enc_len();
        self.current_chapter_number.lemma_enc_len();
        self.read_by_character.lemma_enc_len();
        self.journal_section.lemma_enc_len();
        self.location_flag.lemma_enc_len();
        other.journal_text.lemma_enc_len();
        other.time.lemma_enc_len();
        other.current_chapter_number.lemma_enc_len();
        other.read_by_character.lemma_enc_len();
        other.journal_section.lemma_enc_len();
        other.location_flag.lemma_enc_len();
        lemma_concat_peel(self.bytes_0_3(), self.bytes_3_6(), other.bytes_0_3(), other.bytes_3_6());
        lemma_concat_peel(self.journal_text.enc(), self.bytes_1_3(), other.journal_text.enc(), other.bytes_1_3());
        lemma_concat_peel(self.time.enc(), self.current_chapter_number.enc(), other.time.enc(), other.current_chapter_number.enc());
        lemma_concat_peel(self.read_by_character.enc(), self.bytes_4_6(), other.read_by_character.enc(), other.bytes_4_6());
        lemma_concat_peel(self.journal_section.enc(), self.location_flag.enc(), other.journal_section.enc(), other.location_flag.enc());
        self.journal_text.lemma_enc_injective(&other.journal_text);
        self.time.lemma_enc_injective(&other.time);
        self.current_chapter_number.lemma_enc_injective(&other.current_chapter_number);
        self.read_by_character.lemma_enc_injective(&other.read_by_character);
        self.journal_section.lemma_enc_injective(&other.journal_section);
        self.location_flag.lemma_enc_injective(&other.location_flag);
    }

    fn decode(buf: &[u8], pos: usize) -> (v: Self) {
        let len = buf.len();
        let fld0 = Strref::decode(buf, pos + 0);
        let fld1 = u32::decode(buf, pos + 4);
        let fld2 = u8::decode(buf, pos + 8);
        let fld3 = u8::decode(buf, pos + 9);
        let fld4 = u8::decode(buf, pos + 10);
        let fld5 = u8::decode(buf, pos + 11);
        let v = JournalEntries {
            journal_text: fld0,
            time: fld1,
            current_chapter_number: fld2,
            read_by_character: fld3,
            journal_section: fld4,
            location_flag: fld5,
        };
        proof {
            lemma_subrange_concat(buf@, pos + 0, pos + 9, pos + 12);
            lemma_subrange_concat(buf@, pos + 0, pos + 4, pos + 9);
            lemma_subrange_concat(buf@, pos + 4, pos + 8, pos + 9);
            lemma_subrange_concat(buf@, pos + 9, pos + 10, pos + 12);
            lemma_subrange_concat(buf@, pos + 10, pos + 11, pos + 12);
        }
        v
    }

    fn encode(&self, out: &mut Vec<u8>) {
        let mut b0 = encoded(&self.journal_text);
        let mut b1 = encoded(&self.time);
        let mut b2 = encoded(&self.current_chapter_number);
        let mut b3 = encoded(&self.read_by_character);
        let mut b4 = encoded(&self.journal_section);
        let mut b5 = encoded(&self.location_flag);
        b4.append(&mut b5);
        b3.append(&mut b4);
        b1.append(&mut b2);
        b0.append(&mut b1);
        b0.append(&mut b3);
        out.append(&mut b0);
    }
}

/// https://gibberlings3.github.io/iesdp/file_formats/ie_formats/gam_v2.0.htm#GAMEV2_0_Familiar
#[derive(Debug, Clone, PartialEq)]
pub struct Familiar {
    pub lawful_good_familiar: Resref,
    pub lawful_neutral_familiar: Resref,
    pub lawful_evil_familiar: Resref,
    pub neutral_good_familiar: Resref,
    pub neutral_familiar: Resref,
    pub neutral_evil_familiar: Resref,
    pub chaotic_good_familiar: Resref,
    pub chaotic_neutral_familiar: Resref,
    pub chaotic_evil_familiar: Resref,
    pub offset_to_familiar_resources: u32,
    pub ce_level_1_familiar_spell_count: u32,
    pub ce_level_2_familiar_spell_count: u32,
    pub ce_level_3_familiar_spell_count: u32,
    pub ce_level_4_familiar_spell_count: u32,
    pub ce_level_5_familiar_spell_count: u32,
    pub ce_level_6_familiar_spell_count: u32,
    pub ce_level_7_familiar_spell_count: u32,
    pub ce_level_8_familiar_spell_count: u32,
    pub ce_level_9_familiar_spell_count: u32,
    pub cg_level_1_familiar_spell_count: u32,
    pub cg_level_2_familiar_spell_count: u32,
    pub cg_level_3_familiar_spell_count: u32,
    pub cg_level_4_familiar_spell_count: u32,
    pub cg_level_5_familiar_spell_count: u32,
    pub cg_level_6_familiar_spell_count: u32,
    pub cg_level_7_familiar_spell_count: u32,
    pub cg_level_8_familiar_spell_count: u32,
    pub cg_level_9_familiar_spell_count: u32,
    pub cn_level_1_familiar_spell_count: u32,
    pub cn_level_2_familiar_spell_count: u32,
    pub cn_level_3_familiar_spell_count: u32,
    pub cn_level_4_familiar_spell_count: u32,
    pub cn_level_5_familiar_spell_count: u32,
    pub cn_level_6_familiar_spell_count: u32,
    pub cn_level_7_familiar_spell_count: u32,
    pub cn_level_8_familiar_spell_count: u32,
    pub cn_level_9_familiar_spell_count: u32,
    pub le_level_1_familiar_spell_count: u32,
    pub le_level_2_familiar_spell_count: u32,
    pub le_level_3_familiar_spell_count: u32,
    pub le_level_4_familiar_spell_count: u32,
    pub le_level_5_familiar_spell_count: u32,
    pub le_level_6_familiar_spell_count: u32,
    pub le_level_7_familiar_spell_count: u32,
    pub le_level_8_familiar_spell_count: u32,
    pub le_level_9_familiar_spell_count: u32,
    pub lg_level_1_familiar_spell_count: u32,
    pub lg_level_2_familiar_spell_count: u32,
    pub lg_level_3_familiar_spell_count: u32,
    pub lg_level_4_familiar_spell_count: u32,
    pub lg_level_5_familiar_spell_count: u32,
    pub lg_level_6_familiar_spell_count: u32,
    pub lg_level_7_familiar_spell_count: u32,
    pub lg_level_8_familiar_spell_count: u32,
    pub lg_level_9_familiar_spell_count: u32,
    pub ln_level_1_familiar_spell_count: u32,
    pub ln_level_2_familiar_spell_count: u32,
    pub ln_level_3_familiar_spell_count: u32,
    pub ln_level_4_familiar_spell_count: u32,
    pub ln_level_5_familiar_spell_count: u32,
    pub ln_level_6_familiar_spell_count: u32,
    pub ln_level_7_familiar_spell_count: u32,
    pub ln_level_8_familiar_spell_count: u32,
    pub ln_level_9_familiar_spell_count: u32,
    pub ne_level_1_familiar_spell_count: u32,
    pub ne_level_2_familiar_spell_count: u32,
    pub ne_level_3_familiar_spell_count: u32,
    pub ne_level_4_familiar_spell_count: u32,
    pub ne_level_5_familiar_spell_count: u32,
    pub ne_level_6_familiar_spell_count: u32,
    pub ne_level_7_familiar_spell_count: u32,
    pub ne_level_8_familiar_spell_count: u32,
    pub ne_level_9_familiar_spell_count: u32,
    pub ng_level_1_familiar_spell_count: u32,
    pub ng_level_2_familiar_spell_count: u32,
    pub ng_level_3_familiar_spell_count: u32,
    pub ng_level_4_familiar_spell_count: u32,
    pub ng_level_5_familiar_spell_count: u32,
    pub ng_level_6_familiar_spell_count: u32,
    pub ng_level_7_familiar_spell_count: u32,
    pub ng_level_8_familiar_spell_count: u32,
    pub ng_level_9_familiar_spell_count: u32,
    pub tn_level_1_familiar_spell_count: u32,
    pub tn_level_2_familiar_spell_count: u32,
    pub tn_level_3_familiar_spell_count: u32,
    pub tn_level_4_familiar_spell_count: u32,
    pub tn_level_5_familiar_spell_count: u32,
    pub tn_level_6_familiar_spell_count: u32,
    pub tn_level_7_familiar_spell_count: u32,
    pub tn_level_8_familiar_spell_count: u32,
    pub tn_level_9_familiar_spell_count: u32,
}

impl Familiar {
    /// Encoding of the fields 0 to 90, in order.
    pub open spec fn bytes_0_91(&self) -> Seq<u8> {
        self.bytes_0_45() + self.bytes_45_91()
    }

    /// Encoding of the fields 0 to 44, in order.
    pub open spec fn bytes_0_45(&self) -> Seq<u8> {
        self.bytes_0_22() + self.bytes_22_45()
    }

    /// Encoding of the fields 0 to 21, in order.
    pub open spec fn bytes_0_22(&self) -> Seq<u8> {
        self.bytes_0_11() + self.bytes_11_22()
    }

    /// Encoding of the fields 0 to 10, in order.
    pub open spec fn bytes_0_11(&self) -> Seq<u8> {
        self.bytes_0_5() + self.bytes_5_11()
    }

    /// Encoding of the fields 0 to 4, in order.
    pub open spec fn bytes_0_5(&self) -> Seq<u8> {
        self.bytes_0_2() + self.bytes_2_5()
    }

    /// Encoding of the fields 0 to 1, in order.
    pub open spec fn bytes_0_2(&self) -> Seq<u8> {
        self.lawful_good_familiar.enc() + self.lawful_neutral_familiar.enc()
    }

    /// Encoding of the fields 2 to 4, in order.
    pub open spec fn bytes_2_5(&self) -> Seq<u8> {
        self.lawful_evil_familiar.enc() + self.bytes_3_5()
    }

    /// Encoding of the fields 3 to 4, in order.
    pub open spec fn bytes_3_5(&self) -> Seq<u8> {
        self.neutral_good_familiar.enc() + self.neutral_familiar.enc()
    }

    /// Encoding of the fields 5 to 10, in order.
    pub open spec fn bytes_5_11(&self) -> Seq<u8> {
        self.bytes_5_8() + self.bytes_8_11()
    }

    /// Encoding of the fields 5 to 7, in order.
    pub open spec fn bytes_5_8(&self) -> Seq<u8> {
        self.neutral_evil_familiar.enc() + self.bytes_6_8()
    }

    /// Encoding of the fields 6 to 7, in order.
    pub open spec fn bytes_6_8(&self) -> Seq<u8> {
        self.chaotic_good_familiar.enc() + self.chaotic_neutral_familiar.enc()
    }

    /// Encoding of the fields 8 to 10, in order.
    pub open spec fn bytes_8_11(&self) -> Seq<u8> {
        self.chaotic_evil_familiar.enc() + self.bytes_9_11()
    }

    /// Encoding of the fields 9 to 10, in order.
    pub open spec fn bytes_9_11(&self) -> Seq<u8> {
        self.offset_to_familiar_resources.enc() + self.ce_level_1_familiar_spell_count.enc()
    }

    /// Encoding of the fields 11 to 21, in order.
    pub open spec fn bytes_11_22(&self) -> Seq<u8> {
        self.bytes_11_16() + self.bytes_16_22()
    }

    /// Encoding of the fields 11 to 15, in order.
    pub open spec fn bytes_11_16(&self) -> Seq<u8> {
        self.bytes_11_13() + self.bytes_13_16()
    }

    /// Encoding of the fields 11 to 12, in order.
    pub open spec fn bytes_11_13(&self) -> Seq<u8> {
        self.ce_level_2_familiar_spell_count.enc() + self.ce_level_3_familiar_spell_count.enc()
    }

    /// Encoding of the fields 13 to 15, in order.
    pub open spec fn bytes_13_16(&self) -> Seq<u8> {
        self.ce_level_4_familiar_spell_count.enc() + self.bytes_14_16()
    }

    /// Encoding of the fields 14 to 15, in order.
    pub open spec fn bytes_14_16(&self) -> Seq<u8> {
        self.ce_level_5_familiar_spell_count.enc() + self.ce_level_6_familiar_spell_count.enc()
    }

    /// Encoding of the fields 16 to 21, in order.
    pub open spec fn bytes_16_22(&self) -> Seq<u8> {
        self.bytes_16_19() + self.bytes_19_22()
    }

    /// Encoding of the fields 16 to 18, in order.
    pub open spec fn bytes_16_19(&self) -> Seq<u8> {
        self.ce_level_7_familiar_spell_count.enc() + self.bytes_17_19()
    }

    /// Encoding of the fields 17 to 18, in order.
    pub open spec fn bytes_17_19(&self) -> Seq<u8> {
        self.ce_level_8_familiar_spell_count.enc() + self.ce_level_9_familiar_spell_count.enc()
    }

    /// Encoding of the fields 19 to 21, in order.
    pub open spec fn bytes_19_22(&self) -> Seq<u8> {
        self.cg_level_1_familiar_spell_count.enc() + self.bytes_20_22()
    }

    /// Encoding of the fields 20 to 21, in order.
    pub open spec fn bytes_20_22(&self) -> Seq<u8> {
        self.cg_level_2_familiar_spell_count.enc() + self.cg_level_3_familiar_spell_count.enc()
    }

    /// Encoding of the fields 22 to 44, in order.
    pub open spec fn bytes_22_45(&self) -> Seq<u8> {
        self.bytes_22_33() + self.bytes_33_45()
    }

    /// Encoding of the fields 22 to 32, in order.
    pub open spec fn bytes_22_33(&self) -> Seq<u8> {
        self.bytes_22_27() + self.bytes_27_33()
    }

    /// Encoding of the fields 22 to 26, in order.
    pub open spec fn bytes_22_27(&self) -> Seq<u8> {
        self.bytes_22_24() + self.bytes_24_27()
    }

    /// Encoding of the fields 22 to 23, in order.
    pub open spec fn bytes_22_24(&self) -> Seq<u8> {
        self.cg_level_4_familiar_spell_count.enc() + self.cg_level_5_familiar_spell_count.enc()
    }

    /// Encoding of the fields 24 to 26, in order.
    pub open spec fn bytes_24_27(&self) -> Seq<u8> {
        self.cg_level_6_familiar_spell_count.enc() + self.bytes_25_27()
    }

    /// Encoding of the fields 25 to 26, in order.
    pub open spec fn bytes_25_27(&self) -> Seq<u8> {
        self.cg_level_7_familiar_spell_count.enc() + self.cg_level_8_familiar_spell_count.enc()
    }

    /// Encoding of the fields 27 to 32, in order.
    pub open spec fn bytes_27_33(&self) -> Seq<u8> {
        self.bytes_27_30() + self.bytes_30_33()
    }

    /// Encoding of the fields 27 to 29, in order.
    pub open spec fn bytes_27_30(&self) -> Seq<u8> {
        self.cg_level_9_familiar_spell_count.enc() + self.bytes_28_30()
    }

    /// Encoding of the fields 28 to 29, in order.
    pub open spec fn bytes_28_30(&self) -> Seq<u8> {
        self.cn_level_1_familiar_spell_count.enc() + self.cn_level_2_familiar_spell_count.enc()
    }

    /// Encoding of the fields 30 to 32, in order.
    pub open spec fn bytes_30_33(&self) -> Seq<u8> {
        self.cn_level_3_familiar_spell_count.enc() + self.bytes_31_33()
    }

    /// Encoding of the fields 31 to 32, in order.
    pub open spec fn bytes_31_33(&self) -> Seq<u8> {
        self.cn_level_4_familiar_spell_count.enc() + self.cn_level_5_familiar_spell_count.enc()
    }

    /// Encoding of the fields 33 to 44, in order.
    pub open spec fn bytes_33_45(&self) -> Seq<u8> {
        self.bytes_33_39() + self.bytes_39_45()
    }

    /// Encoding of the fields 33 to 38, in order.
    pub open spec fn bytes_33_39(&self) -> Seq<u8> {
        self.bytes_33_36() + self.bytes_36_39()
    }

    /// Encoding of the fields 33 to 35, in order.
    pub open spec fn bytes_33_36(&self) -> Seq<u8> {
        self.cn_level_6_familiar_spell_count.enc() + self.bytes_34_36()
    }

    /// Encoding of the fields 34 to 35, in order.
    pub open spec fn bytes_34_36(&self) -> Seq<u8> {
        self.cn_level_7_familiar_spell_count.enc() + self.cn_level_8_familiar_spell_count.enc()
    }

    /// Encoding of the fields 36 to 38, in order.
    pub open spec fn bytes_36_39(&self) -> Seq<u8> {
        self.cn_level_9_familiar_spell_count.enc() + self.bytes_37_39()
    }

    /// Encoding of the fields 37 to 38, in order.
    pub open spec fn bytes_37_39(&self) -> Seq<u8> {
        self.le_level_1_familiar_spell_count.enc() + self.le_level_2_familiar_spell_count.enc()
    }

    /// Encoding of the fields 39 to 44, in order.
    pub open spec fn bytes_39_45(&self) -> Seq<u8> {
        self.bytes_39_42() + self.bytes_42_45()
    }

    /// Encoding of the fields 39 to 41, in order.
    pub open spec fn bytes_39_42(&self) -> Seq<u8> {
        self.le_level_3_familiar_spell_count.enc() + self.bytes_40_42()
    }

    /// Encoding of the fields 40 to 41, in order.
    pub open spec fn bytes_40_42(&self) -> Seq<u8> {
        self.le_level_4_familiar_spell_count.enc() + self.le_level_5_familiar_spell_count.enc()
    }

    /// Encoding of the fields 42 to 44, in order.
    pub open spec fn bytes_42_45(&self) -> Seq<u8> {
        self.le_level_6_familiar_spell_count.enc() + self.bytes_43_45()
    }

    /// Encoding of the fields 43 to 44, in order.
    pub open spec fn bytes_43_45(&self) -> Seq<u8> {
        self.le_level_7_familiar_spell_count.enc() + self.le_level_8_familiar_spell_count.enc()
    }

    /// Encoding of the fields 45 to 90, in order.
    pub open spec fn bytes_45_91(&self) -> Seq<u8> {
        self.bytes_45_68() + self.bytes_68_91()
    }

    /// Encoding of the fields 45 to 67, in order.
    pub open spec fn bytes_45_68(&self) -> Seq<u8> {
        self.bytes_45_56() + self.bytes_56_68()
    }

    /// Encoding of the fields 45 to 55, in order.
    pub open spec fn bytes_45_56(&self) -> Seq<u8> {
        self.bytes_45_50() + self.bytes_50_56()
    }

    /// Encoding of the fields 45 to 49, in order.
    pub open spec fn bytes_45_50(&self) -> Seq<u8> {
        self.bytes_45_47() + self.bytes_47_50()
    }

    /// Encoding of the fields 45 to 46, in order.
    pub open spec fn bytes_45_47(&self) -> Seq<u8> {
        self.le_level_9_familiar_spell_count.enc() + self.lg_level_1_familiar_spell_count.enc()
    }

    /// Encoding of the fields 47 to 49, in order.
    pub open spec fn bytes_47_50(&self) -> Seq<u8> {
        self.lg_level_2_familiar_spell_count.enc() + self.bytes_48_50()
    }

    /// Encoding of the fields 48 to 49, in order.
    pub open spec fn bytes_48_50(&self) -> Seq<u8> {
        self.lg_level_3_familiar_spell_count.enc() + self.lg_level_4_familiar_spell_count.enc()
    }

    /// Encoding of the fields 50 to 55, in order.
    pub open spec fn bytes_50_56(&self) -> Seq<u8> {
        self.bytes_50_53() + self.bytes_53_56()
    }

    /// Encoding of the fields 50 to 52, in order.
    pub open spec fn bytes_50_53(&self) -> Seq<u8> {
        self.lg_level_5_familiar_spell_count.enc() + self.bytes_51_53()
    }

    /// Encoding of the fields 51 to 52, in order.
    pub open spec fn bytes_51_53(&self) -> Seq<u8> {
        self.lg_level_6_familiar_spell_count.enc() + self.lg_level_7_familiar_spell_count.enc()
    }

    /// Encoding of the fields 53 to 55, in order.
    pub open spec fn bytes_53_56(&self) -> Seq<u8> {
        self.lg_level_8_familiar_spell_count.enc() + self.bytes_54_56()
    }

    /// Encoding of the fields 54 to 55, in order.
    pub open spec fn bytes_54_56(&self) -> Seq<u8> {
        self.lg_level_9_familiar_spell_count.enc() + self.ln_level_1_familiar_spell_count.enc()
    }

    /// Encoding of the fields 56 to 67, in order.
    pub open spec fn bytes_56_68(&self) -> Seq<u8> {
        self.bytes_56_62() + self.bytes_62_68()
    }

    /// Encoding of the fields 56 to 61, in order.
    pub open spec fn bytes_56_62(&self) -> Seq<u8> {
        self.bytes_56_59() + self.bytes_59_62()
    }

    /// Encoding of the fields 56 to 58, in order.
    pub open spec fn bytes_56_59(&self) -> Seq<u8> {
        self.ln_level_2_familiar_spell_count.enc() + self.bytes_57_59()
    }

    /// Encoding of the fields 57 to 58, in order.
    pub open spec fn bytes_57_59(&self) -> Seq<u8> {
        self.ln_level_3_familiar_spell_count.enc() + self.ln_level_4_familiar_spell_count.enc()
    }

    /// Encoding of the fields 59 to 61, in order.
    pub open spec fn bytes_59_62(&self) -> Seq<u8> {
        self.ln_level_5_familiar_spell_count.enc() + self.bytes_60_62()
    }

    /// Encoding of the fields 60 to 61, in order.
    pub open spec fn bytes_60_62(&self) -> Seq<u8> {
        self.ln_level_6_familiar_spell_count.enc() + self.ln_level_7_familiar_spell_count.enc()
    }

    /// Encoding of the fields 62 to 67, in order.
    pub open spec fn bytes_62_68(&self) -> Seq<u8> {
        self.bytes_62_65() + self.bytes_65_68()
    }

    /// Encoding of the fields 62 to 64, in order.
    pub open spec fn bytes_62_65(&self) -> Seq<u8> {
        self.ln_level_8_familiar_spell_count.enc() + self.bytes_63_65()
    }

    /// Encoding of the fields 63 to 64, in order.
    pub open spec fn bytes_63_65(&self) -> Seq<u8> {
        self.ln_level_9_familiar_spell_count.enc() + self.ne_level_1_familiar_spell_count.enc()
    }

    /// Encoding of the fields 65 to 67, in order.
    pub open spec fn bytes_65_68(&self) -> Seq<u8> {
        self.ne_level_2_familiar_spell_count.enc() + self.bytes_66_68()
    }

    /// Encoding of the fields 66 to 67, in order.
    pub open spec fn bytes_66_68(&self) -> Seq<u8> {
        self.ne_level_3_familiar_spell_count.enc() + self.ne_level_4_familiar_spell_count.enc()
    }

    /// Encoding of the fields 68 to 90, in order.
    pub open spec fn bytes_68_91(&self) -> Seq<u8> {
        self.bytes_68_79() + self.bytes_79_91()
    }

    /// Encoding of the fields 68 to 78, in order.
    pub open spec fn bytes_68_79(&self) -> Seq<u8> {
        self.bytes_68_73() + self.bytes_73_79()
    }

    /// Encoding of the fields 68 to 72, in order.
    pub open spec fn bytes_68_73(&self) -> Seq<u8> {
        self.bytes_68_70() + self.bytes_70_73()
    }

    /// Encoding of the fields 68 to 69, in order.
    pub open spec fn bytes_68_70(&self) -> Seq<u8> {
        self.ne_level_5_familiar_spell_count.enc() + self.ne_level_6_familiar_spell_count.enc()
    }

    /// Encoding of the fields 70 to 72, in order.
    pub open spec fn bytes_70_73(&self) -> Seq<u8> {
        self.ne_level_7_familiar_spell_count.enc() + self.bytes_71_73()
    }

    /// Encoding of the fields 71 to 72, in order.
    pub open spec fn bytes_71_73(&self) -> Seq<u8> {
        self.ne_level_8_familiar_spell_count.enc() + self.ne_level_9_familiar_spell_count.enc()
    }

    /// Encoding of the fields 73 to 78, in order.
    pub open spec fn bytes_73_79(&self) -> Seq<u8> {
        self.bytes_73_76() + self.bytes_76_79()
    }

    /// Encoding of the fields 73 to 75, in order.
    pub open spec fn bytes_73_76(&self) -> Seq<u8> {
        self.ng_level_1_familiar_spell_count.enc() + self.bytes_74_76()
    }

    /// Encoding of the fields 74 to 75, in order.
    pub open spec fn bytes_74_76(&self) -> Seq<u8> {
        self.ng_level_2_familiar_spell_count.enc() + self.ng_level_3_familiar_spell_count.enc()
    }

    /// Encoding of the fields 76 to 78, in order.
    pub open spec fn bytes_76_79(&self) -> Seq<u8> {
        self.ng_level_4_familiar_spell_count.enc() + self.bytes_77_79()
    }

    /// Encoding of the fields 77 to 78, in order.
    pub open spec fn bytes_77_79(&self) -> Seq<u8> {
        self.ng_level_5_familiar_spell_count.enc() + self.ng_level_6_familiar_spell_count.enc()
    }

    /// Encoding of the fields 79 to 90, in order.
    pub open spec fn bytes_79_91(&self) -> Seq<u8> {
        self.bytes_79_85() + self.bytes_85_91()
    }

    /// Encoding of the fields 79 to 84, in order.
    pub open spec fn bytes_79_85(&self) -> Seq<u8> {
        self.bytes_79_82() + self.bytes_82_85()
    }

    /// Encoding of the fields 79 to 81, in order.
    pub open spec fn bytes_79_82(&self) -> Seq<u8> {
        self.ng_level_7_familiar_spell_count.enc() + self.bytes_80_82()
    }

    /// Encoding of the fields 80 to 81, in order.
    pub open spec fn bytes_80_82(&self) -> Seq<u8> {
        self.ng_level_8_familiar_spell_count.enc() + self.ng_level_9_familiar_spell_count.enc()
    }

    /// Encoding of the fields 82 to 84, in order.
    pub open spec fn bytes_82_85(&self) -> Seq<u8> {
        self.tn_level_1_familiar_spell_count.enc() + self.bytes_83_85()
    }

    /// Encoding of the fields 83 to 84, in order.
    pub open spec fn bytes_83_85(&self) -> Seq<u8> {
        self.tn_level_2_familiar_spell_count.enc() + self.tn_level_3_familiar_spell_count.enc()
    }

    /// Encoding of the fields 85 to 90, in order.
    pub open spec fn bytes_85_91(&self) -> Seq<u8> {
        self.bytes_85_88() + self.bytes_88_91()
    }

    /// Encoding of the fields 85 to 87, in order.
    pub open spec fn bytes_85_88(&self) -> Seq<u8> {
        self.tn_level_4_familiar_spell_count.enc() + self.bytes_86_88()
    }

    /// Encoding of the fields 86 to 87, in order.
    pub open spec fn bytes_86_88(&self) -> Seq<u8> {
        self.tn_level_5_familiar_spell_count.enc() + self.tn_level_6_familiar_spell_count.enc()
    }

    /// Encoding of the fields 88 to 90, in order.
    pub open spec fn bytes_88_91(&self) -> Seq<u8> {
        self.tn_level_7_familiar_spell_count.enc() + self.bytes_89_91()
    }

    /// Encoding of the fields 89 to 90, in order.
    pub open spec fn bytes_89_91(&self) -> Seq<u8> {
        self.tn_level_8_familiar_spell_count.enc() + self.tn_level_9_familiar_spell_count.enc()
    }
}

impl Codec for Familiar {
    open spec fn width() -> nat {
        400
    }

    open spec fn enc(&self) -> Seq<u8> {
        self.bytes_0_91()
    }

    open spec fn wf(&self) -> bool {
        true
    }

    open spec fn same(&self, other: &Self) -> bool {
        &&& self.lawful_good_familiar.same(&other.lawful_good_familiar)
        &&& self.lawful_neutral_familiar.same(&other.lawful_neutral_familiar)
        &&& self.lawful_evil_familiar.same(&other.lawful_evil_familiar)
        &&& self.neutral_good_familiar.same(&other.neutral_good_familiar)
        &&& self.neutral_familiar.same(&other.neutral_familiar)
        &&& self.neutral_evil_familiar.same(&other.neutral_evil_familiar)
        &&& self.chaotic_good_familiar.same(&other.chaotic_good_familiar)
        &&& self.chaotic_neutral_familiar.same(&other.chaotic_neutral_familiar)
        &&& self.chaotic_evil_familiar.same(&other.chaotic_evil_familiar)
        &&& self.offset_to_familiar_resources == other.offset_to_familiar_resources
        &&& self.ce_level_1_familiar_spell_count == other.ce_level_1_familiar_spell_count
        &&& self.ce_level_2_familiar_spell_count == other.ce_level_2_familiar_spell_count
        &&& self.ce_level_3_familiar_spell_count == other.ce_level_3_familiar_spell_count
        &&& self.ce_level_4_familiar_spell_count == other.ce_level_4_familiar_spell_count
        &&& self.ce_level_5_familiar_spell_count == other.ce_level_5_familiar_spell_count
        &&& self.ce_level_6_familiar_spell_count == other.ce_level_6_familiar_spell_count
        &&& self.ce_level_7_familiar_spell_count == other.ce_level_7_familiar_spell_count
        &&& self.ce_level_8_familiar_spell_count == other.ce_level_8_familiar_spell_count
        &&& self.ce_level_9_familiar_spell_count == other.ce_level_9_familiar_spell_count
        &&& self.cg_level_1_familiar_spell_count == other.cg_level_1_familiar_spell_count
        &&& self.cg_level_2_familiar_spell_count == other.cg_level_2_familiar_spell_count
        &&& self.cg_level_3_familiar_spell_count == other.cg_level_3_familiar_spell_count
        &&& self.cg_level_4_familiar_spell_count == other.cg_level_4_familiar_spell_count
        &&& self.cg_level_5_familiar_spell_count == other.cg_level_5_familiar_spell_count
        &&& self.cg_level_6_familiar_spell_count == other.cg_level_6_familiar_spell_count
        &&& self.cg_level_7_familiar_spell_count == other.cg_level_7_familiar_spell_count
        &&& self.cg_level_8_familiar_spell_count == other.cg_level_8_familiar_spell_count
        &&& self.cg_level_9_familiar_spell_count == other.cg_level_9_familiar_spell_count
        &&& self.cn_level_1_familiar_spell_count == other.cn_level_1_familiar_spell_count
        &&& self.cn_level_2_familiar_spell_count == other.cn_level_2_familiar_spell_count
        &&& self.cn_level_3_familiar_spell_count == other.cn_level_3_familiar_spell_count
        &&& self.cn_level_4_familiar_spell_count == other.cn_level_4_familiar_spell_count
        &&& self.cn_level_5_familiar_spell_count == other.cn_level_5_familiar_spell_count
        &&& self.cn_level_6_familiar_spell_count == other.cn_level_6_familiar_spell_count
        &&& self.cn_level_7_familiar_spell_count == other.cn_level_7_familiar_spell_count
        &&& self.cn_level_8_familiar_spell_count == other.cn_level_8_familiar_spell_count
        &&& self.cn_level_9_familiar_spell_count == other.cn_level_9_familiar_spell_count
        &&& self.le_level_1_familiar_spell_count == other.le_level_1_familiar_spell_count
        &&& self.le_level_2_familiar_spell_count == other.le_level_2_familiar_spell_count
        &&& self.le_level_3_familiar_spell_count == other.le_level_3_familiar_spell_count
        &&& self.le_level_4_familiar_spell_count == other.le_level_4_familiar_spell_count
        &&& self.le_level_5_familiar_spell_count == other.le_level_5_familiar_spell_count
        &&& self.le_level_6_familiar_spell_count == other.le_level_6_familiar_spell_count
        &&& self.le_level_7_familiar_spell_count == other.le_level_7_familiar_spell_count
        &&& self.le_level_8_familiar_spell_count == other.le_level_8_familiar_spell_count
        &&& self.le_level_9_familiar_spell_count == other.le_level_9_familiar_spell_count
        &&& self.lg_level_1_familiar_spell_count == other.lg_level_1_familiar_spell_count
        &&& self.lg_level_2_familiar_spell_count == other.lg_level_2_familiar_spell_count
        &&& self.lg_level_3_familiar_spell_count == other.lg_level_3_familiar_spell_count
        &&& self.lg_level_4_familiar_spell_count == other.lg_level_4_familiar_spell_count
        &&& self.lg_level_5_familiar_spell_count == other.lg_level_5_familiar_spell_count
        &&& self.lg_level_6_familiar_spell_count == other.lg_level_6_familiar_spell_count
        &&& self.lg_level_7_familiar_spell_count == other.lg_level_7_familiar_spell_count
        &&& self.lg_level_8_familiar_spell_count == other.lg_level_8_familiar_spell_count
        &&& self.lg_level_9_familiar_spell_count == other.lg_level_9_familiar_spell_count
        &&& self.ln_level_1_familiar_spell_count == other.ln_level_1_familiar_spell_count
        &&& self.ln_level_2_familiar_spell_count == other.ln_level_2_familiar_spell_count
        &&& self.ln_level_3_familiar_spell_count == other.ln_level_3_familiar_spell_count
        &&& self.ln_level_4_familiar_spell_count == other.ln_level_4_familiar_spell_count
        &&& self.ln_level_5_familiar_spell_count == other.ln_level_5_familiar_spell_count
        &&& self.ln_level_6_familiar_spell_count == other.ln_level_6_familiar_spell_count
        &&& self.ln_level_7_familiar_spell_count == other.ln_level_7_familiar_spell_count
        &&& self.ln_level_8_familiar_spell_count == other.ln_level_8_familiar_spell_count
        &&& self.ln_level_9_familiar_spell_count == other.ln_level_9_familiar_spell_count
        &&& self.ne_level_1_familiar_spell_count == other.ne_level_1_familiar_spell_count
        &&& self.ne_level_2_familiar_spell_count == other.ne_level_2_familiar_spell_count
        &&& self.ne_level_3_familiar_spell_count == other.ne_level_3_familiar_spell_count
        &&& self.ne_level_4_familiar_spell_count == other.ne_level_4_familiar_spell_count
        &&& self.ne_level_5_familiar_spell_count == other.ne_level_5_familiar_spell_count
        &&& self.ne_level_6_familiar_spell_count == other.ne_level_6_familiar_spell_count
        &&& self.ne_level_7_familiar_spell_count == other.ne_level_7_familiar_spell_count
        &&& self.ne_level_8_familiar_spell_count == other.ne_level_8_familiar_spell_count
        &&& self.ne_level_9_familiar_spell_count == other.ne_level_9_familiar_spell_count
        &&& self.ng_level_1_familiar_spell_count == other.ng_level_1_familiar_spell_count
        &&& self.ng_level_2_familiar_spell_count == other.ng_level_2_familiar_spell_count
        &&& self.ng_level_3_familiar_spell_count == other.ng_level_3_familiar_spell_count
        &&& self.ng_level_4_familiar_spell_count == other.ng_level_4_familiar_spell_count
        &&& self.ng_level_5_familiar_spell_count == other.ng_level_5_familiar_spell_count
        &&& self.ng_level_6_familiar_spell_count == other.ng_level_6_familiar_spell_count
        &&& self.ng_level_7_familiar_spell_count == other.ng_level_7_familiar_spell_count
        &&& self.ng_level_8_familiar_spell_count == other.ng_level_8_familiar_spell_count
        &&& self.ng_level_9_familiar_spell_count == other.ng_level_9_familiar_spell_count
        &&& self.tn_level_1_familiar_spell_count == other.tn_level_1_familiar_spell_count
        &&& self.tn_level_2_familiar_spell_count == other.tn_level_2_familiar_spell_count
        &&& self.tn_level_3_familiar_spell_count == other.tn_level_3_familiar_spell_count
        &&& self.tn_level_4_familiar_spell_count == other.tn_level_4_familiar_spell_count
        &&& self.tn_level_5_familiar_spell_count == other.tn_level_5_familiar_spell_count
        &&& self.tn_level_6_familiar_spell_count == other.tn_level_6_familiar_spell_count
        &&& self.tn_level_7_familiar_spell_count == other.tn_level_7_familiar_spell_count
        &&& self.tn_level_8_familiar_spell_count == other.tn_level_8_familiar_spell_count
        &&& self.tn_level_9_familiar_spell_count == other.tn_level_9_familiar_spell_count
    }

    fn byte_width() -> (n: usize) {
        400
    }

    fn check_wf(&self) -> (b: bool) {
        true
    }

    proof fn lemma_enc_len(&self) {
        self.lawful_good_familiar.lemma_enc_len();
        self.lawful_neutral_familiar.lemma_enc_len();
        self.lawful_evil_familiar.lemma_enc_len();
        self.neutral_good_familiar.lemma_enc_len();
        self.neutral_familiar.lemma_enc_len();
        self.neutral_evil_familiar.lemma_enc_len();
        self.chaotic_good_familiar.lemma_enc_len();
        self.chaotic_neutral_familiar.lemma_enc_len();
        self.chaotic_evil_familiar.lemma_enc_len();
        self.offset_to_familiar_resources.lemma_enc_len();
        self.ce_level_1_familiar_spell_count.lemma_enc_len();
        self.ce_level_2_familiar_spell_count.lemma_enc_len();
        self.ce_level_3_familiar_spell_count.lemma_enc_len();
        self.ce_level_4_familiar_spell_count.lemma_enc_len();
        self.ce_level_5_familiar_spell_count.lemma_enc_len();
        self.ce_level_6_familiar_spell_count.lemma_enc_len();
        self.ce_level_7_familiar_spell_count.lemma_enc_len();
        self.ce_level_8_familiar_spell_count.lemma_enc_len();
        self.ce_level_9_familiar_spell_count.lemma_enc_len();
        self.cg_level_1_familiar_spell_count.lemma_enc_len();
        self.cg_level_2_familiar_spell_count.lemma_enc_len();
        self.cg_level_3_familiar_spell_count.lemma_enc_len();
        self.cg_level_4_familiar_spell_count.lemma_enc_len();
        self.cg_level_5_familiar_spell_count.lemma_enc_len();
        self.cg_level_6_familiar_spell_count.lemma_enc_len();
        self.cg_level_7_familiar_spell_count.lemma_enc_len();
        self.cg_level_8_familiar_spell_count.lemma_enc_len();
        self.cg_level_9_familiar_spell_count.lemma_enc_len();
        self.cn_level_1_familiar_spell_count.lemma_enc_len();
        self.cn_level_2_familiar_spell_count.lemma_enc_len();
        self.cn_level_3_familiar_spell_count.lemma_enc_len();
        self.cn_level_4_familiar_spell_count.lemma_enc_len();
        self.cn_level_5_familiar_spell_count.lemma_enc_len();
        self.cn_level_6_familiar_spell_count.lemma_enc_len();
        self.cn_level_7_familiar_spell_count.lemma_enc_len();
        self.cn_level_8_familiar_spell_count.lemma_enc_len();
        self.cn_level_9_familiar_spell_count.lemma_enc_len();
        self.le_level_1_familiar_spell_count.lemma_enc_len();
        self.le_level_2_familiar_spell_count.lemma_enc_len();
        self.le_level_3_familiar_spell_count.lemma_enc_len();
        self.le_level_4_familiar_spell_count.lemma_enc_len();
        self.le_level_5_familiar_spell_count.lemma_enc_len();
        self.le_level_6_familiar_spell_count.lemma_enc_len();
        self.le_level_7_familiar_spell_count.lemma_enc_len();
        self.le_level_8_familiar_spell_count.lemma_enc_len();
        self.le_level_9_familiar_spell_count.lemma_enc_len();
        self.lg_level_1_familiar_spell_count.lemma_enc_len();
        self.lg_level_2_familiar_spell_count.lemma_enc_len();
        self.lg_level_3_familiar_spell_count.lemma_enc_len();
        self.lg_level_4_familiar_spell_count.lemma_enc_len();
        self.lg_level_5_familiar_spell_count.lemma_enc_len();
        self.lg_level_6_familiar_spell_count.lemma_enc_len();
        self.lg_level_7_familiar_spell_count.lemma_enc_len();
        self.lg_level_8_familiar_spell_count.lemma_enc_len();
        self.lg_level_9_familiar_spell_count.lemma_enc_len();
        self.ln_level_1_familiar_spell_count.lemma_enc_len();
        self.ln_level_2_familiar_spell_count.lemma_enc_len();
        self.ln_level_3_familiar_spell_count.lemma_enc_len();
        self.ln_level_4_familiar_spell_count.lemma_enc_len();
        self.ln_level_5_familiar_spell_count.lemma_enc_len();
        self.ln_level_6_familiar_spell_count.lemma_enc_len();
        self.ln_level_7_familiar_spell_count.lemma_enc_len();
        self.ln_level_8_familiar_spell_count.lemma_enc_len();
        self.ln_level_9_familiar_spell_count.lemma_enc_len();
        self.ne_level_1_familiar_spell_count.lemma_enc_len();
        self.ne_level_2_familiar_spell_count.lemma_enc_len();
        self.ne_level_3_familiar_spell_count.lemma_enc_len();
        self.ne_level_4_familiar_spell_count.lemma_enc_len();
        self.ne_level_5_familiar_spell_count.lemma_enc_len();
        self.ne_level_6_familiar_spell_count.lemma_enc_len();
        self.ne_level_7_familiar_spell_count.lemma_enc_len();
        self.ne_level_8_familiar_spell_count.lemma_enc_len();
        self.ne_level_9_familiar_spell_count.lemma_enc_len();
        self.ng_level_1_familiar_spell_count.lemma_enc_len();
        self.ng_level_2_familiar_spell_count.lemma_enc_len();
        self.ng_level_3_familiar_spell_count.lemma_enc_len();
        self.ng_level_4_familiar_spell_count.lemma_enc_len();
        self.ng_level_5_familiar_spell_count.lemma_enc_len();
        self.ng_level_6_familiar_spell_count.lemma_enc_len();
        self.ng_level_7_familiar_spell_count.lemma_enc_len();
        self.ng_level_8_familiar_spell_count.lemma_enc_len();
        self.ng_level_9_familiar_spell_count.lemma_enc_len();
        self.tn_level_1_familiar_spell_count.lemma_enc_len();
        self.tn_level_2_familiar_spell_count.lemma_enc_len();
        self.tn_level_3_familiar_spell_count.lemma_enc_len();
        self.tn_level_4_familiar_spell_count.lemma_enc_len();
        self.tn_level_5_familiar_spell_count.lemma_enc_len();
        self.tn_level_6_familiar_spell_count.lemma_enc_len();
        self.tn_level_7_familiar_spell_count.lemma_enc_len();
        self.tn_level_8_familiar_spell_count.lemma_enc_len();
        self.tn_level_9_familiar_spell_count.lemma_enc_len();
    }

    proof fn lemma_enc_injective(&self, other: &Self) {
        self.lawful_good_familiar.lemma_enc_len();
        self.lawful_neutral_familiar.lemma_enc_len();
        self.lawful_evil_familiar.lemma_enc_len();
        self.neutral_good_familiar.lemma_enc_len();
        self.neutral_familiar.lemma_enc_len();
        self.neutral_evil_familiar.lemma_enc_len();
        self.chaotic_good_familiar.lemma_enc_len();
        self.chaotic_neutral_familiar.lemma_enc_len();
        self.chaotic_evil_familiar.lemma_enc_len();
        self.offset_to_familiar_resources.lemma_enc_len();
        self.ce_level_1_familiar_spell_count.lemma_enc_len();
        self.ce_level_2_familiar_spell_count.lemma_enc_len();
        self.ce_level_3_familiar_spell_count.lemma_enc_len();
        self.ce_level_4_familiar_spell_count.lemma_enc_len();
        self.ce_level_5_familiar_spell_count.lemma_enc_len();
        self.ce_level_6_familiar_spell_count.lemma_enc_len();
        self.ce_level_7_familiar_spell_count.lemma_enc_len();
        self.ce_level_8_familiar_spell_count.lemma_enc_len();
        self.ce_level_9_familiar_spell_count.lemma_enc_len();
        self.cg_level_1_familiar_spell_count.lemma_enc_len();
        self.cg_level_2_familiar_spell_count.lemma_enc_len();
        self.cg_level_3_familiar_spell_count.lemma_enc_len();
        self.cg_level_4_familiar_spell_count.lemma_enc_len();
        self.cg_level_5_familiar_spell_count.lemma_enc_len();
        self.cg_level_6_familiar_spell_count.lemma_enc_len();
        self.cg_level_7_familiar_spell_count.lemma_enc_len();
        self.cg_level_8_familiar_spell_count.lemma_enc_len();
        self.cg_level_9_familiar_spell_count.lemma_enc_len();
        self.cn_level_1_familiar_spell_count.lemma_enc_len();
        self.cn_level_2_familiar_spell_count.lemma_enc_len();
        self.cn_level_3_familiar_spell_count.lemma_enc_len();
        self.cn_level_4_familiar_spell_count.lemma_enc_len();
        self.cn_level_5_familiar_spell_count.lemma_enc_len();
        self.cn_level_6_familiar_spell_count.lemma_enc_len();
        self.cn_level_7_familiar_spell_count.lemma_enc_len();
        self.cn_level_8_familiar_spell_count.lemma_enc_len();
        self.cn_level_9_familiar_spell_count.lemma_enc_len();
        self.le_level_1_familiar_spell_count.lemma_enc_len();
        self.le_level_2_familiar_spell_count.lemma_enc_len();
        self.le_level_3_familiar_spell_count.lemma_enc_len();
        self.le_level_4_familiar_spell_count.lemma_enc_len();
        self.le_level_5_familiar_spell_count.lemma_enc_len();
        self.le_level_6_familiar_spell_count.lemma_enc_len();
        self.le_level_7_familiar_spell_count.lemma_enc_len();
        self.le_level_8_familiar_spell_count.lemma_enc_len();
        self.le_level_9_familiar_spell_count.lemma_enc_len();
        self.lg_level_1_familiar_spell_count.lemma_enc_len();
        self.lg_level_2_familiar_spell_count.lemma_enc_len();
        self.lg_level_3_familiar_spell_count.lemma_enc_len();
        self.lg_level_4_familiar_spell_count.lemma_enc_len();
        self.lg_level_5_familiar_spell_count.lemma_enc_len();
        self.lg_level_6_familiar_spell_count.lemma_enc_len();
        self.lg_level_7_familiar_spell_count.lemma_enc_len();
        self.lg_level_8_familiar_spell_count.lemma_enc_len();
        self.lg_level_9_familiar_spell_count.lemma_enc_len();
        self.ln_level_1_familiar_spell_count.lemma_enc_len();
        self.ln_level_2_familiar_spell_count.lemma_enc_len();
        self.ln_level_3_familiar_spell_count.lemma_enc_len();
        self.ln_level_4_familiar_spell_count.lemma_enc_len();
        self.ln_level_5_familiar_spell_count.lemma_enc_len();
        self.ln_level_6_familiar_spell_count.lemma_enc_len();
        self.ln_level_7_familiar_spell_count.lemma_enc_len();
        self.ln_level_8_familiar_spell_count.lemma_enc_len();
        self.ln_level_9_familiar_spell_count.lemma_enc_len();
        self.ne_level_1_familiar_spell_count.lemma_enc_len();
        self.ne_level_2_familiar_spell_count.lemma_enc_len();
        self.ne_level_3_familiar_spell_count.lemma_enc_len();
        self.ne_level_4_familiar_spell_count.lemma_enc_len();
        self.ne_level_5_familiar_spell_count.lemma_enc_len();
        self.ne_level_6_familiar_spell_count.lemma_enc_len();
        self.ne_level_7_familiar_spell_count.lemma_enc_len();
        self.ne_level_8_familiar_spell_count.lemma_enc_len();
        self.ne_level_9_familiar_spell_count.lemma_enc_len();
        self.ng_level_1_familiar_spell_count.lemma_enc_len();
        self.ng_level_2_familiar_spell_count.lemma_enc_len();
        self.ng_level_3_familiar_spell_count.lemma_enc_len();
        self.ng_level_4_familiar_spell_count.lemma_enc_len();
        self.ng_level_5_familiar_spell_count.lemma_enc_len();
        self.ng_level_6_familiar_spell_count.lemma_enc_len();
        self.ng_level_7_familiar_spell_count.lemma_enc_len();
        self.ng_level_8_familiar_spell_count.lemma_enc_len();
        self.ng_level_9_familiar_spell_count.lemma_enc_len();
        self.tn_level_1_familiar_spell_count.lemma_enc_len();
        self.tn_level_2_familiar_spell_count.lemma_enc_len();
        self.tn_level_3_familiar_spell_count.lemma_enc_len();
        self.tn_level_4_familiar_spell_count.lemma_enc_len();
        self.tn_level_5_familiar_spell_count.lemma_enc_len();
        self.tn_level_6_familiar_spell_count.lemma_enc_len();
        self.tn_level_7_familiar_spell_count.lemma_enc_len();
        self.tn_level_8_familiar_spell_count.lemma_enc_len();
        self.tn_level_9_familiar_spell_count.lemma_enc_len();
        other.lawful_good_familiar.lemma_enc_len();
        other.lawful_neutral_familiar.lemma_enc_len();
        other.lawful_evil_familiar.lemma_enc_len();
        other.neutral_good_familiar.lemma_enc_len();
        other.neutral_familiar.lemma_enc_len();
        other.neutral_evil_familiar.lemma_enc_len();
        other.chaotic_good_familiar.lemma_enc_len();
        other.chaotic_neutral_familiar.lemma_enc_len();
        other.chaotic_evil_familiar.lemma_enc_len();
        other.offset_to_familiar_resources.lemma_enc_len();
        other.ce_level_1_familiar_spell_count.lemma_enc_len();
        other.ce_level_2_familiar_spell_count.lemma_enc_len();
        other.ce_level_3_familiar_spell_count.lemma_enc_len();
        other.ce_level_4_familiar_spell_count.lemma_enc_len();
        other.ce_level_5_familiar_spell_count.lemma_enc_len();
        other.ce_level_6_familiar_spell_count.lemma_enc_len();
        other.ce_level_7_familiar_spell_count.lemma_enc_len();
        other.ce_level_8_familiar_spell_count.lemma_enc_len();
        other.ce_level_9_familiar_spell_count.lemma_enc_len();
        other.cg_level_1_familiar_spell_count.lemma_enc_len();
        other.cg_level_2_familiar_spell_count.lemma_enc_len();
        other.cg_level_3_familiar_spell_count.lemma_enc_len();
        other.cg_level_4_familiar_spell_count.lemma_enc_len();
        other.cg_level_5_familiar_spell_count.lemma_enc_len();
        other.cg_level_6_familiar_spell_count.lemma_enc_len();
        other.cg_level_7_familiar_spell_count.lemma_enc_len();
        other.cg_level_8_familiar_spell_count.lemma_enc_len();
        other.cg_level_9_familiar_spell_count.lemma_enc_len();
        other.cn_level_1_familiar_spell_count.lemma_enc_len();
        other.cn_level_2_familiar_spell_count.lemma_enc_len();
        other.cn_level_3_familiar_spell_count.lemma_enc_len();
        other.cn_level_4_familiar_spell_count.lemma_enc_len();
        other.cn_level_5_familiar_spell_count.lemma_enc_len();
        other.cn_level_6_familiar_spell_count.lemma_enc_len();
        other.cn_level_7_familiar_spell_count.lemma_enc_len();
        other.cn_level_8_familiar_spell_count.lemma_enc_len();
        other.cn_level_9_familiar_spell_count.lemma_enc_len();
        other.le_level_1_familiar_spell_count.lemma_enc_len();
        other.le_level_2_familiar_spell_count.lemma_enc_len();
        other.le_level_3_familiar_spell_count.lemma_enc_len();
        other.le_level_4_familiar_spell_count.lemma_enc_len();
        other.le_level_5_familiar_spell_count.lemma_enc_len();
        other.le_level_6_familiar_spell_count.lemma_enc_len();
        other.le_level_7_familiar_spell_count.lemma_enc_len();
        other.le_level_8_familiar_spell_count.lemma_enc_len();
        other.le_level_9_familiar_spell_count.lemma_enc_len();
        other.lg_level_1_familiar_spell_count.lemma_enc_len();
        other.lg_level_2_familiar_spell_count.lemma_enc_len();
        other.lg_level_3_familiar_spell_count.lemma_enc_len();
        other.lg_level_4_familiar_spell_count.lemma_enc_len();
        other.lg_level_5_familiar_spell_count.lemma_enc_len();
        other.lg_level_6_familiar_spell_count.lemma_enc_len();
        other.lg_level_7_familiar_spell_count.lemma_enc_len();
        other.lg_level_8_familiar_spell_count.lemma_enc_len();
        other.lg_level_9_familiar_spell_count.lemma_enc_len();
        other.ln_level_1_familiar_spell_count.lemma_enc_len();
        other.ln_level_2_familiar_spell_count.lemma_enc_len();
        other.ln_level_3_familiar_spell_count.lemma_enc_len();
        other.ln_level_4_familiar_spell_count.lemma_enc_len();
        other.ln_level_5_familiar_spell_count.lemma_enc_len();
        other.ln_level_6_familiar_spell_count.lemma_enc_len();
        other.ln_level_7_familiar_spell_count.lemma_enc_len();
        other.ln_level_8_familiar_spell_count.lemma_enc_len();
        other.ln_level_9_familiar_spell_count.lemma_enc_len();
        other.ne_level_1_familiar_spell_count.lemma_enc_len();
        other.ne_level_2_familiar_spell_count.lemma_enc_len();
        other.ne_level_3_familiar_spell_count.lemma_enc_len();
        other.ne_level_4_familiar_spell_count.lemma_enc_len();
        other.ne_level_5_familiar_spell_count.lemma_enc_len();
        other.ne_level_6_familiar_spell_count.lemma_enc_len();
        other.ne_level_7_familiar_spell_count.lemma_enc_len();
        other.ne_level_8_familiar_spell_count.lemma_enc_len();
        other.ne_level_9_familiar_spell_count.lemma_enc_len();
        other.ng_level_1_familiar_spell_count.lemma_enc_len();
        other.ng_level_2_familiar_spell_count.lemma_enc_len();
        other.ng_level_3_familiar_spell_count.lemma_enc_len();
        other.ng_level_4_familiar_spell_count.lemma_enc_len();
        other.ng_level_5_familiar_spell_count.lemma_enc_len();
        other.ng_level_6_familiar_spell_count.lemma_enc_len();
        other.ng_level_7_familiar_spell_count.lemma_enc_len();
        other.ng_level_8_familiar_spell_count.lemma_enc_len();
        other.ng_level_9_familiar_spell_count.lemma_enc_len();
        other.tn_level_1_familiar_spell_count.lemma_enc_len();
        other.tn_level_2_familiar_spell_count.lemma_enc_len();
        other.tn_level_3_familiar_spell_count.lemma_enc_len();
        other.tn_level_4_familiar_spell_count.lemma_enc_len();
        other.tn_level_5_familiar_spell_count.lemma_enc_len();
        other.tn_level_6_familiar_spell_count.lemma_enc_len();
        other.tn_level_7_familiar_spell_count.lemma_enc_len();
        other.tn_level_8_familiar_spell_count.lemma_enc_len();
        other.tn_level_9_familiar_spell_count.lemma_enc_len();
        lemma_concat_peel(self.bytes_0_45(), self.bytes_45_91(), other.bytes_0_45(), other.bytes_45_91());
        lemma_concat_peel(self.bytes_0_22(), self.bytes_22_45(), other.bytes_0_22(), other.bytes_22_45());
        lemma_concat_peel(self.bytes_0_11(), self.bytes_11_22(), other.bytes_0_11(), other.bytes_11_22());
        lemma_concat_peel(self.bytes_0_5(), self.bytes_5_11(), other.bytes_0_5(), other.bytes_5_11());
        lemma_concat_peel(self.bytes_0_2(), self.bytes_2_5(), other.bytes_0_2(), other.bytes_2_5());
        lemma_concat_peel(self.lawful_good_familiar.enc(), self.lawful_neutral_familiar.enc(), other.lawful_good_familiar.enc(), other.lawful_neutral_familiar.enc());
        lemma_concat_peel(self.lawful_evil_familiar.enc(), self.bytes_3_5(), other.lawful_evil_familiar.enc(), other.bytes_3_5());
        lemma_concat_peel(self.neutral_good_familiar.enc(), self.neutral_familiar.enc(), other.neutral_good_familiar.enc(), other.neutral_familiar.enc());
        lemma_concat_peel(self.bytes_5_8(), self.bytes_8_11(), other.bytes_5_8(), other.bytes_8_11());
        lemma_concat_peel(self.neutral_evil_familiar.enc(), self.bytes_6_8(), other.neutral_evil_familiar.enc(), other.bytes_6_8());
        lemma_concat_peel(self.chaotic_good_familiar.enc(), self.chaotic_neutral_familiar.enc(), other.chaotic_good_familiar.enc(), other.chaotic_neutral_familiar.enc());
        lemma_concat_peel(self.chaotic_evil_familiar.enc(), self.bytes_9_11(), other.chaotic_evil_familiar.enc(), other.bytes_9_11());
        lemma_concat_peel(self.offset_to_familiar_resources.enc(), self.ce_level_1_familiar_spell_count.enc(), other.offset_to_familiar_resources.enc(), other.ce_level_1_familiar_spell_count.enc());
        lemma_concat_peel(self.bytes_11_16(), self.bytes_16_22(), other.bytes_11_16(), other.bytes_16_22());
        lemma_concat_peel(self.bytes_11_13(), self.bytes_13_16(), other.bytes_11_13(), other.bytes_13_16());
        lemma_concat_peel(self.ce_level_2_familiar_spell_count.enc(), self.ce_level_3_familiar_spell_count.enc(), other.ce_level_2_familiar_spell_count.enc(), other.ce_level_3_familiar_spell_count.enc());
        lemma_concat_peel(self.ce_level_4_familiar_spell_count.enc(), self.bytes_14_16(), other.ce_level_4_familiar_spell_count.enc(), other.bytes_14_16());
        lemma_concat_peel(self.ce_level_5_familiar_spell_count.enc(), self.ce_level_6_familiar_spell_count.enc(), other.ce_level_5_familiar_spell_count.enc(), other.ce_level_6_familiar_spell_count.enc());
        lemma_concat_peel(self.bytes_16_19(), self.bytes_19_22(), other.bytes_16_19(), other.bytes_19_22());
        lemma_concat_peel(self.ce_level_7_familiar_spell_count.enc(), self.bytes_17_19(), other.ce_level_7_familiar_spell_count.enc(), other.bytes_17_19());
        lemma_concat_peel(self.ce_level_8_familiar_spell_count.enc(), self.ce_level_9_familiar_spell_count.enc(), other.ce_level_8_familiar_spell_count.enc(), other.ce_level_9_familiar_spell_count.enc());
        lemma_concat_peel(self.cg_level_1_familiar_spell_count.enc(), self.bytes_20_22(), other.cg_level_1_familiar_spell_count.enc(), other.bytes_20_22());
        lemma_concat_peel(self.cg_level_2_familiar_spell_count.enc(), self.cg_level_3_familiar_spell_count.enc(), other.cg_level_2_familiar_spell_count.enc(), other.cg_level_3_familiar_spell_count.enc());
        lemma_concat_peel(self.bytes_22_33(), self.bytes_33_45(), other.bytes_22_33(), other.bytes_33_45());
        lemma_concat_peel(self.bytes_22_27(), self.bytes_27_33(), other.bytes_22_27(), other.bytes_27_33());
        lemma_concat_peel(self.bytes_22_24(), self.bytes_24_27(), other.bytes_22_24(), other.bytes_24_27());
        lemma_concat_peel(self.cg_level_4_familiar_spell_count.enc(), self.cg_level_5_familiar_spell_count.enc(), other.cg_level_4_familiar_spell_count.enc(), other.cg_level_5_familiar_spell_count.enc());
        lemma_concat_peel(self.cg_level_6_familiar_spell_count.enc(), self.bytes_25_27(), other.cg_level_6_familiar_spell_count.enc(), other.bytes_25_27());
        lemma_concat_peel(self.cg_level_7_familiar_spell_count.enc(), self.cg_level_8_familiar_spell_count.enc(), other.cg_level_7_familiar_spell_count.enc(), other.cg_level_8_familiar_spell_count.enc());
        lemma_concat_peel(self.bytes_27_30(), self.bytes_30_33(), other.bytes_27_30(), other.bytes_30_33());
        lemma_concat_peel(self.cg_level_9_familiar_spell_count.enc(), self.bytes_28_30(), other.cg_level_9_familiar_spell_count.enc(), other.bytes_28_30());
        lemma_concat_peel(self.cn_level_1_familiar_spell_count.enc(), self.cn_level_2_familiar_spell_count.enc(), other.cn_level_1_familiar_spell_count.enc(), other.cn_level_2_familiar_spell_count.enc());
        lemma_concat_peel(self.cn_level_3_familiar_spell_count.enc(), self.bytes_31_33(), other.cn_level_3_familiar_spell_count.enc(), other.bytes_31_33());
        lemma_concat_peel(self.cn_level_4_familiar_spell_count.enc(), self.cn_level_5_familiar_spell_count.enc(), other.cn_level_4_familiar_spell_count.enc(), other.cn_level_5_familiar_spell_count.enc());
        lemma_concat_peel(self.bytes_33_39(), self.bytes_39_45(), other.bytes_33_39(), other.bytes_39_45());
        lemma_concat_peel(self.bytes_33_36(), self.bytes_36_39(), other.bytes_33_36(), other.bytes_36_39());
        lemma_concat_peel(self.cn_level_6_familiar_spell_count.enc(), self.bytes_34_36(), other.cn_level_6_familiar_spell_count.enc(), other.bytes_34_36());
        lemma_concat_peel(self.cn_level_7_familiar_spell_count.enc(), self.cn_level_8_familiar_spell_count.enc(), other.cn_level_7_familiar_spell_count.enc(), other.cn_level_8_familiar_spell_count.enc());
        lemma_concat_peel(self.cn_level_9_familiar_spell_count.enc(), self.bytes_37_39(), other.cn_level_9_familiar_spell_count.enc(), other.bytes_37_39());
        lemma_concat_peel(self.le_level_1_familiar_spell_count.enc(), self.le_level_2_familiar_spell_count.enc(), other.le_level_1_familiar_spell_count.enc(), other.le_level_2_familiar_spell_count.enc());
        lemma_concat_peel(self.bytes_39_42(), self.bytes_42_45(), other.bytes_39_42(), other.bytes_42_45());
        lemma_concat_peel(self.le_level_3_familiar_spell_count.enc(), self.bytes_40_42(), other.le_level_3_familiar_spell_count.enc(), other.bytes_40_42());
        lemma_concat_peel(self.le_level_4_familiar_spell_count.enc(), self.le_level_5_familiar_spell_count.enc(), other.le_level_4_familiar_spell_count.enc(), other.le_level_5_familiar_spell_count.enc());
        lemma_concat_peel(self.le_level_6_familiar_spell_count.enc(), self.bytes_43_45(), other.le_level_6_familiar_spell_count.enc(), other.bytes_43_45());
        lemma_concat_peel(self.le_level_7_familiar_spell_count.enc(), self.le_level_8_familiar_spell_count.enc(), other.le_level_7_familiar_spell_count.enc(), other.le_level_8_familiar_spell_count.enc());
        lemma_concat_peel(self.bytes_45_68(), self.bytes_68_91(), other.bytes_45_68(), other.bytes_68_91());
        lemma_concat_peel(self.bytes_45_56(), self.bytes_56_68(), other.bytes_45_56(), other.bytes_56_68());
        lemma_concat_peel(self.bytes_45_50(), self.bytes_50_56(), other.bytes_45_50(), other.bytes_50_56());
        lemma_concat_peel(self.bytes_45_47(), self.bytes_47_50(), other.bytes_45_47(), other.bytes_47_50());
        lemma_concat_peel(self.le_level_9_familiar_spell_count.enc(), self.lg_level_1_familiar_spell_count.enc(), other.le_level_9_familiar_spell_count.enc(), other.lg_level_1_familiar_spell_count.enc());
        lemma_concat_peel(self.lg_level_2_familiar_spell_count.enc(), self.bytes_48_50(), other.lg_level_2_familiar_spell_count.enc(), other.bytes_48_50());
        lemma_concat_peel(self.lg_level_3_familiar_spell_count.enc(), self.lg_level_4_familiar_spell_count.enc(), other.lg_level_3_familiar_spell_count.enc(), other.lg_level_4_familiar_spell_count.enc());
        lemma_concat_peel(self.bytes_50_53(), self.bytes_53_56(), other.bytes_50_53(), other.bytes_53_56());
        lemma_concat_peel(self.lg_level_5_familiar_spell_count.enc(), self.bytes_51_53(), other.lg_level_5_familiar_spell_count.enc(), other.bytes_51_53());
        lemma_concat_peel(self.lg_level_6_familiar_spell_count.enc(), self.lg_level_7_familiar_spell_count.enc(), other.lg_level_6_familiar_spell_count.enc(), other.lg_level_7_familiar_spell_count.enc());
        lemma_concat_peel(self.lg_level_8_familiar_spell_count.enc(), self.bytes_54_56(), other.lg_level_8_familiar_spell_count.enc(), other.bytes_54_56());
        lemma_concat_peel(self.lg_level_9_familiar_spell_count.enc(), self.ln_level_1_familiar_spell_count.enc(), other.lg_level_9_familiar_spell_count.enc(), other.ln_level_1_familiar_spell_count.enc());
        lemma_concat_peel(self.bytes_56_62(), self.bytes_62_68(), other.bytes_56_62(), other.bytes_62_68());
        lemma_concat_peel(self.bytes_56_59(), self.bytes_59_62(), other.bytes_56_59(), other.bytes_59_62());
        lemma_concat_peel(self.ln_level_2_familiar_spell_count.enc(), self.bytes_57_59(), other.ln_level_2_familiar_spell_count.enc(), other.bytes_57_59());
        lemma_concat_peel(self.ln_level_3_familiar_spell_count.enc(), self.ln_level_4_familiar_spell_count.enc(), other.ln_level_3_familiar_spell_count.enc(), other.ln_level_4_familiar_spell_count.enc());
        lemma_concat_peel(self.ln_level_5_familiar_spell_count.enc(), self.bytes_60_62(), other.ln_level_5_familiar_spell_count.enc(), other.bytes_60_62());
        lemma_concat_peel(self.ln_level_6_familiar_spell_count.enc(), self.ln_level_7_familiar_spell_count.enc(), other.ln_level_6_familiar_spell_count.enc(), other.ln_level_7_familiar_spell_count.enc());
        lemma_concat_peel(self.bytes_62_65(), self.bytes_65_68(), other.bytes_62_65(), other.bytes_65_68());
        lemma_concat_peel(self.ln_level_8_familiar_spell_count.enc(), self.bytes_63_65(), other.ln_level_8_familiar_spell_count.enc(), other.bytes_63_65());
        lemma_concat_peel(self.ln_level_9_familiar_spell_count.enc(), self.ne_level_1_familiar_spell_count.enc(), other.ln_level_9_familiar_spell_count.enc(), other.ne_level_1_familiar_spell_count.enc());
        lemma_concat_peel(self.ne_level_2_familiar_spell_count.enc(), self.bytes_66_68(), other.ne_level_2_familiar_spell_count.enc(), other.bytes_66_68());
        lemma_concat_peel(self.ne_level_3_familiar_spell_count.enc(), self.ne_level_4_familiar_spell_count.enc(), other.ne_level_3_familiar_spell_count.enc(), other.ne_level_4_familiar_spell_count.enc());
        lemma_concat_peel(self.bytes_68_79(), self.bytes_79_91(), other.bytes_68_79(), other.bytes_79_91());
        lemma_concat_peel(self.bytes_68_73(), self.bytes_73_79(), other.bytes_68_73(), other.bytes_73_79());
        lemma_concat_peel(self.bytes_68_70(), self.bytes_70_73(), other.bytes_68_70(), other.bytes_70_73());
        lemma_concat_peel(self.ne_level_5_familiar_spell_count.enc(), self.ne_level_6_familiar_spell_count.enc(), other.ne_level_5_familiar_spell_count.enc(), other.ne_level_6_familiar_spell_count.enc());
        lemma_concat_peel(self.ne_level_7_familiar_spell_count.enc(), self.bytes_71_73(), other.ne_level_7_familiar_spell_count.enc(), other.bytes_71_73());
        lemma_concat_peel(self.ne_level_8_familiar_spell_count.enc(), self.ne_level_9_familiar_spell_count.enc(), other.ne_level_8_familiar_spell_count.enc(), other.ne_level_9_familiar_spell_count.enc());
        lemma_concat_peel(self.bytes_73_76(), self.bytes_76_79(), other.bytes_73_76(), other.bytes_76_79());
        lemma_concat_peel(self.ng_level_1_familiar_spell_count.enc(), self.bytes_74_76(), other.ng_level_1_familiar_spell_count.enc(), other.bytes_74_76());
        lemma_concat_peel(self.ng_level_2_familiar_spell_count.enc(), self.ng_level_3_familiar_spell_count.enc(), other.ng_level_2_familiar_spell_count.enc(), other.ng_level_3_familiar_spell_count.enc());
        lemma_concat_peel(self.ng_level_4_familiar_spell_count.enc(), self.bytes_77_79(), other.ng_level_4_familiar_spell_count.enc(), other.bytes_77_79());
        lemma_concat_peel(self.ng_level_5_familiar_spell_count.enc(), self.ng_level_6_familiar_spell_count.enc(), other.ng_level_5_familiar_spell_count.enc(), other.ng_level_6_familiar_spell_count.enc());
        lemma_concat_peel(self.bytes_79_85(), self.bytes_85_91(), other.bytes_79_85(), other.bytes_85_91());
        lemma_concat_peel(self.bytes_79_82(), self.bytes_82_85(), other.bytes_79_82(), other.bytes_82_85());
        lemma_concat_peel(self.ng_level_7_familiar_spell_count.enc(), self.bytes_80_82(), other.ng_level_7_familiar_spell_count.enc(), other.bytes_80_82());
        lemma_concat_peel(self.ng_level_8_familiar_spell_count.enc(), self.ng_level_9_familiar_spell_count.enc(), other.ng_level_8_familiar_spell_count.enc(), other.ng_level_9_familiar_spell_count.enc());
        lemma_concat_peel(self.tn_level_1_familiar_spell_count.enc(), self.bytes_83_85(), other.tn_level_1_familiar_spell_count.enc(), other.bytes_83_85());
        lemma_concat_peel(self.tn_level_2_familiar_spell_count.enc(), self.tn_level_3_familiar_spell_count.enc(), other.tn_level_2_familiar_spell_count.enc(), other.tn_level_3_familiar_spell_count.enc());
        lemma_concat_peel(self.bytes_85_88(), self.bytes_88_91(), other.bytes_85_88(), other.bytes_88_91());
        lemma_concat_peel(self.tn_level_4_familiar_spell_count.enc(), self.bytes_86_88(), other.tn_level_4_familiar_spell_count.enc(), other.bytes_86_88());
        lemma_concat_peel(self.tn_level_5_familiar_spell_count.enc(), self.tn_level_6_familiar_spell_count.enc(), other.tn_level_5_familiar_spell_count.enc(), other.tn_level_6_familiar_spell_count.enc());
        lemma_concat_peel(self.tn_level_7_familiar_spell_count.enc(), self.bytes_89_91(), other.tn_level_7_familiar_spell_count.enc(), other.bytes_89_91());
        lemma_concat_peel(self.tn_level_8_familiar_spell_count.enc(), self.tn_level_9_familiar_spell_count.enc(), other.tn_level_8_familiar_spell_count.enc(), other.tn_level_9_familiar_spell_count.enc());
        self.lawful_good_familiar.lemma_enc_injective(&other.lawful_good_familiar);
        self.lawful_neutral_familiar.lemma_enc_injective(&other.lawful_neutral_familiar);
        self.lawful_evil_familiar.lemma_enc_injective(&other.lawful_evil_familiar);
        self.neutral_good_familiar.lemma_enc_injective(&other.neutral_good_familiar);
        self.neutral_familiar.lemma_enc_injective(&other.neutral_familiar);
        self.neutral_evil_familiar.lemma_enc_injective(&other.neutral_evil_familiar);
        self.chaotic_good_familiar.lemma_enc_injective(&other.chaotic_good_familiar);
        self.chaotic_neutral_familiar.lemma_enc_injective(&other.chaotic_neutral_familiar);
        self.chaotic_evil_familiar.lemma_enc_injective(&other.chaotic_evil_familiar);
        self.offset_to_familiar_resources.lemma_enc_injective(&other.offset_to_familiar_resources);
        self.ce_level_1_familiar_spell_count.lemma_enc_injective(&other.ce_level_1_familiar_spell_count);
        self.ce_level_2_familiar_spell_count.lemma_enc_injective(&other.ce_level_2_familiar_spell_count);
        self.ce_level_3_familiar_spell_count.lemma_enc_injective(&other.ce_level_3_familiar_spell_count);
        self.ce_level_4_familiar_spell_count.lemma_enc_injective(&other.ce_level_4_familiar_spell_count);
        self.ce_level_5_familiar_spell_count.lemma_enc_injective(&other.ce_level_5_familiar_spell_count);
        self.ce_level_6_familiar_spell_count.lemma_enc_injective(&other.ce_level_6_familiar_spell_count);
        self.ce_level_7_familiar_spell_count.lemma_enc_injective(&other.ce_level_7_familiar_spell_count);
        self.ce_level_8_familiar_spell_count.lemma_enc_injective(&other.ce_level_8_familiar_spell_count);
        self.ce_level_9_familiar_spell_count.lemma_enc_injective(&other.ce_level_9_familiar_spell_count);
        self.cg_level_1_familiar_spell_count.lemma_enc_injective(&other.cg_level_1_familiar_spell_count);
        self.cg_level_2_familiar_spell_count.lemma_enc_injective(&other.cg_level_2_familiar_spell_count);
        self.cg_level_3_familiar_spell_count.lemma_enc_injective(&other.cg_level_3_familiar_spell_count);
        self.cg_level_4_familiar_spell_count.lemma_enc_injective(&other.cg_level_4_familiar_spell_count);
        self.cg_level_5_familiar_spell_count.lemma_enc_injective(&other.cg_level_5_familiar_spell_count);
        self.cg_level_6_familiar_spell_count.lemma_enc_injective(&other.cg_level_6_familiar_spell_count);
        self.cg_level_7_familiar_spell_count.lemma_enc_injective(&other.cg_level_7_familiar_spell_count);
        self.cg_level_8_familiar_spell_count.lemma_enc_injective(&other.cg_level_8_familiar_spell_count);
        self.cg_level_9_familiar_spell_count.lemma_enc_injective(&other.cg_level_9_familiar_spell_count);
        self.cn_level_1_familiar_spell_count.lemma_enc_injective(&other.cn_level_1_familiar_spell_count);
        self.cn_level_2_familiar_spell_count.lemma_enc_injective(&other.cn_level_2_familiar_spell_count);
        self.cn_level_3_familiar_spell_count.lemma_enc_injective(&other.cn_level_3_familiar_spell_count);
        self.cn_level_4_familiar_spell_count.lemma_enc_injective(&other.cn_level_4_familiar_spell_count);
        self.cn_level_5_familiar_spell_count.lemma_enc_injective(&other.cn_level_5_familiar_spell_count);
        self.cn_level_6_familiar_spell_count.lemma_enc_injective(&other.cn_level_6_familiar_spell_count);
        self.cn_level_7_familiar_spell_count.lemma_enc_injective(&other.cn_level_7_familiar_spell_count);
        self.cn_level_8_familiar_spell_count.lemma_enc_injective(&other.cn_level_8_familiar_spell_count);
        self.cn_level_9_familiar_spell_count.lemma_enc_injective(&other.cn_level_9_familiar_spell_count);
        self.le_level_1_familiar_spell_count.lemma_enc_injective(&other.le_level_1_familiar_spell_count);
        self.le_level_2_familiar_spell_count.lemma_enc_injective(&other.le_level_2_familiar_spell_count);
        self.le_level_3_familiar_spell_count.lemma_enc_injective(&other.le_level_3_familiar_spell_count);
        self.le_level_4_familiar_spell_count.lemma_enc_injective(&other.le_level_4_familiar_spell_count);
        self.le_level_5_familiar_spell_count.lemma_enc_injective(&other.le_level_5_familiar_spell_count);
        self.le_level_6_familiar_spell_count.lemma_enc_injective(&other.le_level_6_familiar_spell_count);
        self.le_level_7_familiar_spell_count.lemma_enc_injective(&other.le_level_7_familiar_spell_count);
        self.le_level_8_familiar_spell_count.lemma_enc_injective(&other.le_level_8_familiar_spell_count);
        self.le_level_9_familiar_spell_count.lemma_enc_injective(&other.le_level_9_familiar_spell_count);
        self.lg_level_1_familiar_spell_count.lemma_enc_injective(&other.lg_level_1_familiar_spell_count);
        self.lg_level_2_familiar_spell_count.lemma_enc_injective(&other.lg_level_2_familiar_spell_count);
        self.lg_level_3_familiar_spell_count.lemma_enc_injective(&other.lg_level_3_familiar_spell_count);
        self.lg_level_4_familiar_spell_count.lemma_enc_injective(&other.lg_level_4_familiar_spell_count);
        self.lg_level_5_familiar_spell_count.lemma_enc_injective(&other.lg_level_5_familiar_spell_count);
        self.lg_level_6_familiar_spell_count.lemma_enc_injective(&other.lg_level_6_familiar_spell_count);
        self.lg_level_7_familiar_spell_count.lemma_enc_injective(&other.lg_level_7_familiar_spell_count);
        self.lg_level_8_familiar_spell_count.lemma_enc_injective(&other.lg_level_8_familiar_spell_count);
        self.lg_level_9_familiar_spell_count.lemma_enc_injective(&other.lg_level_9_familiar_spell_count);
        self.ln_level_1_familiar_spell_count.lemma_enc_injective(&other.ln_level_1_familiar_spell_count);
        self.ln_level_2_familiar_spell_count.lemma_enc_injective(&other.ln_level_2_familiar_spell_count);
        self.ln_level_3_familiar_spell_count.lemma_enc_injective(&other.ln_level_3_familiar_spell_count);
        self.ln_level_4_familiar_spell_count.lemma_enc_injective(&other.ln_level_4_familiar_spell_count);
        self.ln_level_5_familiar_spell_count.lemma_enc_injective(&other.ln_level_5_familiar_spell_count);
        self.ln_level_6_familiar_spell_count.lemma_enc_injective(&other.ln_level_6_familiar_spell_count);
        self.ln_level_7_familiar_spell_count.lemma_enc_injective(&other.ln_level_7_familiar_spell_count);
        self.ln_level_8_familiar_spell_count.lemma_enc_injective(&other.ln_level_8_familiar_spell_count);
        self.ln_level_9_familiar_spell_count.lemma_enc_injective(&other.ln_level_9_familiar_spell_count);
        self.ne_level_1_familiar_spell_count.lemma_enc_injective(&other.ne_level_1_familiar_spell_count);
        self.ne_level_2_familiar_spell_count.lemma_enc_injective(&other.ne_level_2_familiar_spell_count);
        self.ne_level_3_familiar_spell_count.lemma_enc_injective(&other.ne_level_3_familiar_spell_count);
        self.ne_level_4_familiar_spell_count.lemma_enc_injective(&other.ne_level_4_familiar_spell_count);
        self.ne_level_5_familiar_spell_count.lemma_enc_injective(&other.ne_level_5_familiar_spell_count);
        self.ne_level_6_familiar_spell_count.lemma_enc_injective(&other.ne_level_6_familiar_spell_count);
        self.ne_level_7_familiar_spell_count.lemma_enc_injective(&other.ne_level_7_familiar_spell_count);
        self.ne_level_8_familiar_spell_count.lemma_enc_injective(&other.ne_level_8_familiar_spell_count);
        self.ne_level_9_familiar_spell_count.lemma_enc_injective(&other.ne_level_9_familiar_spell_count);
        self.ng_level_1_familiar_spell_count.lemma_enc_injective(&other.ng_level_1_familiar_spell_count);
        self.ng_level_2_familiar_spell_count.lemma_enc_injective(&other.ng_level_2_familiar_spell_count);
        self.ng_level_3_familiar_spell_count.lemma_enc_injective(&other.ng_level_3_familiar_spell_count);
        self.ng_level_4_familiar_spell_count.lemma_enc_injective(&other.ng_level_4_familiar_spell_count);
        self.ng_level_5_familiar_spell_count.lemma_enc_injective(&other.ng_level_5_familiar_spell_count);
        self.ng_level_6_familiar_spell_count.lemma_enc_injective(&other.ng_level_6_familiar_spell_count);
        self.ng_level_7_familiar_spell_count.lemma_enc_injective(&other.ng_level_7_familiar_spell_count);
        self.ng_level_8_familiar_spell_count.lemma_enc_injective(&other.ng_level_8_familiar_spell_count);
        self.ng_level_9_familiar_spell_count.lemma_enc_injective(&other.ng_level_9_familiar_spell_count);
        self.tn_level_1_familiar_spell_count.lemma_enc_injective(&other.tn_level_1_familiar_spell_count);
        self.tn_level_2_familiar_spell_count.lemma_enc_injective(&other.tn_level_2_familiar_spell_count);
        self.tn_level_3_familiar_spell_count.lemma_enc_injective(&other.tn_level_3_familiar_spell_count);
        self.tn_level_4_familiar_spell_count.lemma_enc_injective(&other.tn_level_4_familiar_spell_count);
        self.tn_level_5_familiar_spell_count.lemma_enc_injective(&other.tn_level_5_familiar_spell_count);
        self.tn_level_6_familiar_spell_count.lemma_enc_injective(&other.tn_level_6_familiar_spell_count);
        self.tn_level_7_familiar_spell_count.lemma_enc_injective(&other.tn_level_7_familiar_spell_count);
        self.tn_level_8_familiar_spell_count.lemma_enc_injective(&other.tn_level_8_familiar_spell_count);
        self.tn_level_9_familiar_spell_count.lemma_enc_injective(&other.tn_level_9_familiar_spell_count);
    }

    #[verifier::rlimit(100)]
    #[verifier::spinoff_prover]
    fn decode(buf: &[u8], pos: usize) -> (v: Self) {
        let len = buf.len();
        let fld0 = Resref::decode(buf, pos + 0);
        let fld1 = Resref::decode(buf, pos + 8);
        let fld2 = Resref::decode(buf, pos + 16);
        let fld3 = Resref::decode(buf, pos + 24);
        let fld4 = Resref::decode(buf, pos + 32);
        let fld5 = Resref::decode(buf, pos + 40);
        let fld6 = Resref::decode(buf, pos + 48);
        let fld7 = Resref::decode(buf, pos + 56);
        let fld8 = Resref::decode(buf, pos + 64);
        let fld9 = u32::decode(buf, pos + 72);
        let fld10 = u32::decode(buf, pos + 76);
        let fld11 = u32::decode(buf, pos + 80);
        let fld12 = u32::decode(buf, pos + 84);
        let fld13 = u32::decode(buf, pos + 88);
        let fld14 = u32::decode(buf, pos + 92);
        let fld15 = u32::decode(buf, pos + 96);
        let fld16 = u32::decode(buf, pos + 100);
        let fld17 = u32::decode(buf, pos + 104);
        let fld18 = u32::decode(buf, pos + 108);
        let fld19 = u32::decode(buf, pos + 112);
        let fld20 = u32::decode(buf, pos + 116);
        let fld21 = u32::decode(buf, pos + 120);
        let fld22 = u32::decode(buf, pos + 124);
        let fld23 = u32::decode(buf, pos + 128);
        let fld24 = u32::decode(buf, pos + 132);
        let fld25 = u32::decode(buf, pos + 136);
        let fld26 = u32::decode(buf, pos + 140);
        let fld27 = u32::decode(buf, pos + 144);
        let fld28 = u32::decode(buf, pos + 148);
        let fld29 = u32::decode(buf, pos + 152);
        let fld30 = u32::decode(buf, pos + 156);
        let fld31 = u32::decode(buf, pos + 160);
        let fld32 = u32::decode(buf, pos + 164);
        let fld33 = u32::decode(buf, pos + 168);
        let fld34 = u32::decode(buf, pos + 172);
        let fld35 = u32::decode(buf, pos + 176);
        let fld36 = u32::decode(buf, pos + 180);
        let fld37 = u32::decode(buf, pos + 184);
        let fld38 = u32::decode(buf, pos + 188);
        let fld39 = u32::decode(buf, pos + 192);
        let fld40 = u32::decode(buf, pos + 196);
        let fld41 = u32::decode(buf, pos + 200);
        let fld42 = u32::decode(buf, pos + 204);
        let fld43 = u32::decode(buf, pos + 208);
        let fld44 = u32::decode(buf, pos + 212);
        let fld45 = u32::decode(buf, pos + 216);
        let fld46 = u32::decode(buf, pos + 220);
        let fld47 = u32::decode(buf, pos + 224);
        let fld48 = u32::decode(buf, pos + 228);
        let fld49 = u32::decode(buf, pos + 232);
        let fld50 = u32::decode(buf, pos + 236);
        let fld51 = u32::decode(buf, pos + 240);
        let fld52 = u32::decode(buf, pos + 244);
        let fld53 = u32::decode(buf, pos + 248);
        let fld54 = u32::decode(buf, pos + 252);
        let fld55 = u32::decode(buf, pos + 256);
        let fld56 = u32::decode(buf, pos + 260);
        let fld57 = u32::decode(buf, pos + 264);
        let fld58 = u32::decode(buf, pos + 268);
        let fld59 = u32::decode(buf, pos + 272);
        let fld60 = u32::decode(buf, pos + 276);
        let fld61 = u32::decode(buf, pos + 280);
        let fld62 = u32::decode(buf, pos + 284);
        let fld63 = u32::decode(buf, pos + 288);
        let fld64 = u32::decode(buf, pos + 292);
        let fld65 = u32::decode(buf, pos + 296);
        let fld66 = u32::decode(buf, pos + 300);
        let fld67 = u32::decode(buf, pos + 304);
        let fld68 = u32::decode(buf, pos + 308);
        let fld69 = u32::decode(buf, pos + 312);
        let fld70 = u32::decode(buf, pos + 316);
        let fld71 = u32::decode(buf, pos + 320);
        let fld72 = u32::decode(buf, pos + 324);
        let fld73 = u32::decode(buf, pos + 328);
        let fld74 = u32::decode(buf, pos + 332);
        let fld75 = u32::decode(buf, pos + 336);
        let fld76 = u32::decode(buf, pos + 340);
        let fld77 = u32::decode(buf, pos + 344);
        let fld78 = u32::decode(buf, pos + 348);
        let fld79 = u32::decode(buf, pos + 352);
        let fld80 = u32::decode(buf, pos + 356);
        let fld81 = u32::decode(buf, pos + 360);
        let fld82 = u32::decode(buf, pos + 364);
        let fld83 = u32::decode(buf, pos + 368);
        let fld84 = u32::decode(buf, pos + 372);
        let fld85 = u32::decode(buf, pos + 376);
        let fld86 = u32::decode(buf, pos + 380);
        let fld87 = u32::decode(buf, pos + 384);
        let fld88 = u32::decode(buf, pos + 388);
        let fld89 = u32::decode(buf, pos + 392);
        let fld90 = u32::decode(buf, pos + 396);
        let v = Familiar {
            lawful_good_familiar: fld0,
            lawful_neutral_familiar: fld1,
            lawful_evil_familiar: fld2,
            neutral_good_familiar: fld3,
            neutral_familiar: fld4,
            neutral_evil_familiar: fld5,
            chaotic_good_familiar: fld6,
            chaotic_neutral_familiar: fld7,
            chaotic_evil_familiar: fld8,
            offset_to_familiar_resources: fld9,
            ce_level_1_familiar_spell_count: fld10,
            ce_level_2_familiar_spell_count: fld11,
            ce_level_3_familiar_spell_count: fld12,
            ce_level_4_familiar_spell_count: fld13,
            ce_level_5_familiar_spell_count: fld14,
            ce_level_6_familiar_spell_count: fld15,
            ce_level_7_familiar_spell_count: fld16,
            ce_level_8_familiar_spell_count: fld17,
            ce_level_9_familiar_spell_count: fld18,
            cg_level_1_familiar_spell_count: fld19,
            cg_level_2_familiar_spell_count: fld20,
            cg_level_3_familiar_spell_count: fld21,
            cg_level_4_familiar_spell_count: fld22,
            cg_level_5_familiar_spell_count: fld23,
            cg_level_6_familiar_spell_count: fld24,
            cg_level_7_familiar_spell_count: fld25,
            cg_level_8_familiar_spell_count: fld26,
            cg_level_9_familiar_spell_count: fld27,
            cn_level_1_familiar_spell_count: fld28,
            cn_level_2_familiar_spell_count: fld29,
            cn_level_3_familiar_spell_count: fld30,
            cn_level_4_familiar_spell_count: fld31,
            cn_level_5_familiar_spell_count: fld32,
            cn_level_6_familiar_spell_count: fld33,
            cn_level_7_familiar_spell_count: fld34,
            cn_level_8_familiar_spell_count: fld35,
            cn_level_9_familiar_spell_count: fld36,
            le_level_1_familiar_spell_count: fld37,
            le_level_2_familiar_spell_count: fld38,
            le_level_3_familiar_spell_count: fld39,
            le_level_4_familiar_spell_count: fld40,
            le_level_5_familiar_spell_count: fld41,
            le_level_6_familiar_spell_count: fld42,
            le_level_7_familiar_spell_count: fld43,
            le_level_8_familiar_spell_count: fld44,
            le_level_9_familiar_spell_count: fld45,
            lg_level_1_familiar_spell_count: fld46,
            lg_level_2_familiar_spell_count: fld47,
            lg_level_3_familiar_spell_count: fld48,
            lg_level_4_familiar_spell_count: fld49,
            lg_level_5_familiar_spell_count: fld50,
            lg_level_6_familiar_spell_count: fld51,
            lg_level_7_familiar_spell_count: fld52,
            lg_level_8_familiar_spell_count: fld53,
            lg_level_9_familiar_spell_count: fld54,
            ln_level_1_familiar_spell_count: fld55,
            ln_level_2_familiar_spell_count: fld56,
            ln_level_3_familiar_spell_count: fld57,
            ln_level_4_familiar_spell_count: fld58,
            ln_level_5_familiar_spell_count: fld59,
            ln_level_6_familiar_spell_count: fld60,
            ln_level_7_familiar_spell_count: fld61,
            ln_level_8_familiar_spell_count: fld62,
            ln_level_9_familiar_spell_count: fld63,
            ne_level_1_familiar_spell_count: fld64,
            ne_level_2_familiar_spell_count: fld65,
            ne_level_3_familiar_spell_count: fld66,
            ne_level_4_familiar_spell_count: fld67,
            ne_level_5_familiar_spell_count: fld68,
            ne_level_6_familiar_spell_count: fld69,
            ne_level_7_familiar_spell_count: fld70,
            ne_level_8_familiar_spell_count: fld71,
            ne_level_9_familiar_spell_count: fld72,
            ng_level_1_familiar_spell_count: fld73,
            ng_level_2_familiar_spell_count: fld74,
            ng_level_3_familiar_spell_count: fld75,
            ng_level_4_familiar_spell_count: fld76,
            ng_level_5_familiar_spell_count: fld77,
            ng_level_6_familiar_spell_count: fld78,
            ng_level_7_familiar_spell_count: fld79,
            ng_level_8_familiar_spell_count: fld80,
            ng_level_9_familiar_spell_count: fld81,
            tn_level_1_familiar_spell_count: fld82,
            tn_level_2_familiar_spell_count: fld83,
            tn_level_3_familiar_spell_count: fld84,
            tn_level_4_familiar_spell_count: fld85,
            tn_level_5_familiar_spell_count: fld86,
            tn_level_6_familiar_spell_count: fld87,
            tn_level_7_familiar_spell_count: fld88,
            tn_level_8_familiar_spell_count: fld89,
            tn_level_9_familiar_spell_count: fld90,
        };
        proof {
            lemma_subrange_concat(buf@, pos + 0, pos + 216, pos + 400);
            lemma_subrange_concat(buf@, pos + 0, pos + 124, pos + 216);
            lemma_subrange_concat(buf@, pos + 0, pos + 80, pos + 124);
            lemma_subrange_concat(buf@, pos + 0, pos + 40, pos + 80);
            lemma_subrange_concat(buf@, pos + 0, pos + 16, pos + 40);
            lemma_subrange_concat(buf@, pos + 0, pos + 8, pos + 16);
            lemma_subrange_concat(buf@, pos + 16, pos + 24, pos + 40);
            lemma_subrange_concat(buf@, pos + 24, pos + 32, pos + 40);
            lemma_subrange_concat(buf@, pos + 40, pos + 64, pos + 80);
            lemma_subrange_concat(buf@, pos + 40, pos + 48, pos + 64);
            lemma_subrange_concat(buf@, pos + 48, pos + 56, pos + 64);
            lemma_subrange_concat(buf@, pos + 64, pos + 72, pos + 80);
            lemma_subrange_concat(buf@, pos + 72, pos + 76, pos + 80);
            lemma_subrange_concat(buf@, pos + 80, pos + 100, pos + 124);
            lemma_subrange_concat(buf@, pos + 80, pos + 88, pos + 100);
            lemma_subrange_concat(buf@, pos + 80, pos + 84, pos + 88);
            lemma_subrange_concat(buf@, pos + 88, pos + 92, pos + 100);
            lemma_subrange_concat(buf@, pos + 92, pos + 96, pos + 100);
            lemma_subrange_concat(buf@, pos + 100, pos + 112, pos + 124);
            lemma_subrange_concat(buf@, pos + 100, pos + 104, pos + 112);
            lemma_subrange_concat(buf@, pos + 104, pos + 108, pos + 112);
            lemma_subrange_concat(buf@, pos + 112, pos + 116, pos + 124);
            lemma_subrange_concat(buf@, pos + 116, pos + 120, pos + 124);
            lemma_subrange_concat(buf@, pos + 124, pos + 168, pos + 216);
            lemma_subrange_concat(buf@, pos + 124, pos + 144, pos + 168);
            lemma_subrange_concat(buf@, pos + 124, pos + 132, pos + 144);
            lemma_subrange_concat(buf@, pos + 124, pos + 128, pos + 132);
            lemma_subrange_concat(buf@, pos + 132, pos + 136, pos + 144);
            lemma_subrange_concat(buf@, pos + 136, pos + 140, pos + 144);
            lemma_subrange_concat(buf@, pos + 144, pos + 156, pos + 168);
            lemma_subrange_concat(buf@, pos + 144, pos + 148, pos + 156);
            lemma_subrange_concat(buf@, pos + 148, pos + 152, pos + 156);
            lemma_subrange_concat(buf@, pos + 156, pos + 160, pos + 168);
            lemma_subrange_concat(buf@, pos + 160, pos + 164, pos + 168);
            lemma_subrange_concat(buf@, pos + 168, pos + 192, pos + 216);
            lemma_subrange_concat(buf@, pos + 168, pos + 180, pos + 192);
            lemma_subrange_concat(buf@, pos + 168, pos + 172, pos + 180);
            lemma_subrange_concat(buf@, pos + 172, pos + 176, pos + 180);
            lemma_subrange_concat(buf@, pos + 180, pos + 184, pos + 192);
            lemma_subrange_concat(buf@, pos + 184, pos + 188, pos + 192);
            lemma_subrange_concat(buf@, pos + 192, pos + 204, pos + 216);
            lemma_subrange_concat(buf@, pos + 192, pos + 196, pos + 204);
            lemma_subrange_concat(buf@, pos + 196, pos + 200, pos + 204);
            lemma_subrange_concat(buf@, pos + 204, pos + 208, pos + 216);
            lemma_subrange_concat(buf@, pos + 208, pos + 212, pos + 216);
            lemma_subrange_concat(buf@, pos + 216, pos + 308, pos + 400);
            lemma_subrange_concat(buf@, pos + 216, pos + 260, pos + 308);
            lemma_subrange_concat(buf@, pos + 216, pos + 236, pos + 260);
            lemma_subrange_concat(buf@, pos + 216, pos + 224, pos + 236);
            lemma_subrange_concat(buf@, pos + 216, pos + 220, pos + 224);
            lemma_subrange_concat(buf@, pos + 224, pos + 228, pos + 236);
            lemma_subrange_concat(buf@, pos + 228, pos + 232, pos + 236);
            lemma_subrange_concat(buf@, pos + 236, pos + 248, pos + 260);
            lemma_subrange_concat(buf@, pos + 236, pos + 240, pos + 248);
            lemma_subrange_concat(buf@, pos + 240, pos + 244, pos + 248);
            lemma_subrange_concat(buf@, pos + 248, pos + 252, pos + 260);
            lemma_subrange_concat(buf@, pos + 252, pos + 256, pos + 260);
            lemma_subrange_concat(buf@, pos + 260, pos + 284, pos + 308);
            lemma_subrange_concat(buf@, pos + 260, pos + 272, pos + 284);
            lemma_subrange_concat(buf@, pos + 260, pos + 264, pos + 272);
            lemma_subrange_concat(buf@, pos + 264, pos + 268, pos + 272);
            lemma_subrange_concat(buf@, pos + 272, pos + 276, pos + 284);
            lemma_subrange_concat(buf@, pos + 276, pos + 280, pos + 284);
            lemma_subrange_concat(buf@, pos + 284, pos + 296, pos + 308);
            lemma_subrange_concat(buf@, pos + 284, pos + 288, pos + 296);
            lemma_subrange_concat(buf@, pos + 288, pos + 292, pos + 296);
            lemma_subrange_concat(buf@, pos + 296, pos + 300, pos + 308);
            lemma_subrange_concat(buf@, pos + 300, pos + 304, pos + 308);
            lemma_subrange_concat(buf@, pos + 308, pos + 352, pos + 400);
            lemma_subrange_concat(buf@, pos + 308, pos + 328, pos + 352);
            lemma_subrange_concat(buf@, pos + 308, pos + 316, pos + 328);
            lemma_subrange_concat(buf@, pos + 308, pos + 312, pos + 316);
            lemma_subrange_concat(buf@, pos + 316, pos + 320, pos + 328);
            lemma_subrange_concat(buf@, pos + 320, pos + 324, pos + 328);
            lemma_subrange_concat(buf@, pos + 328, pos + 340, pos + 352);
            lemma_subrange_concat(buf@, pos + 328, pos + 332, pos + 340);
            lemma_subrange_concat(buf@, pos + 332, pos + 336, pos + 340);
            lemma_subrange_concat(buf@, pos + 340, pos + 344, pos + 352);
            lemma_subrange_concat(buf@, pos + 344, pos + 348, pos + 352);
            lemma_subrange_concat(buf@, pos + 352, pos + 376, pos + 400);
            lemma_subrange_concat(buf@, pos + 352, pos + 364, pos + 376);
            lemma_subrange_concat(buf@, pos + 352, pos + 356, pos + 364);
            lemma_subrange_concat(buf@, pos + 356, pos + 360, pos + 364);
            lemma_subrange_concat(buf@, pos + 364, pos + 368, pos + 376);
            lemma_subrange_concat(buf@, pos + 368, pos + 372, pos + 376);
            lemma_subrange_concat(buf@, pos + 376, pos + 388, pos + 400);
            lemma_subrange_concat(buf@, pos + 376, pos + 380, pos + 388);
            lemma_subrange_concat(buf@, pos + 380, pos + 384, pos + 388);
            lemma_subrange_concat(buf@, pos + 388, pos + 392, pos + 400);
            lemma_subrange_concat(buf@, pos + 392, pos + 396, pos + 400);
        }
        v
    }

    fn encode(&self, out: &mut Vec<u8>) {
        let mut b0 = encoded(&self.lawful_good_familiar);
        let mut b1 = encoded(&self.lawful_neutral_familiar);
        let mut b2 = encoded(&self.lawful_evil_familiar);
        let mut b3 = encoded(&self.neutral_good_familiar);
        let mut b4 = encoded(&self.neutral_familiar);
        let mut b5 = encoded(&self.neutral_evil_familiar);
        let mut b6 = encoded(&self.chaotic_good_familiar);
        let mut b7 = encoded(&self.chaotic_neutral_familiar);
        let mut b8 = encoded(&self.chaotic_evil_familiar);
        let mut b9 = encoded(&self.offset_to_familiar_resources);
        let mut b10 = encoded(&self.ce_level_1_familiar_spell_count);
        let mut b11 = encoded(&self.ce_level_2_familiar_spell_count);
        let mut b12 = encoded(&self.ce_level_3_familiar_spell_count);
        let mut b13 = encoded(&self.ce_level_4_familiar_spell_count);
        let mut b14 = encoded(&self.ce_level_5_familiar_spell_count);
        let mut b15 = encoded(&self.ce_level_6_familiar_spell_count);
        let mut b16 = encoded(&self.ce_level_7_familiar_spell_count);
        let mut b17 = encoded(&self.ce_level_8_familiar_spell_count);
        let mut b18 = encoded(&self.ce_level_9_familiar_spell_count);
        let mut b19 = encoded(&self.cg_level_1_familiar_spell_count);
        let mut b20 = encoded(&self.cg_level_2_familiar_spell_count);
        let mut b21 = encoded(&self.cg_level_3_familiar_spell_count);
        let mut b22 = encoded(&self.cg_level_4_familiar_spell_count);
        let mut b23 = encoded(&self.cg_level_5_familiar_spell_count);
        let mut b24 = encoded(&self.cg_level_6_familiar_spell_count);
        let mut b25 = encoded(&self.cg_level_7_familiar_spell_count);
        let mut b26 = encoded(&self.cg_level_8_familiar_spell_count);
        let mut b27 = encoded(&self.cg_level_9_familiar_spell_count);
        let mut b28 = encoded(&self.cn_level_1_familiar_spell_count);
        let mut b29 = encoded(&self.cn_level_2_familiar_spell_count);
        let mut b30 = encoded(&self.cn_level_3_familiar_spell_count);
        let mut b31 = encoded(&self.cn_level_4_familiar_spell_count);
        let mut b32 = encoded(&self.cn_level_5_familiar_spell_count);
        let mut b33 = encoded(&self.cn_level_6_familiar_spell_count);
        let mut b34 = encoded(&self.cn_level_7_familiar_spell_count);
        let mut b35 = encoded(&self.cn_level_8_familiar_spell_count);
        let mut b36 = encoded(&self.cn_level_9_familiar_spell_count);
        let mut b37 = encoded(&self.le_level_1_familiar_spell_count);
        let mut b38 = encoded(&self.le_level_2_familiar_spell_count);
        let mut b39 = encoded(&self.le_level_3_familiar_spell_count);
        let mut b40 = encoded(&self.le_level_4_familiar_spell_count);
        let mut b41 = encoded(&self.le_level_5_familiar_spell_count);
        let mut b42 = encoded(&self.le_level_6_familiar_spell_count);
        let mut b43 = encoded(&self.le_level_7_familiar_spell_count);
        let mut b44 = encoded(&self.le_level_8_familiar_spell_count);
        let mut b45 = encoded(&self.le_level_9_familiar_spell_count);
        let mut b46 = encoded(&self.lg_level_1_familiar_spell_count);
        let mut b47 = encoded(&self.lg_level_2_familiar_spell_count);
        let mut b48 = encoded(&self.lg_level_3_familiar_spell_count);
        let mut b49 = encoded(&self.lg_level_4_familiar_spell_count);
        let mut b50 = encoded(&self.lg_level_5_familiar_spell_count);
        let mut b51 = encoded(&self.lg_level_6_familiar_spell_count);
        let mut b52 = encoded(&self.lg_level_7_familiar_spell_count);
        let mut b53 = encoded(&self.lg_level_8_familiar_spell_count);
        let mut b54 = encoded(&self.lg_level_9_familiar_spell_count);
        let mut b55 = encoded(&self.ln_level_1_familiar_spell_count);
        let mut b56 = encoded(&self.ln_level_2_familiar_spell_count);
        let mut b57 = encoded(&self.ln_level_3_familiar_spell_count);
        let mut b58 = encoded(&self.ln_level_4_familiar_spell_count);
        let mut b59 = encoded(&self.ln_level_5_familiar_spell_count);
        let mut b60 = encoded(&self.ln_level_6_familiar_spell_count);
        let mut b61 = encoded(&self.ln_level_7_familiar_spell_count);
        let mut b62 = encoded(&self.ln_level_8_familiar_spell_count);
        let mut b63 = encoded(&self.ln_level_9_familiar_spell_count);
        let mut b64 = encoded(&self.ne_level_1_familiar_spell_count);
        let mut b65 = encoded(&self.ne_level_2_familiar_spell_count);
        let mut b66 = encoded(&self.ne_level_3_familiar_spell_count);
        let mut b67 = encoded(&self.ne_level_4_familiar_spell_count);
        let mut b68 = encoded(&self.ne_level_5_familiar_spell_count);
        let mut b69 = encoded(&self.ne_level_6_familiar_spell_count);
        let mut b70 = encoded(&self.ne_level_7_familiar_spell_count);
        let mut b71 = encoded(&self.ne_level_8_familiar_spell_count);
        let mut b72 = encoded(&self.ne_level_9_familiar_spell_count);
        let mut b73 = encoded(&self.ng_level_1_familiar_spell_count);
        let mut b74 = encoded(&self.ng_level_2_familiar_spell_count);
        let mut b75 = encoded(&self.ng_level_3_familiar_spell_count);
        let mut b76 = encoded(&self.ng_level_4_familiar_spell_count);
        let mut b77 = encoded(&self.ng_level_5_familiar_spell_count);
        let mut b78 = encoded(&self.ng_level_6_familiar_spell_count);
        let mut b79 = encoded(&self.ng_level_7_familiar_spell_count);
        let mut b80 = encoded(&self.ng_level_8_familiar_spell_count);
        let mut b81 = encoded(&self.ng_level_9_familiar_spell_count);
        let mut b82 = encoded(&self.tn_level_1_familiar_spell_count);
        let mut b83 = encoded(&self.tn_level_2_familiar_spell_count);
        let mut b84 = encoded(&self.tn_level_3_familiar_spell_count);
        let mut b85 = encoded(&self.tn_level_4_familiar_spell_count);
        let mut b86 = encoded(&self.tn_level_5_familiar_spell_count);
        let mut b87 = encoded(&self.tn_level_6_familiar_spell_count);
        let mut b88 = encoded(&self.tn_level_7_familiar_spell_count);
        let mut b89 = encoded(&self.tn_level_8_familiar_spell_count);
        let mut b90 = encoded(&self.tn_level_9_familiar_spell_count);
        b89.append(&mut b90);
        b88.append(&mut b89);
        b86.append(&mut b87);
        b85.append(&mut b86);
        b85.append(&mut b88);
        b83.append(&mut b84);
        b82.append(&mut b83);
        b80.append(&mut b81);
        b79.append(&mut b80);
        b79.append(&mut b82);
        b79.append(&mut b85);
        b77.append(&mut b78);
        b76.append(&mut b77);
        b74.append(&mut b75);
        b73.append(&mut b74);
        b73.append(&mut b76);
        b71.append(&mut b72);
        b70.append(&mut b71);
        b68.append(&mut b69);
        b68.append(&mut b70);
        b68.append(&mut b73);
        b68.append(&mut b79);
        b66.append(&mut b67);
        b65.append(&mut b66);
        b63.append(&mut b64);
        b62.append(&mut b63);
        b62.append(&mut b65);
        b60.append(&mut b61);
        b59.append(&mut b60);
        b57.append(&mut b58);
        b56.append(&mut b57);
        b56.append(&mut b59);
        b56.append(&mut b62);
        b54.append(&mut b55);
        b53.append(&mut b54);
        b51.append(&mut b52);
        b50.append(&mut b51);
        b50.append(&mut b53);
        b48.append(&mut b49);
        b47.append(&mut b48);
        b45.append(&mut b46);
        b45.append(&mut b47);
        b45.append(&mut b50);
        b45.append(&mut b56);
        b45.append(&mut b68);
        b43.append(&mut b44);
        b42.append(&mut b43);
        b40.append(&mut b41);
        b39.append(&mut b40);
        b39.append(&mut b42);
        b37.append(&mut b38);
        b36.append(&mut b37);
        b34.append(&mut b35);
        b33.append(&mut b34);
        b33.append(&mut b36);
        b33.append(&mut b39);
        b31.append(&mut b32);
        b30.append(&mut b31);
        b28.append(&mut b29);
        b27.append(&mut b28);
        b27.append(&mut b30);
        b25.append(&mut b26);
        b24.append(&mut b25);
        b22.append(&mut b23);
        b22.append(&mut b24);
        b22.append(&mut b27);
        b22.append(&mut b33);
        b20.append(&mut b21);
        b19.append(&mut b20);
        b17.append(&mut b18);
        b16.append(&mut b17);
        b16.append(&mut b19);
        b14.append(&mut b15);
        b13.append(&mut b14);
        b11.append(&mut b12);
        b11.append(&mut b13);
        b11.append(&mut b16);
        b9.append(&mut b10);
        b8.append(&mut b9);
        b6.append(&mut b7);
        b5.append(&mut b6);
        b5.append(&mut b8);
        b3.append(&mut b4);
        b2.append(&mut b3);
        b0.append(&mut b1);
        b0.append(&mut b2);
        b0.append(&mut b5);
        b0.append(&mut b11);
        b0.append(&mut b22);
        b0.append(&mut b45);
        out.append(&mut b0);
    }
}

/// https://gibberlings3.github.io/iesdp/file_formats/ie_formats/gam_v2.0.htm#GAMEV2_0_Stored
/// https://gibberlings3.github.io/iesdp/file_formats/ie_formats/gam_v2.0.htm#GAMEV2_0_PocketPlane
#[derive(Debug, Clone, PartialEq)]
pub struct Location {
    pub area: Resref,
    pub x_coordinate: u16,
    pub y_coordinate: u16,
}

impl Location {
    /// Encoding of the fields 0 to 2, in order.
    pub open spec fn bytes_0_3(&self) -> Seq<u8> {
        self.area.enc() + self.bytes_1_3()
    }

    /// Encoding of the fields 1 to 2, in order.
    pub open spec fn bytes_1_3(&self) -> Seq<u8> {
        self.x_coordinate.enc() + self.y_coordinate.enc()
    }
}

impl Codec for Location {
    open spec fn width() -> nat {
        12
    }

    open spec fn enc(&self) -> Seq<u8> {
        self.bytes_0_3()
    }

    open spec fn wf(&self) -> bool {
        true
    }

    open spec fn same(&self, other: &Self) -> bool {
        &&& self.area.same(&other.area)
        &&& self.x_coordinate == other.x_coordinate
        &&& self.y_coordinate == other.y_coordinate
    }

    fn byte_width() -> (n: usize) {
        12
    }

    fn check_wf(&self) -> (b: bool) {
        true
    }

    proof fn lemma_enc_len(&self) {
        self.area.lemma_enc_len();
        self.x_coordinate.lemma_enc_len();
        self.y_coordinate.lemma_enc_len();
    }

    proof fn lemma_enc_injective(&self, other: &Self) {
        self.area.lemma_enc_len();
        self.x_coordinate.lemma_enc_len();
        self.y_coordinate.lemma_enc_len();
        other.area.lemma_enc_len();
        other.x_coordinate.lemma_enc_len();
        other.y_coordinate.lemma_enc_len();
        lemma_concat_peel(self.area.enc(), self.bytes_1_3(), other.area.enc(), other.bytes_1_3());
        lemma_concat_peel(self.x_coordinate.enc(), self.y_coordinate.enc(), other.x_coordinate.enc(), other.y_coordinate.enc());
        self.area.lemma_enc_injective(&other.area);
        self.x_coordinate.lemma_enc_injective(&other.x_coordinate);
        self.y_coordinate.lemma_enc_injective(&other.y_coordinate);
    }

    fn decode(buf: &[u8], pos: usize) -> (v: Self) {
        let len = buf.len();
        let fld0 = Resref::decode(buf, pos + 0);
        let fld1 = u16::decode(buf, pos + 8);
        let fld2 = u16::decode(buf, pos + 10);
        let v = Location {
            area: fld0,
            x_coordinate: fld1,
            y_coordinate: fld2,
        };
        proof {
            lemma_subrange_concat(buf@, pos + 0, pos + 8, pos + 12);
            lemma_subrange_concat(buf@, pos + 8, pos + 10, pos + 12);
        }
        v
    }

    fn encode(&self, out: &mut Vec<u8>) {
        let mut b0 = encoded(&self.area);
        let mut b1 = encoded(&self.x_coordinate);
        let mut b2 = encoded(&self.y_coordinate);
        b1.append(&mut b2);
        b0.append(&mut b1);
        out.append(&mut b0);
    }
}

/// https://gibberlings3.github.io/iesdp/file_formats/ie_formats/gam_v2.0.htm#GAMEV2_0_FamiliarExtra
#[derive(Debug, Clone, PartialEq)]
pub struct FamiliarExtra {
    pub data: Resref,
}

impl Codec for FamiliarExtra {
    open spec fn width() -> nat {
        8
    }

    open spec fn enc(&self) -> Seq<u8> {
        self.data.enc()
    }

    open spec fn wf(&self) -> bool {
        true
    }

    open spec fn same(&self, other: &Self) -> bool {
        self.data.same(&other.data)
    }

    fn byte_width() -> (n: usize) {
        8
    }

    fn check_wf(&self) -> (b: bool) {
        true
    }

    proof fn lemma_enc_len(&self) {
        self.data.lemma_enc_len();
    }

    proof fn lemma_enc_injective(&self, other: &Self) {
        self.data.lemma_enc_len();
        other.data.lemma_enc_len();
        self.data.lemma_enc_injective(&other.data);
    }

    fn decode(buf: &[u8], pos: usize) -> (v: Self) {
        let len = buf.len();
        let fld0 = Resref::decode(buf, pos + 0);
        let v = FamiliarExtra {
            data: fld0,
        };
        v
    }

    fn encode(&self, out: &mut Vec<u8>) {
        let mut b0 = encoded(&self.data);
        out.append(&mut b0);
    }
}

/// The bytes of the creature of `npc`: the `size_of_cre_resource` bytes at
/// `offset_to_cre_resource`; none when they do not lie inside the file.
pub open spec fn creature_bytes(buffer: Seq<u8>, npc: GameNPC) -> Seq<u8> {
    let start = npc.offset_to_cre_resource as int;
    let end = start + npc.size_of_cre_resource;
    if end <= buffer.len() { buffer.subrange(start, end) } else { Seq::empty() }
}

/// The bytes of the creatures of `npcs`, in order: every npc with a creature
/// size has its own; npcs with no creature size are skipped.
pub open spec fn creature_buffers(buffer: Seq<u8>, npcs: Seq<GameNPC>) -> Seq<Seq<u8>>
    decreases npcs.len(),
{
    if npcs.len() == 0 {
        Seq::empty()
    } else if npcs.last().size_of_cre_resource == 0 {
        creature_buffers(buffer, npcs.drop_last())
    } else {
        creature_buffers(buffer, npcs.drop_last()).push(creature_bytes(buffer, npcs.last()))
    }
}

/// Every creature buffer holds a readable creature.
pub open spec fn creatures_parse(bufs: Seq<Seq<u8>>) -> bool {
    forall|i: int| 0 <= i < bufs.len() ==> Creature::parses_at(#[trigger] bufs[i], 0)
}

/// `cres` are the creatures read from `bufs`.
pub open spec fn creatures_parsed(cres: Seq<Creature>, bufs: Seq<Seq<u8>>) -> bool {
    &&& cres.len() == bufs.len()
    &&& forall|i: int| 0 <= i < bufs.len() ==> (#[trigger] cres[i]).parsed_at(bufs[i], 0)
}

proof fn lemma_creatures_same(buffer: Seq<u8>, a: Seq<GameNPC>, b: Seq<GameNPC>)
    requires
        seq_same(a, b),
    ensures
        creature_buffers(buffer, a) == creature_buffers(buffer, b),
    decreases a.len(),
{
    if a.len() > 0 {
        assert(a.last().same(&b.last()));
        lemma_creatures_same(buffer, a.drop_last(), b.drop_last());
    }
}

/// Once a creature buffer fails to read, so does the whole list.
proof fn lemma_creatures_prefix(buffer: Seq<u8>, npcs: Seq<GameNPC>, n: int)
    requires
        0 <= n <= npcs.len(),
        !creatures_parse(creature_buffers(buffer, npcs.take(n))),
    ensures
        !creatures_parse(creature_buffers(buffer, npcs)),
    decreases npcs.len(),
{
    if n < npcs.len() {
        assert(npcs.drop_last().take(n) =~= npcs.take(n));
        lemma_creatures_prefix(buffer, npcs.drop_last(), n);
        let prev = creature_buffers(buffer, npcs.drop_last());
        let bufs = creature_buffers(buffer, npcs);
        let j = choose|j: int| 0 <= j < prev.len() && !Creature::parses_at(#[trigger] prev[j], 0);
        assert(bufs[j] == prev[j]);
    } else {
        assert(npcs.take(n) =~= npcs);
    }
}

/// The bytes of the creature of `npc`, as `creature_bytes` gives them.
fn creature_slice<'a>(buffer: &'a [u8], npc: &GameNPC) -> (b: &'a [u8])
    ensures
        b@ == creature_bytes(buffer@, *npc),
{
    let start = npc.offset_to_cre_resource as u64;
    let end = start + npc.size_of_cre_resource as u64;
    if end <= buffer.len() as u64 {
        vstd::slice::slice_subrange(buffer, start as usize, end as usize)
    } else {
        let empty: &'a [u8] = &[];
        assert(empty@ =~= Seq::<u8>::empty());
        empty
    }
}

/// Reads the creature of every npc with a creature size, each from its own
/// bytes; nothing when one of them is not a readable creature.
fn parse_creatures(buffer: &[u8], npcs: &Vec<GameNPC>) -> (r: Option<Vec<Creature>>)
    ensures
        r is Some <==> creatures_parse(creature_buffers(buffer@, npcs@)),
        r matches Some(cres) ==> creatures_parsed(cres@, creature_buffers(buffer@, npcs@)),
{
    let mut creatures: Vec<Creature> = Vec::new();
    let mut i: usize = 0;
    while i < npcs.len()
        invariant
            i <= npcs@.len(),
            creatures_parse(creature_buffers(buffer@, npcs@.take(i as int))),
            creatures_parsed(creatures@, creature_buffers(buffer@, npcs@.take(i as int))),
        decreases npcs@.len() - i,
    {
        let ghost bufs_before = creature_buffers(buffer@, npcs@.take(i as int));
        proof {
            let t = npcs@.take(i + 1);
            assert(t.drop_last() =~= npcs@.take(i as int));
            assert(t.last() == npcs@[i as int]);
        }
        if npcs[i].size_of_cre_resource != 0 {
            let own = creature_slice(buffer, &npcs[i]);
            let cre = match Creature::parse_at(own, 0) {
                Some(c) => c,
                None => {
                    proof {
                        let bufs = creature_buffers(buffer@, npcs@.take(i + 1));
                        assert(bufs[bufs.len() - 1] == own@);
                        lemma_creatures_prefix(buffer@, npcs@, i + 1);
                    }
                    return None;
                },
            };
            creatures.push(cre);
            proof {
                let bufs = creature_buffers(buffer@, npcs@.take(i + 1));
                assert forall|j: int| 0 <= j < bufs.len() implies Creature::parses_at(#[trigger] bufs[j], 0) by {
                    if j < bufs_before.len() {
                        assert(bufs[j] == bufs_before[j]);
                    }
                }
                assert forall|j: int| 0 <= j < bufs.len() implies (#[trigger] creatures@[j]).parsed_at(bufs[j], 0) by {
                    if j < bufs_before.len() {
                        assert(bufs[j] == bufs_before[j]);
                    }
                }
            }
        }
        i = i + 1;
    }
    assert(npcs@.take(npcs@.len() as int) =~= npcs@);
    Some(creatures)
}

/// A table of `count` npcs at `at` lies inside the buffer, and the creature
/// of each of them is readable from its own bytes.
#[verifier::opaque]
pub open spec fn npc_table_ok(buffer: Seq<u8>, at: int, count: int) -> bool {
    &&& section_ok(buffer.len(), at, count, GameNPC::width())
    &&& creatures_parse(creature_buffers(buffer, section_entries::<GameNPC>(buffer, at, count)))
}

/// A table read at `at` decides, by the creatures its npcs give, whether the
/// table with its creatures can be read.
proof fn lemma_npc_table(buffer: Seq<u8>, at: int, count: int, npcs: Seq<GameNPC>)
    requires
        section_ok(buffer.len(), at, count, GameNPC::width()),
        section_parsed(npcs, buffer, at, count),
    ensures
        npc_table_ok(buffer, at, count) <==> creatures_parse(creature_buffers(buffer, npcs)),
{
    let entries = section_entries::<GameNPC>(buffer, at, count);
    assert(seq_same(entries, npcs)) by {
        lemma_section_entries(buffer, at, count, npcs);
    }
    lemma_creatures_same(buffer, entries, npcs);
    reveal(npc_table_ok);
}

/// A table that does not fit in the buffer cannot be read.
proof fn lemma_npc_table_misfit(buffer: Seq<u8>, at: int, count: int)
    requires
        !section_ok(buffer.len(), at, count, GameNPC::width()),
    ensures
        !npc_table_ok(buffer, at, count),
{
    reveal(npc_table_ok);
}

/// Reads a table of `count` npcs at `at` and the creature of each of them.
fn parse_npc_table(buffer: &[u8], at: u64, count: u64) -> (r: Option<(Vec<GameNPC>, Vec<Creature>)>)
    ensures
        r is Some <==> npc_table_ok(buffer@, at as int, count as int),
        r matches Some((npcs, cres)) ==> {
            &&& section_parsed(npcs@, buffer@, at as int, count as int)
            &&& creatures_parsed(cres@, creature_buffers(buffer@, npcs@))
        },
{
    let npcs = match read_section::<GameNPC>(buffer, at, count) {
        Some(v) => v,
        None => {
            proof {
                lemma_npc_table_misfit(buffer@, at as int, count as int);
            }
            return None;
        },
    };
    proof {
        lemma_npc_table(buffer@, at as int, count as int, npcs@);
    }
    match parse_creatures(buffer, &npcs) {
        Some(cres) => Some((npcs, cres)),
        None => None,
    }
}

/// A saved game: its header, the party and other npcs with the creatures
/// stored with them, the variables, journal, familiars and stored locations,
/// and the bytes it was read from.
/// <https://gibberlings3.github.io/iesdp/file_formats/ie_formats/gam_v2.0.htm>
#[derive(Debug, PartialEq)]
pub struct Game {
    /// The whole file; it is what a game is written back as.
    pub original_bytes: Vec<u8>,
    pub header: BGEEGameHeader,
    /// The party npcs, at their offset.
    pub party_npcs: Vec<GameNPC>,
    /// The creatures of the party npcs, each read from its own bytes.
    pub party_npcs_cres: Vec<Creature>,
    /// The other npcs, at their offset.
    pub non_party_npcs: Vec<GameNPC>,
    pub non_party_npcs_cres: Vec<Creature>,
    /// The variables, at their offset.
    pub global_variables: Vec<GlobalVariables>,
    pub journal_entries: Vec<JournalEntries>,
    pub familiar: Option<Familiar>,
    pub stored_locations: Vec<Location>,
    pub pocket_plane_locations: Vec<Location>,
    pub familiar_extra: Vec<FamiliarExtra>,
}

impl Game {
    /// The number of journal entries read: none when the offset is `u32::MAX`.
    pub open spec fn journal_count(offset: u32, count: u32) -> int {
        if offset != u32::MAX { count as int } else { 0 }
    }

    /// The number of familiar extras read: none when the offset is
    /// `u32::MAX`, else every whole entry up to the end of the file.
    pub open spec fn familiar_extra_count(buffer: Seq<u8>, offset: u32) -> int {
        if offset != u32::MAX {
            until_eof_count(buffer.len(), offset as int, FamiliarExtra::width())
        } else {
            0
        }
    }

    /// The tables placed by offsets in the header fit in the buffer.
    pub open spec fn placed_tables_fit(buffer: Seq<u8>, h: BGEEGameHeader) -> bool {
        let len = buffer.len();
        &&& section_ok(len, h.offset_to_journal_entries as int, Game::journal_count(h.offset_to_journal_entries, h.count_of_journal_entries), JournalEntries::width())
        &&& h.offset_to_familiar + Familiar::width() <= len
        &&& section_ok(len, h.offset_to_stored_locations as int, h.count_of_stored_locations as int, Location::width())
        &&& section_ok(len, h.offset_to_pocket_plane_locations as int, h.count_of_pocket_plane_locations as int, Location::width())
    }
}

impl Game {
    /// Reads the tables that the header places by offset and assembles the game.
    fn parse_placed_tables(
        buffer: &[u8],
        header: BGEEGameHeader,
        party_npcs: Vec<GameNPC>,
        party_npcs_cres: Vec<Creature>,
        non_party_npcs: Vec<GameNPC>,
        non_party_npcs_cres: Vec<Creature>,
        global_variables: Vec<GlobalVariables>,
    ) -> (r: Option<Game>)
        ensures
            r is Some <==> Game::placed_tables_fit(buffer@, header),
            r matches Some(g) ==> {
                &&& g.original_bytes@ == buffer@
                &&& g.header == header
                &&& g.party_npcs == party_npcs
                &&& g.party_npcs_cres == party_npcs_cres
                &&& g.non_party_npcs == non_party_npcs
                &&& g.non_party_npcs_cres == non_party_npcs_cres
                &&& g.global_variables == global_variables
                &&& section_parsed(g.journal_entries@, buffer@, header.offset_to_journal_entries as int, Game::journal_count(header.offset_to_journal_entries, header.count_of_journal_entries))
                &&& g.familiar matches Some(f) && record_parsed(f, buffer@, header.offset_to_familiar as int)
                &&& section_parsed(g.stored_locations@, buffer@, header.offset_to_stored_locations as int, header.count_of_stored_locations as int)
                &&& section_parsed(g.pocket_plane_locations@, buffer@, header.offset_to_pocket_plane_locations as int, header.count_of_pocket_plane_locations as int)
                &&& section_parsed(g.familiar_extra@, buffer@, header.offset_to_familiar_extra as int, Game::familiar_extra_count(buffer@, header.offset_to_familiar_extra))
            },
    {
        let journal_count: u64 = if header.offset_to_journal_entries != u32::MAX { header.count_of_journal_entries as u64 } else { 0 };
        let journal_entries = match read_section::<JournalEntries>(buffer, header.offset_to_journal_entries as u64, journal_count) {
            Some(v) => v,
            None => return None,
        };
        let familiar = match read_at::<Familiar>(buffer, header.offset_to_familiar as u64) {
            Some(v) => v,
            None => return None,
        };
        let stored_locations = match read_section::<Location>(buffer, header.offset_to_stored_locations as u64, header.count_of_stored_locations as u64) {
            Some(v) => v,
            None => return None,
        };
        let pocket_plane_locations = match read_section::<Location>(buffer, header.offset_to_pocket_plane_locations as u64, header.count_of_pocket_plane_locations as u64) {
            Some(v) => v,
            None => return None,
        };
        let familiar_extra = if header.offset_to_familiar_extra != u32::MAX {
            read_until_eof::<FamiliarExtra>(buffer, header.offset_to_familiar_extra as u64)
        } else {
            let v: Vec<FamiliarExtra> = Vec::new();
            assert(enc_seq(v@) =~= Seq::<u8>::empty());
            v
        };
        let original_bytes = vstd::slice::slice_to_vec(buffer);
        Some(Game {
            original_bytes,
            header,
            party_npcs,
            party_npcs_cres,
            non_party_npcs,
            non_party_npcs_cres,
            global_variables,
            journal_entries,
            familiar: Some(familiar),
            stored_locations,
            pocket_plane_locations,
            familiar_extra,
        })
    }
}

impl Model for Game {
    open spec fn spec_parses(buffer: Seq<u8>) -> bool {
        let h = decoded_at::<BGEEGameHeader>(buffer, 0);
        &&& BGEEGameHeader::width() <= buffer.len()
        &&& npc_table_ok(buffer, h.offset_to_npc_structs_for_party_members as int, h.count_of_npc_structs_for_party_members as int)
        &&& npc_table_ok(buffer, h.offset_to_npc_structs_for_npcs as int, h.count_of_npc_structs_for_npcs as int)
        &&& section_ok(buffer.len(), h.offset_to_global_namespace_variables as int, h.count_of_global_namespace_variables as int, GlobalVariables::width())
        &&& Game::placed_tables_fit(buffer, h)
    }

    open spec fn parsed_from(&self, buffer: Seq<u8>) -> bool {
        let h = self.header;
        &&& self.original_bytes@ == buffer
        &&& record_parsed(h, buffer, 0)
        &&& section_parsed(self.party_npcs@, buffer, h.offset_to_npc_structs_for_party_members as int, h.count_of_npc_structs_for_party_members as int)
        &&& creatures_parsed(self.party_npcs_cres@, creature_buffers(buffer, self.party_npcs@))
        &&& section_parsed(self.non_party_npcs@, buffer, h.offset_to_npc_structs_for_npcs as int, h.count_of_npc_structs_for_npcs as int)
        &&& creatures_parsed(self.non_party_npcs_cres@, creature_buffers(buffer, self.non_party_npcs@))
        &&& section_parsed(self.global_variables@, buffer, h.offset_to_global_namespace_variables as int, h.count_of_global_namespace_variables as int)
        &&& section_parsed(self.journal_entries@, buffer, h.offset_to_journal_entries as int, Game::journal_count(h.offset_to_journal_entries, h.count_of_journal_entries))
        &&& self.familiar matches Some(f) && record_parsed(f, buffer, h.offset_to_familiar as int)
        &&& section_parsed(self.stored_locations@, buffer, h.offset_to_stored_locations as int, h.count_of_stored_locations as int)
        &&& section_parsed(self.pocket_plane_locations@, buffer, h.offset_to_pocket_plane_locations as int, h.count_of_pocket_plane_locations as int)
        &&& section_parsed(self.familiar_extra@, buffer, h.offset_to_familiar_extra as int, Game::familiar_extra_count(buffer, h.offset_to_familiar_extra))
    }

    open spec fn spec_writable(&self) -> bool {
        true
    }

    fn writable(&self) -> (b: bool) {
        true
    }

    open spec fn spec_bytes(&self) -> Seq<u8> {
        self.original_bytes@
    }

    fn parse(buffer: &[u8]) -> (r: Option<Self>) {
        let header = match read_at::<BGEEGameHeader>(buffer, 0) {
            Some(h) => h,
            None => return None,
        };
        proof {
            lemma_decoded_at(buffer@, 0, header);
        }
        let (party_npcs, party_npcs_cres) = match parse_npc_table(buffer, header.offset_to_npc_structs_for_party_members as u64, header.count_of_npc_structs_for_party_members as u64) {
            Some(x) => x,
            None => return None,
        };
        let (non_party_npcs, non_party_npcs_cres) = match parse_npc_table(buffer, header.offset_to_npc_structs_for_npcs as u64, header.count_of_npc_structs_for_npcs as u64) {
            Some(x) => x,
            None => return None,
        };
        let global_variables = match read_section::<GlobalVariables>(buffer, header.offset_to_global_namespace_variables as u64, header.count_of_global_namespace_variables as u64) {
            Some(v) => v,
            None => return None,
        };
        Self::parse_placed_tables(buffer, header, party_npcs, party_npcs_cres, non_party_npcs, non_party_npcs_cres, global_variables)
    }

    fn to_bytes(&self) -> (b: Vec<u8>) {
        self.original_bytes.clone()
    }
}

} // verus!
