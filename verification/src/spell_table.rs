//! The spell tables of a creature.
use vstd::prelude::*;

use crate::common::binary::{Codec, lemma_subrange_concat, lemma_concat_peel, encoded};
use crate::common::Resref;

verus! {

/// https://gibberlings3.github.io/iesdp/file_formats/ie_formats/cre_v1.htm#CREV1_0_KnownSpell
#[derive(Debug, Clone, PartialEq)]
pub struct KnownSpells {
    pub spell_name: Resref,
    pub spell_level: u16,
    pub spell_type: u16,
}

impl KnownSpells {
    /// Encoding of the fields 0 to 2, in order.
    pub open spec fn bytes_0_3(&self) -> Seq<u8> {
        self.spell_name.enc() + self.bytes_1_3()
    }

    /// Encoding of the fields 1 to 2, in order.
    pub open spec fn bytes_1_3(&self) -> Seq<u8> {
        self.spell_level.enc() + self.spell_type.enc()
    }
}

impl Codec for KnownSpells {
    open spec fn width() -> nat {
        12
    }

    open spec fn enc(&self) -> Seq<u8> {
        self.bytes_0_3()
    }

    open spec fn wf(&self) -> bool {
        true
    }

    open spec fn same(&self, other: &Self) -> bool {
        &&& self.spell_name.same(&other.spell_name)
        &&& self.spell_level == other.spell_level
        &&& self.spell_type == other.spell_type
    }

    fn byte_width() -> (n: usize) {
        12
    }

    fn check_wf(&self) -> (b: bool) {
        true
    }

    proof fn lemma_enc_len(&self) {
        self.spell_name.lemma_enc_len();
        self.spell_level.lemma_enc_len();
        self.spell_type.lemma_enc_len();
    }

    proof fn lemma_enc_injective(&self, other: &Self) {
        self.spell_name.lemma_enc_len();
        self.spell_level.lemma_enc_len();
        self.spell_type.lemma_enc_len();
        other.spell_name.lemma_enc_len();
        other.spell_level.lemma_enc_len();
        other.spell_type.lemma_enc_len();
        lemma_concat_peel(self.spell_name.enc(), self.bytes_1_3(), other.spell_name.enc(), other.bytes_1_3());
        lemma_concat_peel(self.spell_level.enc(), self.spell_type.enc(), other.spell_level.enc(), other.spell_type.enc());
        self.spell_name.lemma_enc_injective(&other.spell_name);
        self.spell_level.lemma_enc_injective(&other.spell_level);
        self.spell_type.lemma_enc_injective(&other.spell_type);
    }

    fn decode(buf: &[u8], pos: usize) -> (v: Self) {
        let len = buf.len();
        let fld0 = Resref::decode(buf, pos + 0);
        let fld1 = u16::decode(buf, pos + 8);
        let fld2 = u16::decode(buf, pos + 10);
        let v = KnownSpells {
            spell_name: fld0,
            spell_level: fld1,
            spell_type: fld2,
        };
        proof {
            lemma_subrange_concat(buf@, pos + 0, pos + 8, pos + 12);
            lemma_subrange_concat(buf@, pos + 8, pos + 10, pos + 12);
        }
        v
    }

    fn encode(&self, out: &mut Vec<u8>) {
        let mut b0 = encoded(&self.spell_name);
        let mut b1 = encoded(&self.spell_level);
        let mut b2 = encoded(&self.spell_type);
        b1.append(&mut b2);
        b0.append(&mut b1);
        out.append(&mut b0);
    }
}

/// https://gibberlings3.github.io/iesdp/file_formats/ie_formats/cre_v1.htm#CREV1_0_MemSpellInfo
#[derive(Debug, Clone, PartialEq)]
pub struct SpellMemorizationInfo {
    pub spell_level: u16,
    pub number_of_spells_memorizable: u16,
    pub number_of_spells_memorizable_after_effects: u16,
    pub spell_type: u16,
    pub index_to_spell_table: u32,
    pub count_of_memorizable_spell_tables: u32,
}

impl SpellMemorizationInfo {
    /// Encoding of the fields 0 to 5, in order.
    pub open spec fn bytes_0_6(&self) -> Seq<u8> {
        self.bytes_0_3() + self.bytes_3_6()
    }

    /// Encoding of the fields 0 to 2, in order.
    pub open spec fn bytes_0_3(&self) -> Seq<u8> {
        self.spell_level.enc() + self.bytes_1_3()
    }

    /// Encoding of the fields 1 to 2, in order.
    pub open spec fn bytes_1_3(&self) -> Seq<u8> {
        self.number_of_spells_memorizable.enc() + self.number_of_spells_memorizable_after_effects.enc()
    }

    /// Encoding of the fields 3 to 5, in order.
    pub open spec fn bytes_3_6(&self) -> Seq<u8> {
        self.spell_type.enc() + self.bytes_4_6()
    }

    /// Encoding of the fields 4 to 5, in order.
    pub open spec fn bytes_4_6(&self) -> Seq<u8> {
        self.index_to_spell_table.enc() + self.count_of_memorizable_spell_tables.enc()
    }
}

impl Codec for SpellMemorizationInfo {
    open spec fn width() -> nat {
        16
    }

    open spec fn enc(&self) -> Seq<u8> {
        self.bytes_0_6()
    }

    open spec fn wf(&self) -> bool {
        true
    }

    open spec fn same(&self, other: &Self) -> bool {
        &&& self.spell_level == other.spell_level
        &&& self.number_of_spells_memorizable == other.number_of_spells_memorizable
        &&& self.number_of_spells_memorizable_after_effects == other.number_of_spells_memorizable_after_effects
        &&& self.spell_type == other.spell_type
        &&& self.index_to_spell_table == other.index_to_spell_table
        &&& self.count_of_memorizable_spell_tables == other.count_of_memorizable_spell_tables
    }

    fn byte_width() -> (n: usize) {
        16
    }

    fn check_wf(&self) -> (b: bool) {
        true
    }

    proof fn lemma_enc_len(&self) {
        self.spell_level.lemma_enc_len();
        self.number_of_spells_memorizable.lemma_enc_len();
        self.number_of_spells_memorizable_after_effects.lemma_enc_len();
        self.spell_type.lemma_enc_len();
        self.index_to_spell_table.lemma_enc_len();
        self.count_of_memorizable_spell_tables.lemma_enc_len();
    }

    proof fn lemma_enc_injective(&self, other: &Self) {
        self.spell_level.lemma_enc_len();
        self.number_of_spells_memorizable.lemma_enc_len();
        self.number_of_spells_memorizable_after_effects.lemma_enc_len();
        self.spell_type.lemma_enc_len();
        self.index_to_spell_table.lemma_enc_len();
        self.count_of_memorizable_spell_tables.lemma_enc_len();
        other.spell_level.lemma_enc_len();
        other.number_of_spells_memorizable.lemma_enc_len();
        other.number_of_spells_memorizable_after_effects.lemma_enc_len();
        other.spell_type.lemma_enc_len();
        other.index_to_spell_table.lemma_enc_len();
        other.count_of_memorizable_spell_tables.lemma_enc_len();
        lemma_concat_peel(self.bytes_0_3(), self.bytes_3_6(), other.bytes_0_3(), other.bytes_3_6());
        lemma_concat_peel(self.spell_level.enc(), self.bytes_1_3(), other.spell_level.enc(), other.bytes_1_3());
        lemma_concat_peel(self.number_of_spells_memorizable.enc(), self.number_of_spells_memorizable_after_effects.enc(), other.number_of_spells_memorizable.enc(), other.number_of_spells_memorizable_after_effects.enc());
        lemma_concat_peel(self.spell_type.enc(), self.bytes_4_6(), other.spell_type.enc(), other.bytes_4_6());
        lemma_concat_peel(self.index_to_spell_table.enc(), self.count_of_memorizable_spell_tables.enc(), other.index_to_spell_table.enc(), other.count_of_memorizable_spell_tables.enc());
        self.spell_level.lemma_enc_injective(&other.spell_level);
        self.number_of_spells_memorizable.lemma_enc_injective(&other.number_of_spells_memorizable);
        self.number_of_spells_memorizable_after_effects.lemma_enc_injective(&other.number_of_spells_memorizable_after_effects);
        self.spell_type.lemma_enc_injective(&other.spell_type);
        self.index_to_spell_table.lemma_enc_injective(&other.index_to_spell_table);
        self.count_of_memorizable_spell_tables.lemma_enc_injective(&other.count_of_memorizable_spell_tables);
    }

    fn decode(buf: &[u8], pos: usize) -> (v: Self) {
        let len = buf.len();
        let fld0 = u16::decode(buf, pos + 0);
        let fld1 = u16::decode(buf, pos + 2);
        let fld2 = u16::decode(buf, pos + 4);
        let fld3 = u16::decode(buf, pos + 6);
        let fld4 = u32::decode(buf, pos + 8);
        let fld5 = u32::decode(buf, pos + 12);
        let v = SpellMemorizationInfo {
            spell_level: fld0,
            number_of_spells_memorizable: fld1,
            number_of_spells_memorizable_after_effects: fld2,
            spell_type: fld3,
            index_to_spell_table: fld4,
            count_of_memorizable_spell_tables: fld5,
        };
        proof {
            lemma_subrange_concat(buf@, pos + 0, pos + 6, pos + 16);
            lemma_subrange_concat(buf@, pos + 0, pos + 2, pos + 6);
            lemma_subrange_concat(buf@, pos + 2, pos + 4, pos + 6);
            lemma_subrange_concat(buf@, pos + 6, pos + 8, pos + 16);
            lemma_subrange_concat(buf@, pos + 8, pos + 12, pos + 16);
        }
        v
    }

    fn encode(&self, out: &mut Vec<u8>) {
        let mut b0 = encoded(&self.spell_level);
        let mut b1 = encoded(&self.number_of_spells_memorizable);
        let mut b2 = encoded(&self.number_of_spells_memorizable_after_effects);
        let mut b3 = encoded(&self.spell_type);
        let mut b4 = encoded(&self.index_to_spell_table);
        let mut b5 = encoded(&self.count_of_memorizable_spell_tables);
        b4.append(&mut b5);
        b3.append(&mut b4);
        b1.append(&mut b2);
        b0.append(&mut b1);
        b0.append(&mut b3);
        out.append(&mut b0);
    }
}

/// https://gibberlings3.github.io/iesdp/file_formats/ie_formats/cre_v1.htm#CREV1_0_MemSpell
#[derive(Debug, Clone, PartialEq)]
pub struct SpellMemorizationTable {
    pub spell_name: Resref,
    pub memorised: u32,
}

impl SpellMemorizationTable {
    /// Encoding of the fields 0 to 1, in order.
    pub open spec fn bytes_0_2(&self) -> Seq<u8> {
        self.spell_name.enc() + self.memorised.enc()
    }
}

impl Codec for SpellMemorizationTable {
    open spec fn width() -> nat {
        12
    }

    open spec fn enc(&self) -> Seq<u8> {
        self.bytes_0_2()
    }

    open spec fn wf(&self) -> bool {
        true
    }

    open spec fn same(&self, other: &Self) -> bool {
        &&& self.spell_name.same(&other.spell_name)
        &&& self.memorised == other.memorised
    }

    fn byte_width() -> (n: usize) {
        12
    }

    fn check_wf(&self) -> (b: bool) {
        true
    }

    proof fn lemma_enc_len(&self) {
        self.spell_name.lemma_enc_len();
        self.memorised.lemma_enc_len();
    }

    proof fn lemma_enc_injective(&self, other: &Self) {
        self.spell_name.lemma_enc_len();
        self.memorised.lemma_enc_len();
        other.spell_name.lemma_enc_len();
        other.memorised.lemma_enc_len();
        lemma_concat_peel(self.spell_name.enc(), self.memorised.enc(), other.spell_name.enc(), other.memorised.enc());
        self.spell_name.lemma_enc_injective(&other.spell_name);
        self.memorised.lemma_enc_injective(&other.memorised);
    }

    fn decode(buf: &[u8], pos: usize) -> (v: Self) {
        let len = buf.len();
        let fld0 = Resref::decode(buf, pos + 0);
        let fld1 = u32::decode(buf, pos + 8);
        let v = SpellMemorizationTable {
            spell_name: fld0,
            memorised: fld1,
        };
        proof {
            lemma_subrange_concat(buf@, pos + 0, pos + 8, pos + 12);
        }
        v
    }

    fn encode(&self, out: &mut Vec<u8>) {
        let mut b0 = encoded(&self.spell_name);
        let mut b1 = encoded(&self.memorised);
        b0.append(&mut b1);
        out.append(&mut b0);
    }
}

} // verus!
