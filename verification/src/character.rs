//! Characters (CHR V2): the character record followed by its creature.
use vstd::prelude::*;

use crate::common::binary::{record_parsed, Codec};
use crate::common::parsers::write_string;
use crate::common::text::{decode_or_empty, utf8_or_empty};
use crate::common::Resref;
use crate::creature::Creature;
use crate::model::Model;
use vstd::utf8::encode_utf8;

verus! {

/// The character record.
/// <https://gibberlings3.github.io/iesdp/file_formats/ie_formats/chr_v2.htm>
#[derive(Debug)]
pub struct BGCharacter {
    /// The first four bytes as UTF-8 text (empty when they are not valid UTF-8).
    pub signature: String,
    /// The next four bytes as UTF-8 text (empty when they are not valid UTF-8).
    pub version: String,
    /// The next 32 bytes as UTF-8 text (empty when they are not valid UTF-8).
    pub name: String,
    pub offset_to_cre_structure: u32,
    pub length_of_the_cre_structure: u32,
    pub index_into_slots_ids_for_quick_weapon_1: u16,
    pub index_into_slots_ids_for_quick_weapon_2: u16,
    pub index_into_slots_ids_for_quick_weapon_3: u16,
    pub index_into_slots_ids_for_quick_weapon_4: u16,
    pub show_quick_weapon_1: u16,
    pub show_quick_weapon_2: u16,
    pub show_quick_weapon_3: u16,
    pub show_quick_weapon_4: u16,
    pub quick_spell_1_resource: Resref,
    pub quick_spell_2_resource: Resref,
    pub quick_spell_3_resource: Resref,
    pub index_into_slot_ids_for_quick_item_1: u16,
    pub index_into_slot_ids_for_quick_item_2: u16,
    pub index_into_slot_ids_for_quick_item_3: u16,
    pub show_quick_item_1: u16,
    pub show_quick_item_2: u16,
    pub show_quick_item_3: u16,
}

impl BGCharacter {
    /// The size of the record.
    pub open spec fn width() -> int {
        100
    }

    /// `self` is the record at the start of `buffer`.
    pub open spec fn parsed_from(&self, buffer: Seq<u8>) -> bool {
        &&& self.signature@ == utf8_or_empty(buffer.subrange(0, 4))
        &&& self.version@ == utf8_or_empty(buffer.subrange(4, 8))
        &&& self.name@ == utf8_or_empty(buffer.subrange(8, 40))
        &&& record_parsed(self.offset_to_cre_structure, buffer, 40)
        &&& record_parsed(self.length_of_the_cre_structure, buffer, 44)
        &&& record_parsed(self.index_into_slots_ids_for_quick_weapon_1, buffer, 48)
        &&& record_parsed(self.index_into_slots_ids_for_quick_weapon_2, buffer, 50)
        &&& record_parsed(self.index_into_slots_ids_for_quick_weapon_3, buffer, 52)
        &&& record_parsed(self.index_into_slots_ids_for_quick_weapon_4, buffer, 54)
        &&& record_parsed(self.show_quick_weapon_1, buffer, 56)
        &&& record_parsed(self.show_quick_weapon_2, buffer, 58)
        &&& record_parsed(self.show_quick_weapon_3, buffer, 60)
        &&& record_parsed(self.show_quick_weapon_4, buffer, 62)
        &&& record_parsed(self.quick_spell_1_resource, buffer, 64)
        &&& record_parsed(self.quick_spell_2_resource, buffer, 72)
        &&& record_parsed(self.quick_spell_3_resource, buffer, 80)
        &&& record_parsed(self.index_into_slot_ids_for_quick_item_1, buffer, 88)
        &&& record_parsed(self.index_into_slot_ids_for_quick_item_2, buffer, 90)
        &&& record_parsed(self.index_into_slot_ids_for_quick_item_3, buffer, 92)
        &&& record_parsed(self.show_quick_item_1, buffer, 94)
        &&& record_parsed(self.show_quick_item_2, buffer, 96)
        &&& record_parsed(self.show_quick_item_3, buffer, 98)
    }

    /// The encodings of the fields after the texts, in order.
    pub open spec fn numbers_enc(&self) -> Seq<u8> {
        self.offset_to_cre_structure.enc() + self.length_of_the_cre_structure.enc() + self.index_into_slots_ids_for_quick_weapon_1.enc() + self.index_into_slots_ids_for_quick_weapon_2.enc() + self.index_into_slots_ids_for_quick_weapon_3.enc() + self.index_into_slots_ids_for_quick_weapon_4.enc() + self.show_quick_weapon_1.enc() + self.show_quick_weapon_2.enc() + self.show_quick_weapon_3.enc() + self.show_quick_weapon_4.enc() + self.quick_spell_1_resource.enc() + self.quick_spell_2_resource.enc() + self.quick_spell_3_resource.enc() + self.index_into_slot_ids_for_quick_item_1.enc() + self.index_into_slot_ids_for_quick_item_2.enc() + self.index_into_slot_ids_for_quick_item_3.enc() + self.show_quick_item_1.enc() + self.show_quick_item_2.enc() + self.show_quick_item_3.enc()
    }

    /// The bytes the record is written as: the UTF-8 bytes of the three
    /// texts, as long as they are, then the other fields.
    pub open spec fn spec_bytes(&self) -> Seq<u8> {
        encode_utf8(self.signature@) + encode_utf8(self.version@) + encode_utf8(self.name@) + self.numbers_enc()
    }

    /// Reads the record at the start of `buffer`, which must hold it.
    pub fn read(buffer: &[u8]) -> (c: BGCharacter)
        requires
            BGCharacter::width() <= buffer@.len(),
        ensures
            c.parsed_from(buffer@),
    {
        let signature = decode_or_empty(vstd::slice::slice_subrange(buffer, 0, 4));
        let version = decode_or_empty(vstd::slice::slice_subrange(buffer, 4, 8));
        let name = decode_or_empty(vstd::slice::slice_subrange(buffer, 8, 40));
        let offset_to_cre_structure = <u32 as Codec>::decode(buffer, 40);
        let length_of_the_cre_structure = <u32 as Codec>::decode(buffer, 44);
        let index_into_slots_ids_for_quick_weapon_1 = <u16 as Codec>::decode(buffer, 48);
        let index_into_slots_ids_for_quick_weapon_2 = <u16 as Codec>::decode(buffer, 50);
        let index_into_slots_ids_for_quick_weapon_3 = <u16 as Codec>::decode(buffer, 52);
        let index_into_slots_ids_for_quick_weapon_4 = <u16 as Codec>::decode(buffer, 54);
        let show_quick_weapon_1 = <u16 as Codec>::decode(buffer, 56);
        let show_quick_weapon_2 = <u16 as Codec>::decode(buffer, 58);
        let show_quick_weapon_3 = <u16 as Codec>::decode(buffer, 60);
        let show_quick_weapon_4 = <u16 as Codec>::decode(buffer, 62);
        let quick_spell_1_resource = <Resref as Codec>::decode(buffer, 64);
        let quick_spell_2_resource = <Resref as Codec>::decode(buffer, 72);
        let quick_spell_3_resource = <Resref as Codec>::decode(buffer, 80);
        let index_into_slot_ids_for_quick_item_1 = <u16 as Codec>::decode(buffer, 88);
        let index_into_slot_ids_for_quick_item_2 = <u16 as Codec>::decode(buffer, 90);
        let index_into_slot_ids_for_quick_item_3 = <u16 as Codec>::decode(buffer, 92);
        let show_quick_item_1 = <u16 as Codec>::decode(buffer, 94);
        let show_quick_item_2 = <u16 as Codec>::decode(buffer, 96);
        let show_quick_item_3 = <u16 as Codec>::decode(buffer, 98);
        BGCharacter { signature, version, name, offset_to_cre_structure, length_of_the_cre_structure, index_into_slots_ids_for_quick_weapon_1, index_into_slots_ids_for_quick_weapon_2, index_into_slots_ids_for_quick_weapon_3, index_into_slots_ids_for_quick_weapon_4, show_quick_weapon_1, show_quick_weapon_2, show_quick_weapon_3, show_quick_weapon_4, quick_spell_1_resource, quick_spell_2_resource, quick_spell_3_resource, index_into_slot_ids_for_quick_item_1, index_into_slot_ids_for_quick_item_2, index_into_slot_ids_for_quick_item_3, show_quick_item_1, show_quick_item_2, show_quick_item_3 }
    }

    /// Appends the encodings of the fields after the texts.
    #[verifier::rlimit(50)]
    fn write_numbers(&self, out: &mut Vec<u8>)
        ensures
            final(out)@ == old(out)@ + self.numbers_enc(),
    {
        let ghost start = out@;
        self.offset_to_cre_structure.encode(out);
        self.length_of_the_cre_structure.encode(out);
        self.index_into_slots_ids_for_quick_weapon_1.encode(out);
        self.index_into_slots_ids_for_quick_weapon_2.encode(out);
        self.index_into_slots_ids_for_quick_weapon_3.encode(out);
        self.index_into_slots_ids_for_quick_weapon_4.encode(out);
        self.show_quick_weapon_1.encode(out);
        self.show_quick_weapon_2.encode(out);
        self.show_quick_weapon_3.encode(out);
        self.show_quick_weapon_4.encode(out);
        self.quick_spell_1_resource.encode(out);
        self.quick_spell_2_resource.encode(out);
        self.quick_spell_3_resource.encode(out);
        self.index_into_slot_ids_for_quick_item_1.encode(out);
        self.index_into_slot_ids_for_quick_item_2.encode(out);
        self.index_into_slot_ids_for_quick_item_3.encode(out);
        self.show_quick_item_1.encode(out);
        self.show_quick_item_2.encode(out);
        self.show_quick_item_3.encode(out);
        assert(out@ =~= start + self.numbers_enc());
    }

    /// Appends the record's bytes.
    pub fn write_to(&self, out: &mut Vec<u8>)
        ensures
            final(out)@ == old(out)@ + self.spec_bytes(),
    {
        let ghost start = out@;
        write_string(&self.signature, out);
        write_string(&self.version, out);
        write_string(&self.name, out);
        self.write_numbers(out);
        assert(out@ =~= start + self.spec_bytes());
    }
}

/// A character: the character record, then the creature that starts right
/// after it.
#[derive(Debug)]
pub struct ExpandedCharacter {
    pub character: BGCharacter,
    pub creature: Creature,
}

impl Model for ExpandedCharacter {
    open spec fn spec_parses(buffer: Seq<u8>) -> bool {
        &&& BGCharacter::width() <= buffer.len()
        &&& Creature::parses_at(buffer, BGCharacter::width())
    }

    open spec fn parsed_from(&self, buffer: Seq<u8>) -> bool {
        &&& self.character.parsed_from(buffer)
        &&& self.creature.parsed_at(buffer, BGCharacter::width())
    }

    open spec fn spec_writable(&self) -> bool {
        true
    }

    fn writable(&self) -> (b: bool) {
        true
    }

    open spec fn spec_bytes(&self) -> Seq<u8> {
        self.character.spec_bytes() + self.creature.written()
    }

    fn parse(buffer: &[u8]) -> (r: Option<Self>) {
        if buffer.len() < 100 {
            return None;
        }
        let character = BGCharacter::read(buffer);
        match Creature::parse_at(buffer, 100) {
            Some(creature) => Some(ExpandedCharacter { character, creature }),
            None => None,
        }
    }

    fn to_bytes(&self) -> (b: Vec<u8>) {
        let mut out: Vec<u8> = Vec::new();
        self.character.write_to(&mut out);
        self.creature.write_to(&mut out);
        assert(out@ =~= self.spec_bytes());
        out
    }
}

} // verus!
