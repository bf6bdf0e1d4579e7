//! Stores (STO V1.0).
use vstd::prelude::*;

use crate::common::binary::{Codec, check_all_wf, enc_seq, all_wf, seq_same, lemma_subrange_concat, lemma_concat_peel, lemma_enc_seq_len, lemma_enc_seq_injective, decode_vec, encoded, encoded_slice, encode_slice, decoded_at, lemma_decoded_at, record_parsed, section_parsed, read_at, read_section, section_ok};
use crate::common::char_array::CharArray;
use crate::common::strref::Strref;
use crate::common::Resref;
use crate::model::Model;

verus! {

/// https://gibberlings3.github.io/iesdp/file_formats/ie_formats/sto_v1.htm#storv1_0_Header
#[derive(Debug, Clone, PartialEq)]
pub struct StoreHeader {
    pub signature: CharArray<4>,
    pub version: CharArray<4>,
    /// (0=Store, 1=Tavern, 2=Inn, 3=Temple, 5=Container)
    pub store_type: u32,
    pub name: Strref,
    pub flags: u32,
    pub sell_price_markup: u32,
    pub buy_price_markup: u32,
    pub depreciation_rate: u32,
    pub chance_of_steal_failure: u16,
    pub capacity: u16,
    pub _unknown1: Vec<u8>,
    pub offset_to_items_purchased_section: u32,
    pub count_of_items_in_items_purchased_section: u32,
    pub offset_to_items_for_sale_section: u32,
    pub count_of_items_for_sale_section: u32,
    pub lore: u32,
    pub id_price: u32,
    pub rumours_tavern: Resref,
    pub offset_to_drinks_section: u32,
    pub count_of_drinks_section: u32,
    pub rumours_temple: Resref,
    pub room_flags: u32,
    pub price_of_a_peasant_room: u32,
    pub price_of_a_merchant_room: u32,
    pub price_of_a_noble_room: u32,
    pub price_of_a_royal_room: u32,
    pub offset_to_cures_section: u32,
    pub count_of_cures_section: u32,
    pub _unknown2: Vec<u8>,
}

impl StoreHeader {
    /// Encoding of the fields 0 to 28, in order.
    pub open spec fn bytes_0_29(&self) -> Seq<u8> {
        self.bytes_0_14() + self.bytes_14_29()
    }

    /// Encoding of the fields 0 to 13, in order.
    pub open spec fn bytes_0_14(&self) -> Seq<u8> {
        self.bytes_0_7() + self.bytes_7_14()
    }

    /// Encoding of the fields 0 to 6, in order.
    pub open spec fn bytes_0_7(&self) -> Seq<u8> {
        self.bytes_0_3() + self.bytes_3_7()
    }

    /// Encoding of the fields 0 to 2, in order.
    pub open spec fn bytes_0_3(&self) -> Seq<u8> {
        self.signature.enc() + self.bytes_1_3()
    }

    /// Encoding of the fields 1 to 2, in order.
    pub open spec fn bytes_1_3(&self) -> Seq<u8> {
        self.version.enc() + self.store_type.enc()
    }

    /// Encoding of the fields 3 to 6, in order.
    pub open spec fn bytes_3_7(&self) -> Seq<u8> {
        self.bytes_3_5() + self.bytes_5_7()
    }

    /// Encoding of the fields 3 to 4, in order.
    pub open spec fn bytes_3_5(&self) -> Seq<u8> {
        self.name.enc() + self.flags.enc()
    }

    /// Encoding of the fields 5 to 6, in order.
    pub open spec fn bytes_5_7(&self) -> Seq<u8> {
        self.sell_price_markup.enc() + self.buy_price_markup.enc()
    }

    /// Encoding of the fields 7 to 13, in order.
    pub open spec fn bytes_7_14(&self) -> Seq<u8> {
        self.bytes_7_10() + self.bytes_10_14()
    }

    /// Encoding of the fields 7 to 9, in order.
    pub open spec fn bytes_7_10(&self) -> Seq<u8> {
        self.depreciation_rate.enc() + self.bytes_8_10()
    }

    /// Encoding of the fields 8 to 9, in order.
    pub open spec fn bytes_8_10(&self) -> Seq<u8> {
        self.chance_of_steal_failure.enc() + self.capacity.enc()
    }

    /// Encoding of the fields 10 to 13, in order.
    pub open spec fn bytes_10_14(&self) -> Seq<u8> {
        self.bytes_10_12() + self.bytes_12_14()
    }

    /// Encoding of the fields 10 to 11, in order.
    pub open spec fn bytes_10_12(&self) -> Seq<u8> {
        enc_seq(self._unknown1@) + self.offset_to_items_purchased_section.enc()
    }

    /// Encoding of the fields 12 to 13, in order.
    pub open spec fn bytes_12_14(&self) -> Seq<u8> {
        self.count_of_items_in_items_purchased_section.enc() + self.offset_to_items_for_sale_section.enc()
    }

    /// Encoding of the fields 14 to 28, in order.
    pub open spec fn bytes_14_29(&self) -> Seq<u8> {
        self.bytes_14_21() + self.bytes_21_29()
    }

    /// Encoding of the fields 14 to 20, in order.
    pub open spec fn bytes_14_21(&self) -> Seq<u8> {
        self.bytes_14_17() + self.bytes_17_21()
    }

    /// Encoding of the fields 14 to 16, in order.
    pub open spec fn bytes_14_17(&self) -> Seq<u8> {
        self.count_of_items_for_sale_section.enc() + self.bytes_15_17()
    }

    /// Encoding of the fields 15 to 16, in order.
    pub open spec fn bytes_15_17(&self) -> Seq<u8> {
        self.lore.enc() + self.id_price.enc()
    }

    /// Encoding of the fields 17 to 20, in order.
    pub open spec fn bytes_17_21(&self) -> Seq<u8> {
        self.bytes_17_19() + self.bytes_19_21()
    }

    /// Encoding of the fields 17 to 18, in order.
    pub open spec fn bytes_17_19(&self) -> Seq<u8> {
        self.rumours_tavern.enc() + self.offset_to_drinks_section.enc()
    }

    /// Encoding of the fields 19 to 20, in order.
    pub open spec fn bytes_19_21(&self) -> Seq<u8> {
        self.count_of_drinks_section.enc() + self.rumours_temple.enc()
    }

    /// Encoding of the fields 21 to 28, in order.
    pub open spec fn bytes_21_29(&self) -> Seq<u8> {
        self.bytes_21_25() + self.bytes_25_29()
    }

    /// Encoding of the fields 21 to 24, in order.
    pub open spec fn bytes_21_25(&self) -> Seq<u8> {
        self.bytes_21_23() + self.bytes_23_25()
    }

    /// Encoding of the fields 21 to 22, in order.
    pub open spec fn bytes_21_23(&self) -> Seq<u8> {
        self.room_flags.enc() + self.price_of_a_peasant_room.enc()
    }

    /// Encoding of the fields 23 to 24, in order.
    pub open spec fn bytes_23_25(&self) -> Seq<u8> {
        self.price_of_a_merchant_room.enc() + self.price_of_a_noble_room.enc()
    }

    /// Encoding of the fields 25 to 28, in order.
    pub open spec fn bytes_25_29(&self) -> Seq<u8> {
        self.bytes_25_27() + self.bytes_27_29()
    }

    /// Encoding of the fields 25 to 26, in order.
    pub open spec fn bytes_25_27(&self) -> Seq<u8> {
        self.price_of_a_royal_room.enc() + self.offset_to_cures_section.enc()
    }

    /// Encoding of the fields 27 to 28, in order.
    pub open spec fn bytes_27_29(&self) -> Seq<u8> {
        self.count_of_cures_section.enc() + enc_seq(self._unknown2@)
    }
}

impl Codec for StoreHeader {
    open spec fn width() -> nat {
        156
    }

    open spec fn enc(&self) -> Seq<u8> {
        self.bytes_0_29()
    }

    open spec fn wf(&self) -> bool {
        &&& self._unknown1@.len() == 8
        &&& all_wf(self._unknown1@)
        &&& self._unknown2@.len() == 36
        &&& all_wf(self._unknown2@)
    }

    open spec fn same(&self, other: &Self) -> bool {
        &&& self.signature.same(&other.signature)
        &&& self.version.same(&other.version)
        &&& self.store_type == other.store_type
        &&& self.name.same(&other.name)
        &&& self.flags == other.flags
        &&& self.sell_price_markup == other.sell_price_markup
        &&& self.buy_price_markup == other.buy_price_markup
        &&& self.depreciation_rate == other.depreciation_rate
        &&& self.chance_of_steal_failure == other.chance_of_steal_failure
        &&& self.capacity == other.capacity
        &&& seq_same(self._unknown1@, other._unknown1@)
        &&& self.offset_to_items_purchased_section == other.offset_to_items_purchased_section
        &&& self.count_of_items_in_items_purchased_section == other.count_of_items_in_items_purchased_section
        &&& self.offset_to_items_for_sale_section == other.offset_to_items_for_sale_section
        &&& self.count_of_items_for_sale_section == other.count_of_items_for_sale_section
        &&& self.lore == other.lore
        &&& self.id_price == other.id_price
        &&& self.rumours_tavern.same(&other.rumours_tavern)
        &&& self.offset_to_drinks_section == other.offset_to_drinks_section
        &&& self.count_of_drinks_section == other.count_of_drinks_section
        &&& self.rumours_temple.same(&other.rumours_temple)
        &&& self.room_flags == other.room_flags
        &&& self.price_of_a_peasant_room == other.price_of_a_peasant_room
        &&& self.price_of_a_merchant_room == other.price_of_a_merchant_room
        &&& self.price_of_a_noble_room == other.price_of_a_noble_room
        &&& self.price_of_a_royal_room == other.price_of_a_royal_room
        &&& self.offset_to_cures_section == other.offset_to_cures_section
        &&& self.count_of_cures_section == other.count_of_cures_section
        &&& seq_same(self._unknown2@, other._unknown2@)
    }

    fn byte_width() -> (n: usize) {
        156
    }

    fn check_wf(&self) -> (b: bool) {
        self._unknown1.len() == 8 && check_all_wf(self._unknown1.as_slice()) && self._unknown2.len() == 36 && check_all_wf(self._unknown2.as_slice())
    }

    proof fn lemma_enc_len(&self) {
        self.signature.lemma_enc_len();
        self.version.lemma_enc_len();
        self.store_type.lemma_enc_len();
        self.name.lemma_enc_len();
        self.flags.lemma_enc_len();
        self.sell_price_markup.lemma_enc_len();
        self.buy_price_markup.lemma_enc_len();
        self.depreciation_rate.lemma_enc_len();
        self.chance_of_steal_failure.lemma_enc_len();
        self.capacity.lemma_enc_len();
        lemma_enc_seq_len(self._unknown1@);
        self.offset_to_items_purchased_section.lemma_enc_len();
        self.count_of_items_in_items_purchased_section.lemma_enc_len();
        self.offset_to_items_for_sale_section.lemma_enc_len();
        self.count_of_items_for_sale_section.lemma_enc_len();
        self.lore.lemma_enc_len();
        self.id_price.lemma_enc_len();
        self.rumours_tavern.lemma_enc_len();
        self.offset_to_drinks_section.lemma_enc_len();
        self.count_of_drinks_section.lemma_enc_len();
        self.rumours_temple.lemma_enc_len();
        self.room_flags.lemma_enc_len();
        self.price_of_a_peasant_room.lemma_enc_len();
        self.price_of_a_merchant_room.lemma_enc_len();
        self.price_of_a_noble_room.lemma_enc_len();
        self.price_of_a_royal_room.lemma_enc_len();
        self.offset_to_cures_section.lemma_enc_len();
        self.count_of_cures_section.lemma_enc_len();
        lemma_enc_seq_len(self._unknown2@);
    }

    proof fn lemma_enc_injective(&self, other: &Self) {
        self.signature.lemma_enc_len();
        self.version.lemma_enc_len();
        self.store_type.lemma_enc_len();
        self.name.lemma_enc_len();
        self.flags.lemma_enc_len();
        self.sell_price_markup.lemma_enc_len();
        self.buy_price_markup.lemma_enc_len();
        self.depreciation_rate.lemma_enc_len();
        self.chance_of_steal_failure.lemma_enc_len();
        self.capacity.lemma_enc_len();
        lemma_enc_seq_len(self._unknown1@);
        self.offset_to_items_purchased_section.lemma_enc_len();
        self.count_of_items_in_items_purchased_section.lemma_enc_len();
        self.offset_to_items_for_sale_section.lemma_enc_len();
        self.count_of_items_for_sale_section.lemma_enc_len();
        self.lore.lemma_enc_len();
        self.id_price.lemma_enc_len();
        self.rumours_tavern.lemma_enc_len();
        self.offset_to_drinks_section.lemma_enc_len();
        self.count_of_drinks_section.lemma_enc_len();
        self.rumours_temple.lemma_enc_len();
        self.room_flags.lemma_enc_len();
        self.price_of_a_peasant_room.lemma_enc_len();
        self.price_of_a_merchant_room.lemma_enc_len();
        self.price_of_a_noble_room.lemma_enc_len();
        self.price_of_a_royal_room.lemma_enc_len();
        self.offset_to_cures_section.lemma_enc_len();
        self.count_of_cures_section.lemma_enc_len();
        lemma_enc_seq_len(self._unknown2@);
        other.signature.lemma_enc_len();
        other.version.lemma_enc_len();
        other.store_type.lemma_enc_len();
        other.name.lemma_enc_len();
        other.flags.lemma_enc_len();
        other.sell_price_markup.lemma_enc_len();
        other.buy_price_markup.lemma_enc_len();
        other.depreciation_rate.lemma_enc_len();
        other.chance_of_steal_failure.lemma_enc_len();
        other.capacity.lemma_enc_len();
        lemma_enc_seq_len(other._unknown1@);
        other.offset_to_items_purchased_section.lemma_enc_len();
        other.count_of_items_in_items_purchased_section.lemma_enc_len();
        other.offset_to_items_for_sale_section.lemma_enc_len();
        other.count_of_items_for_sale_section.lemma_enc_len();
        other.lore.lemma_enc_len();
        other.id_price.lemma_enc_len();
        other.rumours_tavern.lemma_enc_len();
        other.offset_to_drinks_section.lemma_enc_len();
        other.count_of_drinks_section.lemma_enc_len();
        other.rumours_temple.lemma_enc_len();
        other.room_flags.lemma_enc_len();
        other.price_of_a_peasant_room.lemma_enc_len();
        other.price_of_a_merchant_room.lemma_enc_len();
        other.price_of_a_noble_room.lemma_enc_len();
        other.price_of_a_royal_room.lemma_enc_len();
        other.offset_to_cures_section.lemma_enc_len();
        other.count_of_cures_section.lemma_enc_len();
        lemma_enc_seq_len(other._unknown2@);
        lemma_concat_peel(self.bytes_0_14(), self.bytes_14_29(), other.bytes_0_14(), other.bytes_14_29());
        lemma_concat_peel(self.bytes_0_7(), self.bytes_7_14(), other.bytes_0_7(), other.bytes_7_14());
        lemma_concat_peel(self.bytes_0_3(), self.bytes_3_7(), other.bytes_0_3(), other.bytes_3_7());
        lemma_concat_peel(self.signature.enc(), self.bytes_1_3(), other.signature.enc(), other.bytes_1_3());
        lemma_concat_peel(self.version.enc(), self.store_type.enc(), other.version.enc(), other.store_type.enc());
        lemma_concat_peel(self.bytes_3_5(), self.bytes_5_7(), other.bytes_3_5(), other.bytes_5_7());
        lemma_concat_peel(self.name.enc(), self.flags.enc(), other.name.enc(), other.flags.enc());
        lemma_concat_peel(self.sell_price_markup.enc(), self.buy_price_markup.enc(), other.sell_price_markup.enc(), other.buy_price_markup.enc());
        lemma_concat_peel(self.bytes_7_10(), self.bytes_10_14(), other.bytes_7_10(), other.bytes_10_14());
        lemma_concat_peel(self.depreciation_rate.enc(), self.bytes_8_10(), other.depreciation_rate.enc(), other.bytes_8_10());
        lemma_concat_peel(self.chance_of_steal_failure.enc(), self.capacity.enc(), other.chance_of_steal_failure.enc(), other.capacity.enc());
        lemma_concat_peel(self.bytes_10_12(), self.bytes_12_14(), other.bytes_10_12(), other.bytes_12_14());
        lemma_concat_peel(enc_seq(self._unknown1@), self.offset_to_items_purchased_section.enc(), enc_seq(other._unknown1@), other.offset_to_items_purchased_section.enc());
        lemma_concat_peel(self.count_of_items_in_items_purchased_section.enc(), self.offset_to_items_for_sale_section.enc(), other.count_of_items_in_items_purchased_section.enc(), other.offset_to_items_for_sale_section.enc());
        lemma_concat_peel(self.bytes_14_21(), self.bytes_21_29(), other.bytes_14_21(), other.bytes_21_29());
        lemma_concat_peel(self.bytes_14_17(), self.bytes_17_21(), other.bytes_14_17(), other.bytes_17_21());
        lemma_concat_peel(self.count_of_items_for_sale_section.enc(), self.bytes_15_17(), other.count_of_items_for_sale_section.enc(), other.bytes_15_17());
        lemma_concat_peel(self.lore.enc(), self.id_price.enc(), other.lore.enc(), other.id_price.enc());
        lemma_concat_peel(self.bytes_17_19(), self.bytes_19_21(), other.bytes_17_19(), other.bytes_19_21());
        lemma_concat_peel(self.rumours_tavern.enc(), self.offset_to_drinks_section.enc(), other.rumours_tavern.enc(), other.offset_to_drinks_section.enc());
        lemma_concat_peel(self.count_of_drinks_section.enc(), self.rumours_temple.enc(), other.count_of_drinks_section.enc(), other.rumours_temple.enc());
        lemma_concat_peel(self.bytes_21_25(), self.bytes_25_29(), other.bytes_21_25(), other.bytes_25_29());
        lemma_concat_peel(self.bytes_21_23(), self.bytes_23_25(), other.bytes_21_23(), other.bytes_23_25());
        lemma_concat_peel(self.room_flags.enc(), self.price_of_a_peasant_room.enc(), other.room_flags.enc(), other.price_of_a_peasant_room.enc());
        lemma_concat_peel(self.price_of_a_merchant_room.enc(), self.price_of_a_noble_room.enc(), other.price_of_a_merchant_room.enc(), other.price_of_a_noble_room.enc());
        lemma_concat_peel(self.bytes_25_27(), self.bytes_27_29(), other.bytes_25_27(), other.bytes_27_29());
        lemma_concat_peel(self.price_of_a_royal_room.enc(), self.offset_to_cures_section.enc(), other.price_of_a_royal_room.enc(), other.offset_to_cures_section.enc());
        lemma_concat_peel(self.count_of_cures_section.enc(), enc_seq(self._unknown2@), other.count_of_cures_section.enc(), enc_seq(other._unknown2@));
        self.signature.lemma_enc_injective(&other.signature);
        self.version.lemma_enc_injective(&other.version);
        self.store_type.lemma_enc_injective(&other.store_type);
        self.name.lemma_enc_injective(&other.name);
        self.flags.lemma_enc_injective(&other.flags);
        self.sell_price_markup.lemma_enc_injective(&other.sell_price_markup);
        self.buy_price_markup.lemma_enc_injective(&other.buy_price_markup);
        self.depreciation_rate.lemma_enc_injective(&other.depreciation_rate);
        self.chance_of_steal_failure.lemma_enc_injective(&other.chance_of_steal_failure);
        self.capacity.lemma_enc_injective(&other.capacity);
        lemma_enc_seq_injective(self._unknown1@, other._unknown1@);
        self.offset_to_items_purchased_section.lemma_enc_injective(&other.offset_to_items_purchased_section);
        self.count_of_items_in_items_purchased_section.lemma_enc_injective(&other.count_of_items_in_items_purchased_section);
        self.offset_to_items_for_sale_section.lemma_enc_injective(&other.offset_to_items_for_sale_section);
        self.count_of_items_for_sale_section.lemma_enc_injective(&other.count_of_items_for_sale_section);
        self.lore.lemma_enc_injective(&other.lore);
        self.id_price.lemma_enc_injective(&other.id_price);
        self.rumours_tavern.lemma_enc_injective(&other.rumours_tavern);
        self.offset_to_drinks_section.lemma_enc_injective(&other.offset_to_drinks_section);
        self.count_of_drinks_section.lemma_enc_injective(&other.count_of_drinks_section);
        self.rumours_temple.lemma_enc_injective(&other.rumours_temple);
        self.room_flags.lemma_enc_injective(&other.room_flags);
        self.price_of_a_peasant_room.lemma_enc_injective(&other.price_of_a_peasant_room);
        self.price_of_a_merchant_room.lemma_enc_injective(&other.price_of_a_merchant_room);
        self.price_of_a_noble_room.lemma_enc_injective(&other.price_of_a_noble_room);
        self.price_of_a_royal_room.lemma_enc_injective(&other.price_of_a_royal_room);
        self.offset_to_cures_section.lemma_enc_injective(&other.offset_to_cures_section);
        self.count_of_cures_section.lemma_enc_injective(&other.count_of_cures_section);
        lemma_enc_seq_injective(self._unknown2@, other._unknown2@);
    }

    fn decode(buf: &[u8], pos: usize) -> (v: Self) {
        let len = buf.len();
        let fld0 = <CharArray<4>>::decode(buf, pos + 0);
        let fld1 = <CharArray<4>>::decode(buf, pos + 4);
        let fld2 = u32::decode(buf, pos + 8);
        let fld3 = Strref::decode(buf, pos + 12);
        let fld4 = u32::decode(buf, pos + 16);
        let fld5 = u32::decode(buf, pos + 20);
        let fld6 = u32::decode(buf, pos + 24);
        let fld7 = u32::decode(buf, pos + 28);
        let fld8 = u16::decode(buf, pos + 32);
        let fld9 = u16::decode(buf, pos + 34);
        let fld10 = decode_vec::<u8>(buf, pos + 36, 8);
        let fld11 = u32::decode(buf, pos + 44);
        let fld12 = u32::decode(buf, pos + 48);
        let fld13 = u32::decode(buf, pos + 52);
        let fld14 = u32::decode(buf, pos + 56);
        let fld15 = u32::decode(buf, pos + 60);
        let fld16 = u32::decode(buf, pos + 64);
        let fld17 = Resref::decode(buf, pos + 68);
        let fld18 = u32::decode(buf, pos + 76);
        let fld19 = u32::decode(buf, pos + 80);
        let fld20 = Resref::decode(buf, pos + 84);
        let fld21 = u32::decode(buf, pos + 92);
        let fld22 = u32::decode(buf, pos + 96);
        let fld23 = u32::decode(buf, pos + 100);
        let fld24 = u32::decode(buf, pos + 104);
        let fld25 = u32::decode(buf, pos + 108);
        let fld26 = u32::decode(buf, pos + 112);
        let fld27 = u32::decode(buf, pos + 116);
        let fld28 = decode_vec::<u8>(buf, pos + 120, 36);
        let v = StoreHeader {
            signature: fld0,
            version: fld1,
            store_type: fld2,
            name: fld3,
            flags: fld4,
            sell_price_markup: fld5,
            buy_price_markup: fld6,
            depreciation_rate: fld7,
            chance_of_steal_failure: fld8,
            capacity: fld9,
            _unknown1: fld10,
            offset_to_items_purchased_section: fld11,
            count_of_items_in_items_purchased_section: fld12,
            offset_to_items_for_sale_section: fld13,
            count_of_items_for_sale_section: fld14,
            lore: fld15,
            id_price: fld16,
            rumours_tavern: fld17,
            offset_to_drinks_section: fld18,
            count_of_drinks_section: fld19,
            rumours_temple: fld20,
            room_flags: fld21,
            price_of_a_peasant_room: fld22,
            price_of_a_merchant_room: fld23,
            price_of_a_noble_room: fld24,
            price_of_a_royal_room: fld25,
            offset_to_cures_section: fld26,
            count_of_cures_section: fld27,
            _unknown2: fld28,
        };
        proof {
            lemma_subrange_concat(buf@, pos + 0, pos + 56, pos + 156);
            lemma_subrange_concat(buf@, pos + 0, pos + 28, pos + 56);
            lemma_subrange_concat(buf@, pos + 0, pos + 12, pos + 28);
            lemma_subrange_concat(buf@, pos + 0, pos + 4, pos + 12);
            lemma_subrange_concat(buf@, pos + 4, pos + 8, pos + 12);
            lemma_subrange_concat(buf@, pos + 12, pos + 20, pos + 28);
            lemma_subrange_concat(buf@, pos + 12, pos + 16, pos + 20);
            lemma_subrange_concat(buf@, pos + 20, pos + 24, pos + 28);
            lemma_subrange_concat(buf@, pos + 28, pos + 36, pos + 56);
            lemma_subrange_concat(buf@, pos + 28, pos + 32, pos + 36);
            lemma_subrange_concat(buf@, pos + 32, pos + 34, pos + 36);
            lemma_subrange_concat(buf@, pos + 36, pos + 48, pos + 56);
            lemma_subrange_concat(buf@, pos + 36, pos + 44, pos + 48);
            lemma_subrange_concat(buf@, pos + 48, pos + 52, pos + 56);
            lemma_subrange_concat(buf@, pos + 56, pos + 92, pos + 156);
            lemma_subrange_concat(buf@, pos + 56, pos + 68, pos + 92);
            lemma_subrange_concat(buf@, pos + 56, pos + 60, pos + 68);
            lemma_subrange_concat(buf@, pos + 60, pos + 64, pos + 68);
            lemma_subrange_concat(buf@, pos + 68, pos + 80, pos + 92);
            lemma_subrange_concat(buf@, pos + 68, pos + 76, pos + 80);
            lemma_subrange_concat(buf@, pos + 80, pos + 84, pos + 92);
            lemma_subrange_concat(buf@, pos + 92, pos + 108, pos + 156);
            lemma_subrange_concat(buf@, pos + 92, pos + 100, pos + 108);
            lemma_subrange_concat(buf@, pos + 92, pos + 96, pos + 100);
            lemma_subrange_concat(buf@, pos + 100, pos + 104, pos + 108);
            lemma_subrange_concat(buf@, pos + 108, pos + 116, pos + 156);
            lemma_subrange_concat(buf@, pos + 108, pos + 112, pos + 116);
            lemma_subrange_concat(buf@, pos + 116, pos + 120, pos + 156);
        }
        v
    }

    fn encode(&self, out: &mut Vec<u8>) {
        let mut b0 = encoded(&self.signature);
        let mut b1 = encoded(&self.version);
        let mut b2 = encoded(&self.store_type);
        let mut b3 = encoded(&self.name);
        let mut b4 = encoded(&self.flags);
        let mut b5 = encoded(&self.sell_price_markup);
        let mut b6 = encoded(&self.buy_price_markup);
        let mut b7 = encoded(&self.depreciation_rate);
        let mut b8 = encoded(&self.chance_of_steal_failure);
        let mut b9 = encoded(&self.capacity);
        let mut b10 = encoded_slice(self._unknown1.as_slice());
        let mut b11 = encoded(&self.offset_to_items_purchased_section);
        let mut b12 = encoded(&self.count_of_items_in_items_purchased_section);
        let mut b13 = encoded(&self.offset_to_items_for_sale_section);
        let mut b14 = encoded(&self.count_of_items_for_sale_section);
        let mut b15 = encoded(&self.lore);
        let mut b16 = encoded(&self.id_price);
        let mut b17 = encoded(&self.rumours_tavern);
        let mut b18 = encoded(&self.offset_to_drinks_section);
        let mut b19 = encoded(&self.count_of_drinks_section);
        let mut b20 = encoded(&self.rumours_temple);
        let mut b21 = encoded(&self.room_flags);
        let mut b22 = encoded(&self.price_of_a_peasant_room);
        let mut b23 = encoded(&self.price_of_a_merchant_room);
        let mut b24 = encoded(&self.price_of_a_noble_room);
        let mut b25 = encoded(&self.price_of_a_royal_room);
        let mut b26 = encoded(&self.offset_to_cures_section);
        let mut b27 = encoded(&self.count_of_cures_section);
        let mut b28 = encoded_slice(self._unknown2.as_slice());
        b27.append(&mut b28);
        b25.append(&mut b26);
        b25.append(&mut b27);
        b23.append(&mut b24);
        b21.append(&mut b22);
        b21.append(&mut b23);
        b21.append(&mut b25);
        b19.append(&mut b20);
        b17.append(&mut b18);
        b17.append(&mut b19);
        b15.append(&mut b16);
        b14.append(&mut b15);
        b14.append(&mut b17);
        b14.append(&mut b21);
        b12.append(&mut b13);
        b10.append(&mut b11);
        b10.append(&mut b12);
        b8.append(&mut b9);
        b7.append(&mut b8);
        b7.append(&mut b10);
        b5.append(&mut b6);
        b3.append(&mut b4);
        b3.append(&mut b5);
        b1.append(&mut b2);
        b0.append(&mut b1);
        b0.append(&mut b3);
        b0.append(&mut b7);
        b0.append(&mut b14);
        out.append(&mut b0);
    }
}

/// https://gibberlings3.github.io/iesdp/file_formats/ie_formats/sto_v1.htm#storv1_0_Sale
#[derive(Debug, Clone, PartialEq)]
pub struct ItemsForSale {
    pub filename_of_item: Resref,
    pub item_expiration_time: u16,
    pub quantity_charges_1: u16,
    pub quantity_charges_2: u16,
    pub quantity_charges_3: u16,
    pub flags: u32,
    pub amount_of_this_item_in_stock: u32,
    /// (0=limited stock, 1=infinite stock)
    pub infinite_supply_flag: u32,
}

impl ItemsForSale {
    /// Encoding of the fields 0 to 7, in order.
    pub open spec fn bytes_0_8(&self) -> Seq<u8> {
        self.bytes_0_4() + self.bytes_4_8()
    }

    /// Encoding of the fields 0 to 3, in order.
    pub open spec fn bytes_0_4(&self) -> Seq<u8> {
        self.bytes_0_2() + self.bytes_2_4()
    }

    /// Encoding of the fields 0 to 1, in order.
    pub open spec fn bytes_0_2(&self) -> Seq<u8> {
        self.filename_of_item.enc() + self.item_expiration_time.enc()
    }

    /// Encoding of the fields 2 to 3, in order.
    pub open spec fn bytes_2_4(&self) -> Seq<u8> {
        self.quantity_charges_1.enc() + self.quantity_charges_2.enc()
    }

    /// Encoding of the fields 4 to 7, in order.
    pub open spec fn bytes_4_8(&self) -> Seq<u8> {
        self.bytes_4_6() + self.bytes_6_8()
    }

    /// Encoding of the fields 4 to 5, in order.
    pub open spec fn bytes_4_6(&self) -> Seq<u8> {
        self.quantity_charges_3.enc() + self.flags.enc()
    }

    /// Encoding of the fields 6 to 7, in order.
    pub open spec fn bytes_6_8(&self) -> Seq<u8> {
        self.amount_of_this_item_in_stock.enc() + self.infinite_supply_flag.enc()
    }
}

impl Codec for ItemsForSale {
    open spec fn width() -> nat {
        28
    }

    open spec fn enc(&self) -> Seq<u8> {
        self.bytes_0_8()
    }

    open spec fn wf(&self) -> bool {
        true
    }

    open spec fn same(&self, other: &Self) -> bool {
        &&& self.filename_of_item.same(&other.filename_of_item)
        &&& self.item_expiration_time == other.item_expiration_time
        &&& self.quantity_charges_1 == other.quantity_charges_1
        &&& self.quantity_charges_2 == other.quantity_charges_2
        &&& self.quantity_charges_3 == other.quantity_charges_3
        &&& self.flags == other.flags
        &&& self.amount_of_this_item_in_stock == other.amount_of_this_item_in_stock
        &&& self.infinite_supply_flag == other.infinite_supply_flag
    }

    fn byte_width() -> (n: usize) {
        28
    }

    fn check_wf(&self) -> (b: bool) {
        true
    }

    proof fn lemma_enc_len(&self) {
        self.filename_of_item.lemma_enc_len();
        self.item_expiration_time.lemma_enc_len();
        self.quantity_charges_1.lemma_enc_len();
        self.quantity_charges_2.lemma_enc_len();
        self.quantity_charges_3.lemma_enc_len();
        self.flags.lemma_enc_len();
        self.amount_of_this_item_in_stock.lemma_enc_len();
        self.infinite_supply_flag.lemma_enc_len();
    }

    proof fn lemma_enc_injective(&self, other: &Self) {
        self.filename_of_item.lemma_enc_len();
        self.item_expiration_time.lemma_enc_len();
        self.quantity_charges_1.lemma_enc_len();
        self.quantity_charges_2.lemma_enc_len();
        self.quantity_charges_3.lemma_enc_len();
        self.flags.lemma_enc_len();
        self.amount_of_this_item_in_stock.lemma_enc_len();
        self.infinite_supply_flag.lemma_enc_len();
        other.filename_of_item.lemma_enc_len();
        other.item_expiration_time.lemma_enc_len();
        other.quantity_charges_1.lemma_enc_len();
        other.quantity_charges_2.lemma_enc_len();
        other.quantity_charges_3.lemma_enc_len();
        other.flags.lemma_enc_len();
        other.amount_of_this_item_in_stock.lemma_enc_len();
        other.infinite_supply_flag.lemma_enc_len();
        lemma_concat_peel(self.bytes_0_4(), self.bytes_4_8(), other.bytes_0_4(), other.bytes_4_8());
        lemma_concat_peel(self.bytes_0_2(), self.bytes_2_4(), other.bytes_0_2(), other.bytes_2_4());
        lemma_concat_peel(self.filename_of_item.enc(), self.item_expiration_time.enc(), other.filename_of_item.enc(), other.item_expiration_time.enc());
        lemma_concat_peel(self.quantity_charges_1.enc(), self.quantity_charges_2.enc(), other.quantity_charges_1.enc(), other.quantity_charges_2.enc());
        lemma_concat_peel(self.bytes_4_6(), self.bytes_6_8(), other.bytes_4_6(), other.bytes_6_8());
        lemma_concat_peel(self.quantity_charges_3.enc(), self.flags.enc(), other.quantity_charges_3.enc(), other.flags.enc());
        lemma_concat_peel(self.amount_of_this_item_in_stock.enc(), self.infinite_supply_flag.enc(), other.amount_of_this_item_in_stock.enc(), other.infinite_supply_flag.enc());
        self.filename_of_item.lemma_enc_injective(&other.filename_of_item);
        self.item_expiration_time.lemma_enc_injective(&other.item_expiration_time);
        self.quantity_charges_1.lemma_enc_injective(&other.quantity_charges_1);
        self.quantity_charges_2.lemma_enc_injective(&other.quantity_charges_2);
        self.quantity_charges_3.lemma_enc_injective(&other.quantity_charges_3);
        self.flags.lemma_enc_injective(&other.flags);
        self.amount_of_this_item_in_stock.lemma_enc_injective(&other.amount_of_this_item_in_stock);
        self.infinite_supply_flag.lemma_enc_injective(&other.infinite_supply_flag);
    }

    fn decode(buf: &[u8], pos: usize) -> (v: Self) {
        let len = buf.len();
        let fld0 = Resref::decode(buf, pos + 0);
        let fld1 = u16::decode(buf, pos + 8);
        let fld2 = u16::decode(buf, pos + 10);
        let fld3 = u16::decode(buf, pos + 12);
        let fld4 = u16::decode(buf, pos + 14);
        let fld5 = u32::decode(buf, pos + 16);
        let fld6 = u32::decode(buf, pos + 20);
        let fld7 = u32::decode(buf, pos + 24);
        let v = ItemsForSale {
            filename_of_item: fld0,
            item_expiration_time: fld1,
            quantity_charges_1: fld2,
            quantity_charges_2: fld3,
            quantity_charges_3: fld4,
            flags: fld5,
            amount_of_this_item_in_stock: fld6,
            infinite_supply_flag: fld7,
        };
        proof {
            lemma_subrange_concat(buf@, pos + 0, pos + 14, pos + 28);
            lemma_subrange_concat(buf@, pos + 0, pos + 10, pos + 14);
            lemma_subrange_concat(buf@, pos + 0, pos + 8, pos + 10);
            lemma_subrange_concat(buf@, pos + 10, pos + 12, pos + 14);
            lemma_subrange_concat(buf@, pos + 14, pos + 20, pos + 28);
            lemma_subrange_concat(buf@, pos + 14, pos + 16, pos + 20);
            lemma_subrange_concat(buf@, pos + 20, pos + 24, pos + 28);
        }
        v
    }

    fn encode(&self, out: &mut Vec<u8>) {
        let mut b0 = encoded(&self.filename_of_item);
        let mut b1 = encoded(&self.item_expiration_time);
        let mut b2 = encoded(&self.quantity_charges_1);
        let mut b3 = encoded(&self.quantity_charges_2);
        let mut b4 = encoded(&self.quantity_charges_3);
        let mut b5 = encoded(&self.flags);
        let mut b6 = encoded(&self.amount_of_this_item_in_stock);
        let mut b7 = encoded(&self.infinite_supply_flag);
        b6.append(&mut b7);
        b4.append(&mut b5);
        b4.append(&mut b6);
        b2.append(&mut b3);
        b0.append(&mut b1);
        b0.append(&mut b2);
        b0.append(&mut b4);
        out.append(&mut b0);
    }
}

/// https://gibberlings3.github.io/iesdp/file_formats/ie_formats/sto_v1.htm#storv1_0_Drink
#[derive(Debug, Clone, PartialEq)]
pub struct DrinksForSale {
    pub rumour_resource: Resref,
    pub drink_name: Strref,
    pub drink_price: u32,
    pub alcoholic_strength: u32,
}

impl DrinksForSale {
    /// Encoding of the fields 0 to 3, in order.
    pub open spec fn bytes_0_4(&self) -> Seq<u8> {
        self.bytes_0_2() + self.bytes_2_4()
    }

    /// Encoding of the fields 0 to 1, in order.
    pub open spec fn bytes_0_2(&self) -> Seq<u8> {
        self.rumour_resource.enc() + self.drink_name.enc()
    }

    /// Encoding of the fields 2 to 3, in order.
    pub open spec fn bytes_2_4(&self) -> Seq<u8> {
        self.drink_price.enc() + self.alcoholic_strength.enc()
    }
}

impl Codec for DrinksForSale {
    open spec fn width() -> nat {
        20
    }

    open spec fn enc(&self) -> Seq<u8> {
        self.bytes_0_4()
    }

    open spec fn wf(&self) -> bool {
        true
    }

    open spec fn same(&self, other: &Self) -> bool {
        &&& self.rumour_resource.same(&other.rumour_resource)
        &&& self.drink_name.same(&other.drink_name)
        &&& self.drink_price == other.drink_price
        &&& self.alcoholic_strength == other.alcoholic_strength
    }

    fn byte_width() -> (n: usize) {
        20
    }

    fn check_wf(&self) -> (b: bool) {
        true
    }

    proof fn lemma_enc_len(&self) {
        self.rumour_resource.lemma_enc_len();
        self.drink_name.lemma_enc_len();
        self.drink_price.lemma_enc_len();
        self.alcoholic_strength.lemma_enc_len();
    }

    proof fn lemma_enc_injective(&self, other: &Self) {
        self.rumour_resource.lemma_enc_len();
        self.drink_name.lemma_enc_len();
        self.drink_price.lemma_enc_len();
        self.alcoholic_strength.lemma_enc_len();
        other.rumour_resource.lemma_enc_len();
        other.drink_name.lemma_enc_len();
        other.drink_price.lemma_enc_len();
        other.alcoholic_strength.lemma_enc_len();
        lemma_concat_peel(self.bytes_0_2(), self.bytes_2_4(), other.bytes_0_2(), other.bytes_2_4());
        lemma_concat_peel(self.rumour_resource.enc(), self.drink_name.enc(), other.rumour_resource.enc(), other.drink_name.enc());
        lemma_concat_peel(self.drink_price.enc(), self.alcoholic_strength.enc(), other.drink_price.enc(), other.alcoholic_strength.enc());
        self.rumour_resource.lemma_enc_injective(&other.rumour_resource);
        self.drink_name.lemma_enc_injective(&other.drink_name);
        self.drink_price.lemma_enc_injective(&other.drink_price);
        self.alcoholic_strength.lemma_enc_injective(&other.alcoholic_strength);
    }

    fn decode(buf: &[u8], pos: usize) -> (v: Self) {
        let len = buf.len();
        let fld0 = Resref::decode(buf, pos + 0);
        let fld1 = Strref::decode(buf, pos + 8);
        let fld2 = u32::decode(buf, pos + 12);
        let fld3 = u32::decode(buf, pos + 16);
        let v = DrinksForSale {
            rumour_resource: fld0,
            drink_name: fld1,
            drink_price: fld2,
            alcoholic_strength: fld3,
        };
        proof {
            lemma_subrange_concat(buf@, pos + 0, pos + 12, pos + 20);
            lemma_subrange_concat(buf@, pos + 0, pos + 8, pos + 12);
            lemma_subrange_concat(buf@, pos + 12, pos + 16, pos + 20);
        }
        v
    }

    fn encode(&self, out: &mut Vec<u8>) {
        let mut b0 = encoded(&self.rumour_resource);
        let mut b1 = encoded(&self.drink_name);
        let mut b2 = encoded(&self.drink_price);
        let mut b3 = encoded(&self.alcoholic_strength);
        b2.append(&mut b3);
        b0.append(&mut b1);
        b0.append(&mut b2);
        out.append(&mut b0);
    }
}

/// https://gibberlings3.github.io/iesdp/file_formats/ie_formats/sto_v1.htm#storv1_0_Cure
#[derive(Debug, Clone, PartialEq)]
pub struct CuresForSale {
    pub filename_of_spell: Resref,
    pub spell_price: u32,
}

impl CuresForSale {
    /// Encoding of the fields 0 to 1, in order.
    pub open spec fn bytes_0_2(&self) -> Seq<u8> {
        self.filename_of_spell.enc() + self.spell_price.enc()
    }
}

impl Codec for CuresForSale {
    open spec fn width() -> nat {
        12
    }

    open spec fn enc(&self) -> Seq<u8> {
        self.bytes_0_2()
    }

    open spec fn wf(&self) -> bool {
        true
    }

    open spec fn same(&self, other: &Self) -> bool {
        &&& self.filename_of_spell.same(&other.filename_of_spell)
        &&& self.spell_price == other.spell_price
    }

    fn byte_width() -> (n: usize) {
        12
    }

    fn check_wf(&self) -> (b: bool) {
        true
    }

    proof fn lemma_enc_len(&self) {
        self.filename_of_spell.lemma_enc_len();
        self.spell_price.lemma_enc_len();
    }

    proof fn lemma_enc_injective(&self, other: &Self) {
        self.filename_of_spell.lemma_enc_len();
        self.spell_price.lemma_enc_len();
        other.filename_of_spell.lemma_enc_len();
        other.spell_price.lemma_enc_len();
        lemma_concat_peel(self.filename_of_spell.enc(), self.spell_price.enc(), other.filename_of_spell.enc(), other.spell_price.enc());
        self.filename_of_spell.lemma_enc_injective(&other.filename_of_spell);
        self.spell_price.lemma_enc_injective(&other.spell_price);
    }

    fn decode(buf: &[u8], pos: usize) -> (v: Self) {
        let len = buf.len();
        let fld0 = Resref::decode(buf, pos + 0);
        let fld1 = u32::decode(buf, pos + 8);
        let v = CuresForSale {
            filename_of_spell: fld0,
            spell_price: fld1,
        };
        proof {
            lemma_subrange_concat(buf@, pos + 0, pos + 8, pos + 12);
        }
        v
    }

    fn encode(&self, out: &mut Vec<u8>) {
        let mut b0 = encoded(&self.filename_of_spell);
        let mut b1 = encoded(&self.spell_price);
        b0.append(&mut b1);
        out.append(&mut b0);
    }
}

/// A store: its header, the tables that follow it one after another, and
/// the bytes it was read from.
/// <https://gibberlings3.github.io/iesdp/file_formats/ie_formats/sto_v1.htm>
#[derive(Debug)]
pub struct Store {
    pub original_bytes: Vec<u8>,
    pub header: StoreHeader,
    pub items_for_sale: Vec<ItemsForSale>,
    pub drinks_for_sale: Vec<DrinksForSale>,
    pub cures_for_sale: Vec<CuresForSale>,
    pub items_purchased_here: Vec<u32>,
}

impl Store {
    /// Where the drinks start: right after the items for sale.
    pub open spec fn drinks_at(h: StoreHeader) -> int {
        StoreHeader::width() + h.count_of_items_for_sale_section * ItemsForSale::width()
    }

    /// Where the cures start: right after the drinks.
    pub open spec fn cures_at(h: StoreHeader) -> int {
        Store::drinks_at(h) + h.count_of_drinks_section * DrinksForSale::width()
    }

    /// Where the purchased item types start: right after the cures.
    pub open spec fn purchased_at(h: StoreHeader) -> int {
        Store::cures_at(h) + h.count_of_cures_section * CuresForSale::width()
    }
}

impl Model for Store {
    open spec fn spec_parses(buffer: Seq<u8>) -> bool {
        let h = decoded_at::<StoreHeader>(buffer, 0);
        let len = buffer.len();
        &&& StoreHeader::width() <= len
        &&& section_ok(len, StoreHeader::width() as int, h.count_of_items_for_sale_section as int, ItemsForSale::width())
        &&& section_ok(len, Store::drinks_at(h), h.count_of_drinks_section as int, DrinksForSale::width())
        &&& section_ok(len, Store::cures_at(h), h.count_of_cures_section as int, CuresForSale::width())
        &&& section_ok(len, Store::purchased_at(h), h.count_of_items_in_items_purchased_section as int, u32::width())
    }

    open spec fn parsed_from(&self, buffer: Seq<u8>) -> bool {
        let h = self.header;
        &&& self.original_bytes@ == buffer
        &&& record_parsed(h, buffer, 0)
        &&& section_parsed(self.items_for_sale@, buffer, StoreHeader::width() as int, h.count_of_items_for_sale_section as int)
        &&& section_parsed(self.drinks_for_sale@, buffer, Store::drinks_at(h), h.count_of_drinks_section as int)
        &&& section_parsed(self.cures_for_sale@, buffer, Store::cures_at(h), h.count_of_cures_section as int)
        &&& section_parsed(self.items_purchased_here@, buffer, Store::purchased_at(h), h.count_of_items_in_items_purchased_section as int)
    }

    open spec fn spec_writable(&self) -> bool {
        &&& self.header.wf()
        &&& all_wf(self.items_for_sale@)
        &&& all_wf(self.drinks_for_sale@)
        &&& all_wf(self.cures_for_sale@)
    }

    fn writable(&self) -> (b: bool) {
        self.header.check_wf() && check_all_wf(self.items_for_sale.as_slice()) && check_all_wf(self.drinks_for_sale.as_slice()) && check_all_wf(self.cures_for_sale.as_slice())
    }

    /// Every field is written, one after another, starting with the bytes
    /// the store was read from.
    open spec fn spec_bytes(&self) -> Seq<u8> {
        self.original_bytes@ + self.header.enc() + enc_seq(self.items_for_sale@) + enc_seq(
            self.drinks_for_sale@,
        ) + enc_seq(self.cures_for_sale@) + enc_seq(self.items_purchased_here@)
    }

    fn parse(buffer: &[u8]) -> (r: Option<Self>) {
        let header = match read_at::<StoreHeader>(buffer, 0) {
            Some(h) => h,
            None => return None,
        };
        proof {
            lemma_decoded_at(buffer@, 0, header);
        }
        let mut at = StoreHeader::byte_width() as u64;
        let items_for_sale = match read_section::<ItemsForSale>(buffer, at, header.count_of_items_for_sale_section as u64) {
            Some(v) => v,
            None => return None,
        };
        at = at + header.count_of_items_for_sale_section as u64 * ItemsForSale::byte_width() as u64;
        let drinks_for_sale = match read_section::<DrinksForSale>(buffer, at, header.count_of_drinks_section as u64) {
            Some(v) => v,
            None => return None,
        };
        at = at + header.count_of_drinks_section as u64 * DrinksForSale::byte_width() as u64;
        let cures_for_sale = match read_section::<CuresForSale>(buffer, at, header.count_of_cures_section as u64) {
            Some(v) => v,
            None => return None,
        };
        at = at + header.count_of_cures_section as u64 * CuresForSale::byte_width() as u64;
        let items_purchased_here = match read_section::<u32>(buffer, at, header.count_of_items_in_items_purchased_section as u64) {
            Some(v) => v,
            None => return None,
        };
        let original_bytes = vstd::slice::slice_to_vec(buffer);
        Some(Store { original_bytes, header, items_for_sale, drinks_for_sale, cures_for_sale, items_purchased_here })
    }

    fn to_bytes(&self) -> (b: Vec<u8>) {
        let mut out = self.original_bytes.clone();
        self.header.encode(&mut out);
        encode_slice(self.items_for_sale.as_slice(), &mut out);
        encode_slice(self.drinks_for_sale.as_slice(), &mut out);
        encode_slice(self.cures_for_sale.as_slice(), &mut out);
        encode_slice(self.items_purchased_here.as_slice(), &mut out);
        out
    }
}

} // verus!
