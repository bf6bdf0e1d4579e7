//! The item tables of a creature.
use vstd::prelude::*;

use crate::common::binary::{Codec, lemma_subrange_concat, lemma_concat_peel, encoded, record_parsed, read_at};
use crate::common::Resref;
use crate::model::Model;

verus! {

/// https://gibberlings3.github.io/iesdp/file_formats/ie_formats/cre_v1.htm#CREV1_0_Item
#[derive(Debug, Clone, PartialEq)]
pub struct ItemReferenceTable {
    pub resource_name: Resref,
    /// Item expiration time - item creation hour (replace with drained item)
    pub item_expiration_time_hour: u8,
    /// Item expiration time - (elapsed hour count divided by 256, rounded down) + 1 (replace with drained item)
    /// When the game hour and elapsed hour count for the current game time exceed these values, the item is removed.
    pub item_expiration_time: u8,
    pub quantity_1: u16,
    pub quantity_2: u16,
    pub quantity_3: u16,
    pub identified: u8,
    pub unstealable: u8,
    pub stolen: u8,
    pub undroppable: u8,
}

impl ItemReferenceTable {
    /// Encoding of the fields 0 to 9, in order.
    pub open spec fn bytes_0_10(&self) -> Seq<u8> {
        self.bytes_0_5() + self.bytes_5_10()
    }

    /// Encoding of the fields 0 to 4, in order.
    pub open spec fn bytes_0_5(&self) -> Seq<u8> {
        self.bytes_0_2() + self.bytes_2_5()
    }

    /// Encoding of the fields 0 to 1, in order.
    pub open spec fn bytes_0_2(&self) -> Seq<u8> {
        self.resource_name.enc() + self.item_expiration_time_hour.enc()
    }

    /// Encoding of the fields 2 to 4, in order.
    pub open spec fn bytes_2_5(&self) -> Seq<u8> {
        self.item_expiration_time.enc() + self.bytes_3_5()
    }

    /// Encoding of the fields 3 to 4, in order.
    pub open spec fn bytes_3_5(&self) -> Seq<u8> {
        self.quantity_1.enc() + self.quantity_2.enc()
    }

    /// Encoding of the fields 5 to 9, in order.
    pub open spec fn bytes_5_10(&self) -> Seq<u8> {
        self.bytes_5_7() + self.bytes_7_10()
    }

    /// Encoding of the fields 5 to 6, in order.
    pub open spec fn bytes_5_7(&self) -> Seq<u8> {
        self.quantity_3.enc() + self.identified.enc()
    }

    /// Encoding of the fields 7 to 9, in order.
    pub open spec fn bytes_7_10(&self) -> Seq<u8> {
        self.unstealable.enc() + self.bytes_8_10()
    }

    /// Encoding of the fields 8 to 9, in order.
    pub open spec fn bytes_8_10(&self) -> Seq<u8> {
        self.stolen.enc() + self.undroppable.enc()
    }
}

impl Codec for ItemReferenceTable {
    open spec fn width() -> nat {
        20
    }

    open spec fn enc(&self) -> Seq<u8> {
        self.bytes_0_10()
    }

    open spec fn wf(&self) -> bool {
        true
    }

    open spec fn same(&self, other: &Self) -> bool {
        &&& self.resource_name.same(&other.resource_name)
        &&& self.item_expiration_time_hour == other.item_expiration_time_hour
        &&& self.item_expiration_time == other.item_expiration_time
        &&& self.quantity_1 == other.quantity_1
        &&& self.quantity_2 == other.quantity_2
        &&& self.quantity_3 == other.quantity_3
        &&& self.identified == other.identified
        &&& self.unstealable == other.unstealable
        &&& self.stolen == other.stolen
        &&& self.undroppable == other.undroppable
    }

    fn byte_width() -> (n: usize) {
        20
    }

    fn check_wf(&self) -> (b: bool) {
        true
    }

    proof fn lemma_enc_len(&self) {
        self.resource_name.lemma_enc_len();
        self.item_expiration_time_hour.lemma_enc_len();
        self.item_expiration_time.lemma_enc_len();
        self.quantity_1.lemma_enc_len();
        self.quantity_2.lemma_enc_len();
        self.quantity_3.lemma_enc_len();
        self.identified.lemma_enc_len();
        self.unstealable.lemma_enc_len();
        self.stolen.lemma_enc_len();
        self.undroppable.lemma_enc_len();
    }

    proof fn lemma_enc_injective(&self, other: &Self) {
        self.resource_name.lemma_enc_len();
        self.item_expiration_time_hour.lemma_enc_len();
        self.item_expiration_time.lemma_enc_len();
        self.quantity_1.lemma_enc_len();
        self.quantity_2.lemma_enc_len();
        self.quantity_3.lemma_enc_len();
        self.identified.lemma_enc_len();
        self.unstealable.lemma_enc_len();
        self.stolen.lemma_enc_len();
        self.undroppable.lemma_enc_len();
        other.resource_name.lemma_enc_len();
        other.item_expiration_time_hour.lemma_enc_len();
        other.item_expiration_time.lemma_enc_len();
        other.quantity_1.lemma_enc_len();
        other.quantity_2.lemma_enc_len();
        other.quantity_3.lemma_enc_len();
        other.identified.lemma_enc_len();
        other.unstealable.lemma_enc_len();
        other.stolen.lemma_enc_len();
        other.undroppable.lemma_enc_len();
        lemma_concat_peel(self.bytes_0_5(), self.bytes_5_10(), other.bytes_0_5(), other.bytes_5_10());
        lemma_concat_peel(self.bytes_0_2(), self.bytes_2_5(), other.bytes_0_2(), other.bytes_2_5());
        lemma_concat_peel(self.resource_name.enc(), self.item_expiration_time_hour.enc(), other.resource_name.enc(), other.item_expiration_time_hour.enc());
        lemma_concat_peel(self.item_expiration_time.enc(), self.bytes_3_5(), other.item_expiration_time.enc(), other.bytes_3_5());
        lemma_concat_peel(self.quantity_1.enc(), self.quantity_2.enc(), other.quantity_1.enc(), other.quantity_2.enc());
        lemma_concat_peel(self.bytes_5_7(), self.bytes_7_10(), other.bytes_5_7(), other.bytes_7_10());
        lemma_concat_peel(self.quantity_3.enc(), self.identified.enc(), other.quantity_3.enc(), other.identified.enc());
        lemma_concat_peel(self.unstealable.enc(), self.bytes_8_10(), other.unstealable.enc(), other.bytes_8_10());
        lemma_concat_peel(self.stolen.enc(), self.undroppable.enc(), other.stolen.enc(), other.undroppable.enc());
        self.resource_name.lemma_enc_injective(&other.resource_name);
        self.item_expiration_time_hour.lemma_enc_injective(&other.item_expiration_time_hour);
        self.item_expiration_time.lemma_enc_injective(&other.item_expiration_time);
        self.quantity_1.lemma_enc_injective(&other.quantity_1);
        self.quantity_2.lemma_enc_injective(&other.quantity_2);
        self.quantity_3.lemma_enc_injective(&other.quantity_3);
        self.identified.lemma_enc_injective(&other.identified);
        self.unstealable.lemma_enc_injective(&other.unstealable);
        self.stolen.lemma_enc_injective(&other.stolen);
        self.undroppable.lemma_enc_injective(&other.undroppable);
    }

    fn decode(buf: &[u8], pos: usize) -> (v: Self) {
        let len = buf.len();
        let fld0 = Resref::decode(buf, pos + 0);
        let fld1 = u8::decode(buf, pos + 8);
        let fld2 = u8::decode(buf, pos + 9);
        let fld3 = u16::decode(buf, pos + 10);
        let fld4 = u16::decode(buf, pos + 12);
        let fld5 = u16::decode(buf, pos + 14);
        let fld6 = u8::decode(buf, pos + 16);
        let fld7 = u8::decode(buf, pos + 17);
        let fld8 = u8::decode(buf, pos + 18);
        let fld9 = u8::decode(buf, pos + 19);
        let v = ItemReferenceTable {
            resource_name: fld0,
            item_expiration_time_hour: fld1,
            item_expiration_time: fld2,
            quantity_1: fld3,
            quantity_2: fld4,
            quantity_3: fld5,
            identified: fld6,
            unstealable: fld7,
            stolen: fld8,
            undroppable: fld9,
        };
        proof {
            lemma_subrange_concat(buf@, pos + 0, pos + 14, pos + 20);
            lemma_subrange_concat(buf@, pos + 0, pos + 9, pos + 14);
            lemma_subrange_concat(buf@, pos + 0, pos + 8, pos + 9);
            lemma_subrange_concat(buf@, pos + 9, pos + 10, pos + 14);
            lemma_subrange_concat(buf@, pos + 10, pos + 12, pos + 14);
            lemma_subrange_concat(buf@, pos + 14, pos + 17, pos + 20);
            lemma_subrange_concat(buf@, pos + 14, pos + 16, pos + 17);
            lemma_subrange_concat(buf@, pos + 17, pos + 18, pos + 20);
            lemma_subrange_concat(buf@, pos + 18, pos + 19, pos + 20);
        }
        v
    }

    fn encode(&self, out: &mut Vec<u8>) {
        let mut b0 = encoded(&self.resource_name);
        let mut b1 = encoded(&self.item_expiration_time_hour);
        let mut b2 = encoded(&self.item_expiration_time);
        let mut b3 = encoded(&self.quantity_1);
        let mut b4 = encoded(&self.quantity_2);
        let mut b5 = encoded(&self.quantity_3);
        let mut b6 = encoded(&self.identified);
        let mut b7 = encoded(&self.unstealable);
        let mut b8 = encoded(&self.stolen);
        let mut b9 = encoded(&self.undroppable);
        b8.append(&mut b9);
        b7.append(&mut b8);
        b5.append(&mut b6);
        b5.append(&mut b7);
        b3.append(&mut b4);
        b2.append(&mut b3);
        b0.append(&mut b1);
        b0.append(&mut b2);
        b0.append(&mut b5);
        out.append(&mut b0);
    }
}

/// https://gibberlings3.github.io/iesdp/file_formats/ie_formats/cre_v1.htm#CREV1_0_ItemSlots
#[derive(Debug, Clone, PartialEq)]
pub struct ItemSlots {
    pub helmet: u16,
    pub armor: u16,
    pub shield: u16,
    pub gloves: u16,
    pub left_ring: u16,
    pub right_ring: u16,
    pub amulet: u16,
    pub belt: u16,
    pub boots: u16,
    pub weapon_1: u16,
    pub weapon_2: u16,
    pub weapon_3: u16,
    pub weapon_4: u16,
    pub quiver_1: u16,
    pub quiver_2: u16,
    pub quiver_3: u16,
    /// Cannot be accessed from gui
    pub quiver_4: u16,
    pub cloak: u16,
    pub quick_item_1: u16,
    pub quick_item_2: u16,
    pub quick_item_3: u16,
    pub inventory_item_1: u16,
    pub inventory_item_2: u16,
    pub inventory_item_3: u16,
    pub inventory_item_4: u16,
    pub inventory_item_5: u16,
    pub inventory_item_6: u16,
    pub inventory_item_7: u16,
    pub inventory_item_8: u16,
    pub inventory_item_9: u16,
    pub inventory_item_10: u16,
    pub inventory_item_11: u16,
    pub inventory_item_12: u16,
    pub inventory_item_13: u16,
    pub inventory_item_14: u16,
    pub inventory_item_15: u16,
    pub inventory_item_16: u16,
    pub magic_weapon: u16,
    pub weapon_slot_selected: u16,
    pub weapon_ability_selected: u16,
}

impl ItemSlots {
    /// Encoding of the fields 0 to 39, in order.
    pub open spec fn bytes_0_40(&self) -> Seq<u8> {
        self.bytes_0_20() + self.bytes_20_40()
    }

    /// Encoding of the fields 0 to 19, in order.
    pub open spec fn bytes_0_20(&self) -> Seq<u8> {
        self.bytes_0_10() + self.bytes_10_20()
    }

    /// Encoding of the fields 0 to 9, in order.
    pub open spec fn bytes_0_10(&self) -> Seq<u8> {
        self.bytes_0_5() + self.bytes_5_10()
    }

    /// Encoding of the fields 0 to 4, in order.
    pub open spec fn bytes_0_5(&self) -> Seq<u8> {
        self.bytes_0_2() + self.bytes_2_5()
    }

    /// Encoding of the fields 0 to 1, in order.
    pub open spec fn bytes_0_2(&self) -> Seq<u8> {
        self.helmet.enc() + self.armor.enc()
    }

    /// Encoding of the fields 2 to 4, in order.
    pub open spec fn bytes_2_5(&self) -> Seq<u8> {
        self.shield.enc() + self.bytes_3_5()
    }

    /// Encoding of the fields 3 to 4, in order.
    pub open spec fn bytes_3_5(&self) -> Seq<u8> {
        self.gloves.enc() + self.left_ring.enc()
    }

    /// Encoding of the fields 5 to 9, in order.
    pub open spec fn bytes_5_10(&self) -> Seq<u8> {
        self.bytes_5_7() + self.bytes_7_10()
    }

    /// Encoding of the fields 5 to 6, in order.
    pub open spec fn bytes_5_7(&self) -> Seq<u8> {
        self.right_ring.enc() + self.amulet.enc()
    }

    /// Encoding of the fields 7 to 9, in order.
    pub open spec fn bytes_7_10(&self) -> Seq<u8> {
        self.belt.enc() + self.bytes_8_10()
    }

    /// Encoding of the fields 8 to 9, in order.
    pub open spec fn bytes_8_10(&self) -> Seq<u8> {
        self.boots.enc() + self.weapon_1.enc()
    }

    /// Encoding of the fields 10 to 19, in order.
    pub open spec fn bytes_10_20(&self) -> Seq<u8> {
        self.bytes_10_15() + self.bytes_15_20()
    }

    /// Encoding of the fields 10 to 14, in order.
    pub open spec fn bytes_10_15(&self) -> Seq<u8> {
        self.bytes_10_12() + self.bytes_12_15()
    }

    /// Encoding of the fields 10 to 11, in order.
    pub open spec fn bytes_10_12(&self) -> Seq<u8> {
        self.weapon_2.enc() + self.weapon_3.enc()
    }

    /// Encoding of the fields 12 to 14, in order.
    pub open spec fn bytes_12_15(&self) -> Seq<u8> {
        self.weapon_4.enc() + self.bytes_13_15()
    }

    /// Encoding of the fields 13 to 14, in order.
    pub open spec fn bytes_13_15(&self) -> Seq<u8> {
        self.quiver_1.enc() + self.quiver_2.enc()
    }

    /// Encoding of the fields 15 to 19, in order.
    pub open spec fn bytes_15_20(&self) -> Seq<u8> {
        self.bytes_15_17() + self.bytes_17_20()
    }

    /// Encoding of the fields 15 to 16, in order.
    pub open spec fn bytes_15_17(&self) -> Seq<u8> {
        self.quiver_3.enc() + self.quiver_4.enc()
    }

    /// Encoding of the fields 17 to 19, in order.
    pub open spec fn bytes_17_20(&self) -> Seq<u8> {
        self.cloak.enc() + self.bytes_18_20()
    }

    /// Encoding of the fields 18 to 19, in order.
    pub open spec fn bytes_18_20(&self) -> Seq<u8> {
        self.quick_item_1.enc() + self.quick_item_2.enc()
    }

    /// Encoding of the fields 20 to 39, in order.
    pub open spec fn bytes_20_40(&self) -> Seq<u8> {
        self.bytes_20_30() + self.bytes_30_40()
    }

    /// Encoding of the fields 20 to 29, in order.
    pub open spec fn bytes_20_30(&self) -> Seq<u8> {
        self.bytes_20_25() + self.bytes_25_30()
    }

    /// Encoding of the fields 20 to 24, in order.
    pub open spec fn bytes_20_25(&self) -> Seq<u8> {
        self.bytes_20_22() + self.bytes_22_25()
    }

    /// Encoding of the fields 20 to 21, in order.
    pub open spec fn bytes_20_22(&self) -> Seq<u8> {
        self.quick_item_3.enc() + self.inventory_item_1.enc()
    }

    /// Encoding of the fields 22 to 24, in order.
    pub open spec fn bytes_22_25(&self) -> Seq<u8> {
        self.inventory_item_2.enc() + self.bytes_23_25()
    }

    /// Encoding of the fields 23 to 24, in order.
    pub open spec fn bytes_23_25(&self) -> Seq<u8> {
        self.inventory_item_3.enc() + self.inventory_item_4.enc()
    }

    /// Encoding of the fields 25 to 29, in order.
    pub open spec fn bytes_25_30(&self) -> Seq<u8> {
        self.bytes_25_27() + self.bytes_27_30()
    }

    /// Encoding of the fields 25 to 26, in order.
    pub open spec fn bytes_25_27(&self) -> Seq<u8> {
        self.inventory_item_5.enc() + self.inventory_item_6.enc()
    }

    /// Encoding of the fields 27 to 29, in order.
    pub open spec fn bytes_27_30(&self) -> Seq<u8> {
        self.inventory_item_7.enc() + self.bytes_28_30()
    }

    /// Encoding of the fields 28 to 29, in order.
    pub open spec fn bytes_28_30(&self) -> Seq<u8> {
        self.inventory_item_8.enc() + self.inventory_item_9.enc()
    }

    /// Encoding of the fields 30 to 39, in order.
    pub open spec fn bytes_30_40(&self) -> Seq<u8> {
        self.bytes_30_35() + self.bytes_35_40()
    }

    /// Encoding of the fields 30 to 34, in order.
    pub open spec fn bytes_30_35(&self) -> Seq<u8> {
        self.bytes_30_32() + self.bytes_32_35()
    }

    /// Encoding of the fields 30 to 31, in order.
    pub open spec fn bytes_30_32(&self) -> Seq<u8> {
        self.inventory_item_10.enc() + self.inventory_item_11.enc()
    }

    /// Encoding of the fields 32 to 34, in order.
    pub open spec fn bytes_32_35(&self) -> Seq<u8> {
        self.inventory_item_12.enc() + self.bytes_33_35()
    }

    /// Encoding of the fields 33 to 34, in order.
    pub open spec fn bytes_33_35(&self) -> Seq<u8> {
        self.inventory_item_13.enc() + self.inventory_item_14.enc()
    }

    /// Encoding of the fields 35 to 39, in order.
    pub open spec fn bytes_35_40(&self) -> Seq<u8> {
        self.bytes_35_37() + self.bytes_37_40()
    }

    /// Encoding of the fields 35 to 36, in order.
    pub open spec fn bytes_35_37(&self) -> Seq<u8> {
        self.inventory_item_15.enc() + self.inventory_item_16.enc()
    }

    /// Encoding of the fields 37 to 39, in order.
    pub open spec fn bytes_37_40(&self) -> Seq<u8> {
        self.magic_weapon.enc() + self.bytes_38_40()
    }

    /// Encoding of the fields 38 to 39, in order.
    pub open spec fn bytes_38_40(&self) -> Seq<u8> {
        self.weapon_slot_selected.enc() + self.weapon_ability_selected.enc()
    }
}

impl Codec for ItemSlots {
    open spec fn width() -> nat {
        80
    }

    open spec fn enc(&self) -> Seq<u8> {
        self.bytes_0_40()
    }

    open spec fn wf(&self) -> bool {
        true
    }

    open spec fn same(&self, other: &Self) -> bool {
        &&& self.helmet == other.helmet
        &&& self.armor == other.armor
        &&& self.shield == other.shield
        &&& self.gloves == other.gloves
        &&& self.left_ring == other.left_ring
        &&& self.right_ring == other.right_ring
        &&& self.amulet == other.amulet
        &&& self.belt == other.belt
        &&& self.boots == other.boots
        &&& self.weapon_1 == other.weapon_1
        &&& self.weapon_2 == other.weapon_2
        &&& self.weapon_3 == other.weapon_3
        &&& self.weapon_4 == other.weapon_4
        &&& self.quiver_1 == other.quiver_1
        &&& self.quiver_2 == other.quiver_2
        &&& self.quiver_3 == other.quiver_3
        &&& self.quiver_4 == other.quiver_4
        &&& self.cloak == other.cloak
        &&& self.quick_item_1 == other.quick_item_1
        &&& self.quick_item_2 == other.quick_item_2
        &&& self.quick_item_3 == other.quick_item_3
        &&& self.inventory_item_1 == other.inventory_item_1
        &&& self.inventory_item_2 == other.inventory_item_2
        &&& self.inventory_item_3 == other.inventory_item_3
        &&& self.inventory_item_4 == other.inventory_item_4
        &&& self.inventory_item_5 == other.inventory_item_5
        &&& self.inventory_item_6 == other.inventory_item_6
        &&& self.inventory_item_7 == other.inventory_item_7
        &&& self.inventory_item_8 == other.inventory_item_8
        &&& self.inventory_item_9 == other.inventory_item_9
        &&& self.inventory_item_10 == other.inventory_item_10
        &&& self.inventory_item_11 == other.inventory_item_11
        &&& self.inventory_item_12 == other.inventory_item_12
        &&& self.inventory_item_13 == other.inventory_item_13
        &&& self.inventory_item_14 == other.inventory_item_14
        &&& self.inventory_item_15 == other.inventory_item_15
        &&& self.inventory_item_16 == other.inventory_item_16
        &&& self.magic_weapon == other.magic_weapon
        &&& self.weapon_slot_selected == other.weapon_slot_selected
        &&& self.weapon_ability_selected == other.weapon_ability_selected
    }

    fn byte_width() -> (n: usize) {
        80
    }

    fn check_wf(&self) -> (b: bool) {
        true
    }

    proof fn lemma_enc_len(&self) {
        self.helmet.lemma_enc_len();
        self.armor.lemma_enc_len();
        self.shield.lemma_enc_len();
        self.gloves.lemma_enc_len();
        self.left_ring.lemma_enc_len();
        self.right_ring.lemma_enc_len();
        self.amulet.lemma_enc_len();
        self.belt.lemma_enc_len();
        self.boots.lemma_enc_len();
        self.weapon_1.lemma_enc_len();
        self.weapon_2.lemma_enc_len();
        self.weapon_3.lemma_enc_len();
        self.weapon_4.lemma_enc_len();
        self.quiver_1.lemma_enc_len();
        self.quiver_2.lemma_enc_len();
        self.quiver_3.lemma_enc_len();
        self.quiver_4.lemma_enc_len();
        self.cloak.lemma_enc_len();
        self.quick_item_1.lemma_enc_len();
        self.quick_item_2.lemma_enc_len();
        self.quick_item_3.lemma_enc_len();
        self.inventory_item_1.lemma_enc_len();
        self.inventory_item_2.lemma_enc_len();
        self.inventory_item_3.lemma_enc_len();
        self.inventory_item_4.lemma_enc_len();
        self.inventory_item_5.lemma_enc_len();
        self.inventory_item_6.lemma_enc_len();
        self.inventory_item_7.lemma_enc_len();
        self.inventory_item_8.lemma_enc_len();
        self.inventory_item_9.lemma_enc_len();
        self.inventory_item_10.lemma_enc_len();
        self.inventory_item_11.lemma_enc_len();
        self.inventory_item_12.lemma_enc_len();
        self.inventory_item_13.lemma_enc_len();
        self.inventory_item_14.lemma_enc_len();
        self.inventory_item_15.lemma_enc_len();
        self.inventory_item_16.lemma_enc_len();
        self.magic_weapon.lemma_enc_len();
        self.weapon_slot_selected.lemma_enc_len();
        self.weapon_ability_selected.lemma_enc_len();
    }

    proof fn lemma_enc_injective(&self, other: &Self) {
        self.helmet.lemma_enc_len();
        self.armor.lemma_enc_len();
        self.shield.lemma_enc_len();
        self.gloves.lemma_enc_len();
        self.left_ring.lemma_enc_len();
        self.right_ring.lemma_enc_len();
        self.amulet.lemma_enc_len();
        self.belt.lemma_enc_len();
        self.boots.lemma_enc_len();
        self.weapon_1.lemma_enc_len();
        self.weapon_2.lemma_enc_len();
        self.weapon_3.lemma_enc_len();
        self.weapon_4.lemma_enc_len();
        self.quiver_1.lemma_enc_len();
        self.quiver_2.lemma_enc_len();
        self.quiver_3.lemma_enc_len();
        self.quiver_4.lemma_enc_len();
        self.cloak.lemma_enc_len();
        self.quick_item_1.lemma_enc_len();
        self.quick_item_2.lemma_enc_len();
        self.quick_item_3.lemma_enc_len();
        self.inventory_item_1.lemma_enc_len();
        self.inventory_item_2.lemma_enc_len();
        self.inventory_item_3.lemma_enc_len();
        self.inventory_item_4.lemma_enc_len();
        self.inventory_item_5.lemma_enc_len();
        self.inventory_item_6.lemma_enc_len();
        self.inventory_item_7.lemma_enc_len();
        self.inventory_item_8.lemma_enc_len();
        self.inventory_item_9.lemma_enc_len();
        self.inventory_item_10.lemma_enc_len();
        self.inventory_item_11.lemma_enc_len();
        self.inventory_item_12.lemma_enc_len();
        self.inventory_item_13.lemma_enc_len();
        self.inventory_item_14.lemma_enc_len();
        self.inventory_item_15.lemma_enc_len();
        self.inventory_item_16.lemma_enc_len();
        self.magic_weapon.lemma_enc_len();
        self.weapon_slot_selected.lemma_enc_len();
        self.weapon_ability_selected.lemma_enc_len();
        other.helmet.lemma_enc_len();
        other.armor.lemma_enc_len();
        other.shield.lemma_enc_len();
        other.gloves.lemma_enc_len();
        other.left_ring.lemma_enc_len();
        other.right_ring.lemma_enc_len();
        other.amulet.lemma_enc_len();
        other.belt.lemma_enc_len();
        other.boots.lemma_enc_len();
        other.weapon_1.lemma_enc_len();
        other.weapon_2.lemma_enc_len();
        other.weapon_3.lemma_enc_len();
        other.weapon_4.lemma_enc_len();
        other.quiver_1.lemma_enc_len();
        other.quiver_2.lemma_enc_len();
        other.quiver_3.lemma_enc_len();
        other.quiver_4.lemma_enc_len();
        other.cloak.lemma_enc_len();
        other.quick_item_1.lemma_enc_len();
        other.quick_item_2.lemma_enc_len();
        other.quick_item_3.lemma_enc_len();
        other.inventory_item_1.lemma_enc_len();
        other.inventory_item_2.lemma_enc_len();
        other.inventory_item_3.lemma_enc_len();
        other.inventory_item_4.lemma_enc_len();
        other.inventory_item_5.lemma_enc_len();
        other.inventory_item_6.lemma_enc_len();
        other.inventory_item_7.lemma_enc_len();
        other.inventory_item_8.lemma_enc_len();
        other.inventory_item_9.lemma_enc_len();
        other.inventory_item_10.lemma_enc_len();
        other.inventory_item_11.lemma_enc_len();
        other.inventory_item_12.lemma_enc_len();
        other.inventory_item_13.lemma_enc_len();
        other.inventory_item_14.lemma_enc_len();
        other.inventory_item_15.lemma_enc_len();
        other.inventory_item_16.lemma_enc_len();
        other.magic_weapon.lemma_enc_len();
        other.weapon_slot_selected.lemma_enc_len();
        other.weapon_ability_selected.lemma_enc_len();
        lemma_concat_peel(self.bytes_0_20(), self.bytes_20_40(), other.bytes_0_20(), other.bytes_20_40());
        lemma_concat_peel(self.bytes_0_10(), self.bytes_10_20(), other.bytes_0_10(), other.bytes_10_20());
        lemma_concat_peel(self.bytes_0_5(), self.bytes_5_10(), other.bytes_0_5(), other.bytes_5_10());
        lemma_concat_peel(self.bytes_0_2(), self.bytes_2_5(), other.bytes_0_2(), other.bytes_2_5());
        lemma_concat_peel(self.helmet.enc(), self.armor.enc(), other.helmet.enc(), other.armor.enc());
        lemma_concat_peel(self.shield.enc(), self.bytes_3_5(), other.shield.enc(), other.bytes_3_5());
        lemma_concat_peel(self.gloves.enc(), self.left_ring.enc(), other.gloves.enc(), other.left_ring.enc());
        lemma_concat_peel(self.bytes_5_7(), self.bytes_7_10(), other.bytes_5_7(), other.bytes_7_10());
        lemma_concat_peel(self.right_ring.enc(), self.amulet.enc(), other.right_ring.enc(), other.amulet.enc());
        lemma_concat_peel(self.belt.enc(), self.bytes_8_10(), other.belt.enc(), other.bytes_8_10());
        lemma_concat_peel(self.boots.enc(), self.weapon_1.enc(), other.boots.enc(), other.weapon_1.enc());
        lemma_concat_peel(self.bytes_10_15(), self.bytes_15_20(), other.bytes_10_15(), other.bytes_15_20());
        lemma_concat_peel(self.bytes_10_12(), self.bytes_12_15(), other.bytes_10_12(), other.bytes_12_15());
        lemma_concat_peel(self.weapon_2.enc(), self.weapon_3.enc(), other.weapon_2.enc(), other.weapon_3.enc());
        lemma_concat_peel(self.weapon_4.enc(), self.bytes_13_15(), other.weapon_4.enc(), other.bytes_13_15());
        lemma_concat_peel(self.quiver_1.enc(), self.quiver_2.enc(), other.quiver_1.enc(), other.quiver_2.enc());
        lemma_concat_peel(self.bytes_15_17(), self.bytes_17_20(), other.bytes_15_17(), other.bytes_17_20());
        lemma_concat_peel(self.quiver_3.enc(), self.quiver_4.enc(), other.quiver_3.enc(), other.quiver_4.enc());
        lemma_concat_peel(self.cloak.enc(), self.bytes_18_20(), other.cloak.enc(), other.bytes_18_20());
        lemma_concat_peel(self.quick_item_1.enc(), self.quick_item_2.enc(), other.quick_item_1.enc(), other.quick_item_2.enc());
        lemma_concat_peel(self.bytes_20_30(), self.bytes_30_40(), other.bytes_20_30(), other.bytes_30_40());
        lemma_concat_peel(self.bytes_20_25(), self.bytes_25_30(), other.bytes_20_25(), other.bytes_25_30());
        lemma_concat_peel(self.bytes_20_22(), self.bytes_22_25(), other.bytes_20_22(), other.bytes_22_25());
        lemma_concat_peel(self.quick_item_3.enc(), self.inventory_item_1.enc(), other.quick_item_3.enc(), other.inventory_item_1.enc());
        lemma_concat_peel(self.inventory_item_2.enc(), self.bytes_23_25(), other.inventory_item_2.enc(), other.bytes_23_25());
        lemma_concat_peel(self.inventory_item_3.enc(), self.inventory_item_4.enc(), other.inventory_item_3.enc(), other.inventory_item_4.enc());
        lemma_concat_peel(self.bytes_25_27(), self.bytes_27_30(), other.bytes_25_27(), other.bytes_27_30());
        lemma_concat_peel(self.inventory_item_5.enc(), self.inventory_item_6.enc(), other.inventory_item_5.enc(), other.inventory_item_6.enc());
        lemma_concat_peel(self.inventory_item_7.enc(), self.bytes_28_30(), other.inventory_item_7.enc(), other.bytes_28_30());
        lemma_concat_peel(self.inventory_item_8.enc(), self.inventory_item_9.enc(), other.inventory_item_8.enc(), other.inventory_item_9.enc());
        lemma_concat_peel(self.bytes_30_35(), self.bytes_35_40(), other.bytes_30_35(), other.bytes_35_40());
        lemma_concat_peel(self.bytes_30_32(), self.bytes_32_35(), other.bytes_30_32(), other.bytes_32_35());
        lemma_concat_peel(self.inventory_item_10.enc(), self.inventory_item_11.enc(), other.inventory_item_10.enc(), other.inventory_item_11.enc());
        lemma_concat_peel(self.inventory_item_12.enc(), self.bytes_33_35(), other.inventory_item_12.enc(), other.bytes_33_35());
        lemma_concat_peel(self.inventory_item_13.enc(), self.inventory_item_14.enc(), other.inventory_item_13.enc(), other.inventory_item_14.enc());
        lemma_concat_peel(self.bytes_35_37(), self.bytes_37_40(), other.bytes_35_37(), other.bytes_37_40());
        lemma_concat_peel(self.inventory_item_15.enc(), self.inventory_item_16.enc(), other.inventory_item_15.enc(), other.inventory_item_16.enc());
        lemma_concat_peel(self.magic_weapon.enc(), self.bytes_38_40(), other.magic_weapon.enc(), other.bytes_38_40());
        lemma_concat_peel(self.weapon_slot_selected.enc(), self.weapon_ability_selected.enc(), other.weapon_slot_selected.enc(), other.weapon_ability_selected.enc());
        self.helmet.lemma_enc_injective(&other.helmet);
        self.armor.lemma_enc_injective(&other.armor);
        self.shield.lemma_enc_injective(&other.shield);
        self.gloves.lemma_enc_injective(&other.gloves);
        self.left_ring.lemma_enc_injective(&other.left_ring);
        self.right_ring.lemma_enc_injective(&other.right_ring);
        self.amulet.lemma_enc_injective(&other.amulet);
        self.belt.lemma_enc_injective(&other.belt);
        self.boots.lemma_enc_injective(&other.boots);
        self.weapon_1.lemma_enc_injective(&other.weapon_1);
        self.weapon_2.lemma_enc_injective(&other.weapon_2);
        self.weapon_3.lemma_enc_injective(&other.weapon_3);
        self.weapon_4.lemma_enc_injective(&other.weapon_4);
        self.quiver_1.lemma_enc_injective(&other.quiver_1);
        self.quiver_2.lemma_enc_injective(&other.quiver_2);
        self.quiver_3.lemma_enc_injective(&other.quiver_3);
        self.quiver_4.lemma_enc_injective(&other.quiver_4);
        self.cloak.lemma_enc_injective(&other.cloak);
        self.quick_item_1.lemma_enc_injective(&other.quick_item_1);
        self.quick_item_2.lemma_enc_injective(&other.quick_item_2);
        self.quick_item_3.lemma_enc_injective(&other.quick_item_3);
        self.inventory_item_1.lemma_enc_injective(&other.inventory_item_1);
        self.inventory_item_2.lemma_enc_injective(&other.inventory_item_2);
        self.inventory_item_3.lemma_enc_injective(&other.inventory_item_3);
        self.inventory_item_4.lemma_enc_injective(&other.inventory_item_4);
        self.inventory_item_5.lemma_enc_injective(&other.inventory_item_5);
        self.inventory_item_6.lemma_enc_injective(&other.inventory_item_6);
        self.inventory_item_7.lemma_enc_injective(&other.inventory_item_7);
        self.inventory_item_8.lemma_enc_injective(&other.inventory_item_8);
        self.inventory_item_9.lemma_enc_injective(&other.inventory_item_9);
        self.inventory_item_10.lemma_enc_injective(&other.inventory_item_10);
        self.inventory_item_11.lemma_enc_injective(&other.inventory_item_11);
        self.inventory_item_12.lemma_enc_injective(&other.inventory_item_12);
        self.inventory_item_13.lemma_enc_injective(&other.inventory_item_13);
        self.inventory_item_14.lemma_enc_injective(&other.inventory_item_14);
        self.inventory_item_15.lemma_enc_injective(&other.inventory_item_15);
        self.inventory_item_16.lemma_enc_injective(&other.inventory_item_16);
        self.magic_weapon.lemma_enc_injective(&other.magic_weapon);
        self.weapon_slot_selected.lemma_enc_injective(&other.weapon_slot_selected);
        self.weapon_ability_selected.lemma_enc_injective(&other.weapon_ability_selected);
    }

    #[verifier::rlimit(100)]
    #[verifier::spinoff_prover]
    fn decode(buf: &[u8], pos: usize) -> (v: Self) {
        let len = buf.len();
        let fld0 = u16::decode(buf, pos + 0);
        let fld1 = u16::decode(buf, pos + 2);
        let fld2 = u16::decode(buf, pos + 4);
        let fld3 = u16::decode(buf, pos + 6);
        let fld4 = u16::decode(buf, pos + 8);
        let fld5 = u16::decode(buf, pos + 10);
        let fld6 = u16::decode(buf, pos + 12);
        let fld7 = u16::decode(buf, pos + 14);
        let fld8 = u16::decode(buf, pos + 16);
        let fld9 = u16::decode(buf, pos + 18);
        let fld10 = u16::decode(buf, pos + 20);
        let fld11 = u16::decode(buf, pos + 22);
        let fld12 = u16::decode(buf, pos + 24);
        let fld13 = u16::decode(buf, pos + 26);
        let fld14 = u16::decode(buf, pos + 28);
        let fld15 = u16::decode(buf, pos + 30);
        let fld16 = u16::decode(buf, pos + 32);
        let fld17 = u16::decode(buf, pos + 34);
        let fld18 = u16::decode(buf, pos + 36);
        let fld19 = u16::decode(buf, pos + 38);
        let fld20 = u16::decode(buf, pos + 40);
        let fld21 = u16::decode(buf, pos + 42);
        let fld22 = u16::decode(buf, pos + 44);
        let fld23 = u16::decode(buf, pos + 46);
        let fld24 = u16::decode(buf, pos + 48);
        let fld25 = u16::decode(buf, pos + 50);
        let fld26 = u16::decode(buf, pos + 52);
        let fld27 = u16::decode(buf, pos + 54);
        let fld28 = u16::decode(buf, pos + 56);
        let fld29 = u16::decode(buf, pos + 58);
        let fld30 = u16::decode(buf, pos + 60);
        let fld31 = u16::decode(buf, pos + 62);
        let fld32 = u16::decode(buf, pos + 64);
        let fld33 = u16::decode(buf, pos + 66);
        let fld34 = u16::decode(buf, pos + 68);
        let fld35 = u16::decode(buf, pos + 70);
        let fld36 = u16::decode(buf, pos + 72);
        let fld37 = u16::decode(buf, pos + 74);
        let fld38 = u16::decode(buf, pos + 76);
        let fld39 = u16::decode(buf, pos + 78);
        let v = ItemSlots {
            helmet: fld0,
            armor: fld1,
            shield: fld2,
            gloves: fld3,
            left_ring: fld4,
            right_ring: fld5,
            amulet: fld6,
            belt: fld7,
            boots: fld8,
            weapon_1: fld9,
            weapon_2: fld10,
            weapon_3: fld11,
            weapon_4: fld12,
            quiver_1: fld13,
            quiver_2: fld14,
            quiver_3: fld15,
            quiver_4: fld16,
            cloak: fld17,
            quick_item_1: fld18,
            quick_item_2: fld19,
            quick_item_3: fld20,
            inventory_item_1: fld21,
            inventory_item_2: fld22,
            inventory_item_3: fld23,
            inventory_item_4: fld24,
            inventory_item_5: fld25,
            inventory_item_6: fld26,
            inventory_item_7: fld27,
            inventory_item_8: fld28,
            inventory_item_9: fld29,
            inventory_item_10: fld30,
            inventory_item_11: fld31,
            inventory_item_12: fld32,
            inventory_item_13: fld33,
            inventory_item_14: fld34,
            inventory_item_15: fld35,
            inventory_item_16: fld36,
            magic_weapon: fld37,
            weapon_slot_selected: fld38,
            weapon_ability_selected: fld39,
        };
        proof {
            lemma_subrange_concat(buf@, pos + 0, pos + 40, pos + 80);
            lemma_subrange_concat(buf@, pos + 0, pos + 20, pos + 40);
            lemma_subrange_concat(buf@, pos + 0, pos + 10, pos + 20);
            lemma_subrange_concat(buf@, pos + 0, pos + 4, pos + 10);
            lemma_subrange_concat(buf@, pos + 0, pos + 2, pos + 4);
            lemma_subrange_concat(buf@, pos + 4, pos + 6, pos + 10);
            lemma_subrange_concat(buf@, pos + 6, pos + 8, pos + 10);
            lemma_subrange_concat(buf@, pos + 10, pos + 14, pos + 20);
            lemma_subrange_concat(buf@, pos + 10, pos + 12, pos + 14);
            lemma_subrange_concat(buf@, pos + 14, pos + 16, pos + 20);
            lemma_subrange_concat(buf@, pos + 16, pos + 18, pos + 20);
            lemma_subrange_concat(buf@, pos + 20, pos + 30, pos + 40);
            lemma_subrange_concat(buf@, pos + 20, pos + 24, pos + 30);
            lemma_subrange_concat(buf@, pos + 20, pos + 22, pos + 24);
            lemma_subrange_concat(buf@, pos + 24, pos + 26, pos + 30);
            lemma_subrange_concat(buf@, pos + 26, pos + 28, pos + 30);
            lemma_subrange_concat(buf@, pos + 30, pos + 34, pos + 40);
            lemma_subrange_concat(buf@, pos + 30, pos + 32, pos + 34);
            lemma_subrange_concat(buf@, pos + 34, pos + 36, pos + 40);
            lemma_subrange_concat(buf@, pos + 36, pos + 38, pos + 40);
            lemma_subrange_concat(buf@, pos + 40, pos + 60, pos + 80);
            lemma_subrange_concat(buf@, pos + 40, pos + 50, pos + 60);
            lemma_subrange_concat(buf@, pos + 40, pos + 44, pos + 50);
            lemma_subrange_concat(buf@, pos + 40, pos + 42, pos + 44);
            lemma_subrange_concat(buf@, pos + 44, pos + 46, pos + 50);
            lemma_subrange_concat(buf@, pos + 46, pos + 48, pos + 50);
            lemma_subrange_concat(buf@, pos + 50, pos + 54, pos + 60);
            lemma_subrange_concat(buf@, pos + 50, pos + 52, pos + 54);
            lemma_subrange_concat(buf@, pos + 54, pos + 56, pos + 60);
            lemma_subrange_concat(buf@, pos + 56, pos + 58, pos + 60);
            lemma_subrange_concat(buf@, pos + 60, pos + 70, pos + 80);
            lemma_subrange_concat(buf@, pos + 60, pos + 64, pos + 70);
            lemma_subrange_concat(buf@, pos + 60, pos + 62, pos + 64);
            lemma_subrange_concat(buf@, pos + 64, pos + 66, pos + 70);
            lemma_subrange_concat(buf@, pos + 66, pos + 68, pos + 70);
            lemma_subrange_concat(buf@, pos + 70, pos + 74, pos + 80);
            lemma_subrange_concat(buf@, pos + 70, pos + 72, pos + 74);
            lemma_subrange_concat(buf@, pos + 74, pos + 76, pos + 80);
            lemma_subrange_concat(buf@, pos + 76, pos + 78, pos + 80);
        }
        v
    }

    fn encode(&self, out: &mut Vec<u8>) {
        let mut b0 = encoded(&self.helmet);
        let mut b1 = encoded(&self.armor);
        let mut b2 = encoded(&self.shield);
        let mut b3 = encoded(&self.gloves);
        let mut b4 = encoded(&self.left_ring);
        let mut b5 = encoded(&self.right_ring);
        let mut b6 = encoded(&self.amulet);
        let mut b7 = encoded(&self.belt);
        let mut b8 = encoded(&self.boots);
        let mut b9 = encoded(&self.weapon_1);
        let mut b10 = encoded(&self.weapon_2);
        let mut b11 = encoded(&self.weapon_3);
        let mut b12 = encoded(&self.weapon_4);
        let mut b13 = encoded(&self.quiver_1);
        let mut b14 = encoded(&self.quiver_2);
        let mut b15 = encoded(&self.quiver_3);
        let mut b16 = encoded(&self.quiver_4);
        let mut b17 = encoded(&self.cloak);
        let mut b18 = encoded(&self.quick_item_1);
        let mut b19 = encoded(&self.quick_item_2);
        let mut b20 = encoded(&self.quick_item_3);
        let mut b21 = encoded(&self.inventory_item_1);
        let mut b22 = encoded(&self.inventory_item_2);
        let mut b23 = encoded(&self.inventory_item_3);
        let mut b24 = encoded(&self.inventory_item_4);
        let mut b25 = encoded(&self.inventory_item_5);
        let mut b26 = encoded(&self.inventory_item_6);
        let mut b27 = encoded(&self.inventory_item_7);
        let mut b28 = encoded(&self.inventory_item_8);
        let mut b29 = encoded(&self.inventory_item_9);
        let mut b30 = encoded(&self.inventory_item_10);
        let mut b31 = encoded(&self.inventory_item_11);
        let mut b32 = encoded(&self.inventory_item_12);
        let mut b33 = encoded(&self.inventory_item_13);
        let mut b34 = encoded(&self.inventory_item_14);
        let mut b35 = encoded(&self.inventory_item_15);
        let mut b36 = encoded(&self.inventory_item_16);
        let mut b37 = encoded(&self.magic_weapon);
        let mut b38 = encoded(&self.weapon_slot_selected);
        let mut b39 = encoded(&self.weapon_ability_selected);
        b38.append(&mut b39);
        b37.append(&mut b38);
        b35.append(&mut b36);
        b35.append(&mut b37);
        b33.append(&mut b34);
        b32.append(&mut b33);
        b30.append(&mut b31);
        b30.append(&mut b32);
        b30.append(&mut b35);
        b28.append(&mut b29);
        b27.append(&mut b28);
        b25.append(&mut b26);
        b25.append(&mut b27);
        b23.append(&mut b24);
        b22.append(&mut b23);
        b20.append(&mut b21);
        b20.append(&mut b22);
        b20.append(&mut b25);
        b20.append(&mut b30);
        b18.append(&mut b19);
        b17.append(&mut b18);
        b15.append(&mut b16);
        b15.append(&mut b17);
        b13.append(&mut b14);
        b12.append(&mut b13);
        b10.append(&mut b11);
        b10.append(&mut b12);
        b10.append(&mut b15);
        b8.append(&mut b9);
        b7.append(&mut b8);
        b5.append(&mut b6);
        b5.append(&mut b7);
        b3.append(&mut b4);
        b2.append(&mut b3);
        b0.append(&mut b1);
        b0.append(&mut b2);
        b0.append(&mut b5);
        b0.append(&mut b10);
        b0.append(&mut b20);
        out.append(&mut b0);
    }
}

impl Model for ItemReferenceTable {
    open spec fn spec_parses(buffer: Seq<u8>) -> bool {
        ItemReferenceTable::width() <= buffer.len()
    }

    open spec fn parsed_from(&self, buffer: Seq<u8>) -> bool {
        record_parsed(*self, buffer, 0)
    }

    open spec fn spec_writable(&self) -> bool {
        self.wf()
    }

    fn writable(&self) -> (b: bool) {
        self.check_wf()
    }

    open spec fn spec_bytes(&self) -> Seq<u8> {
        self.enc()
    }

    fn parse(buffer: &[u8]) -> (r: Option<Self>) {
        read_at::<ItemReferenceTable>(buffer, 0)
    }

    fn to_bytes(&self) -> (b: Vec<u8>) {
        encoded(self)
    }
}

impl Model for ItemSlots {
    open spec fn spec_parses(buffer: Seq<u8>) -> bool {
        ItemSlots::width() <= buffer.len()
    }

    open spec fn parsed_from(&self, buffer: Seq<u8>) -> bool {
        record_parsed(*self, buffer, 0)
    }

    open spec fn spec_writable(&self) -> bool {
        self.wf()
    }

    fn writable(&self) -> (b: bool) {
        self.check_wf()
    }

    open spec fn spec_bytes(&self) -> Seq<u8> {
        self.enc()
    }

    fn parse(buffer: &[u8]) -> (r: Option<Self>) {
        read_at::<ItemSlots>(buffer, 0)
    }

    fn to_bytes(&self) -> (b: Vec<u8>) {
        encoded(self)
    }
}

} // verus!
