//! Dialogs (DLG V1.0) read as packed tables.
use vstd::prelude::*;

use crate::common::binary::{Codec, lemma_subrange_concat, lemma_concat_peel, encoded, record_parsed, section_parsed};
use crate::common::fixed_char_array::FixedCharSlice;
use crate::resources::utils::{copy_buff_to_struct, copy_transmute_buff};

verus! {

/// https://gibberlings3.github.io/iesdp/file_formats/ie_formats/dlg_v1.htm#formDLGV1_Header
#[derive(Debug, Clone, PartialEq)]
pub struct DialogHeader {
    pub signature: FixedCharSlice<4>,
    pub version: FixedCharSlice<4>,
    pub count_of_state_tables: i32,
    pub offset_to_state_table: i32,
    pub count_of_transitions: i32,
    pub offset_to_transition_table: i32,
    pub offset_to_state_trigger_table: i32,
    pub count_of_state_triggers: i32,
    pub offset_to_transition_trigger_table: i32,
    pub count_of_transition_triggers: i32,
    pub offset_to_action_table: i32,
    pub count_of_action_tables: i32,
    pub flags: FixedCharSlice<4>,
}

impl DialogHeader {
    /// Encoding of the fields 0 to 12, in order.
    pub open spec fn bytes_0_13(&self) -> Seq<u8> {
        self.bytes_0_6() + self.bytes_6_13()
    }

    /// Encoding of the fields 0 to 5, in order.
    pub open spec fn bytes_0_6(&self) -> Seq<u8> {
        self.bytes_0_3() + self.bytes_3_6()
    }

    /// Encoding of the fields 0 to 2, in order.
    pub open spec fn bytes_0_3(&self) -> Seq<u8> {
        self.signature.enc() + self.bytes_1_3()
    }

    /// Encoding of the fields 1 to 2, in order.
    pub open spec fn bytes_1_3(&self) -> Seq<u8> {
        self.version.enc() + self.count_of_state_tables.enc()
    }

    /// Encoding of the fields 3 to 5, in order.
    pub open spec fn bytes_3_6(&self) -> Seq<u8> {
        self.offset_to_state_table.enc() + self.bytes_4_6()
    }

    /// Encoding of the fields 4 to 5, in order.
    pub open spec fn bytes_4_6(&self) -> Seq<u8> {
        self.count_of_transitions.enc() + self.offset_to_transition_table.enc()
    }

    /// Encoding of the fields 6 to 12, in order.
    pub open spec fn bytes_6_13(&self) -> Seq<u8> {
        self.bytes_6_9() + self.bytes_9_13()
    }

    /// Encoding of the fields 6 to 8, in order.
    pub open spec fn bytes_6_9(&self) -> Seq<u8> {
        self.offset_to_state_trigger_table.enc() + self.bytes_7_9()
    }

    /// Encoding of the fields 7 to 8, in order.
    pub open spec fn bytes_7_9(&self) -> Seq<u8> {
        self.count_of_state_triggers.enc() + self.offset_to_transition_trigger_table.enc()
    }

    /// Encoding of the fields 9 to 12, in order.
    pub open spec fn bytes_9_13(&self) -> Seq<u8> {
        self.bytes_9_11() + self.bytes_11_13()
    }

    /// Encoding of the fields 9 to 10, in order.
    pub open spec fn bytes_9_11(&self) -> Seq<u8> {
        self.count_of_transition_triggers.enc() + self.offset_to_action_table.enc()
    }

    /// Encoding of the fields 11 to 12, in order.
    pub open spec fn bytes_11_13(&self) -> Seq<u8> {
        self.count_of_action_tables.enc() + self.flags.enc()
    }
}

impl Codec for DialogHeader {
    open spec fn width() -> nat {
        52
    }

    open spec fn enc(&self) -> Seq<u8> {
        self.bytes_0_13()
    }

    open spec fn wf(&self) -> bool {
        true
    }

    open spec fn same(&self, other: &Self) -> bool {
        &&& self.signature.same(&other.signature)
        &&& self.version.same(&other.version)
        &&& self.count_of_state_tables == other.count_of_state_tables
        &&& self.offset_to_state_table == other.offset_to_state_table
        &&& self.count_of_transitions == other.count_of_transitions
        &&& self.offset_to_transition_table == other.offset_to_transition_table
        &&& self.offset_to_state_trigger_table == other.offset_to_state_trigger_table
        &&& self.count_of_state_triggers == other.count_of_state_triggers
        &&& self.offset_to_transition_trigger_table == other.offset_to_transition_trigger_table
        &&& self.count_of_transition_triggers == other.count_of_transition_triggers
        &&& self.offset_to_action_table == other.offset_to_action_table
        &&& self.count_of_action_tables == other.count_of_action_tables
        &&& self.flags.same(&other.flags)
    }

    fn byte_width() -> (n: usize) {
        52
    }

    fn check_wf(&self) -> (b: bool) {
        true
    }

    proof fn lemma_enc_len(&self) {
        self.signature.lemma_enc_len();
        self.version.lemma_enc_len();
        self.count_of_state_tables.lemma_enc_len();
        self.offset_to_state_table.lemma_enc_len();
        self.count_of_transitions.lemma_enc_len();
        self.offset_to_transition_table.lemma_enc_len();
        self.offset_to_state_trigger_table.lemma_enc_len();
        self.count_of_state_triggers.lemma_enc_len();
        self.offset_to_transition_trigger_table.lemma_enc_len();
        self.count_of_transition_triggers.lemma_enc_len();
        self.offset_to_action_table.lemma_enc_len();
        self.count_of_action_tables.lemma_enc_len();
        self.flags.lemma_enc_len();
    }

    proof fn lemma_enc_injective(&self, other: &Self) {
        self.signature.lemma_enc_len();
        self.version.lemma_enc_len();
        self.count_of_state_tables.lemma_enc_len();
        self.offset_to_state_table.lemma_enc_len();
        self.count_of_transitions.lemma_enc_len();
        self.offset_to_transition_table.lemma_enc_len();
        self.offset_to_state_trigger_table.lemma_enc_len();
        self.count_of_state_triggers.lemma_enc_len();
        self.offset_to_transition_trigger_table.lemma_enc_len();
        self.count_of_transition_triggers.lemma_enc_len();
        self.offset_to_action_table.lemma_enc_len();
        self.count_of_action_tables.lemma_enc_len();
        self.flags.lemma_enc_len();
        other.signature.lemma_enc_len();
        other.version.lemma_enc_len();
        other.count_of_state_tables.lemma_enc_len();
        other.offset_to_state_table.lemma_enc_len();
        other.count_of_transitions.lemma_enc_len();
        other.offset_to_transition_table.lemma_enc_len();
        other.offset_to_state_trigger_table.lemma_enc_len();
        other.count_of_state_triggers.lemma_enc_len();
        other.offset_to_transition_trigger_table.lemma_enc_len();
        other.count_of_transition_triggers.lemma_enc_len();
        other.offset_to_action_table.lemma_enc_len();
        other.count_of_action_tables.lemma_enc_len();
        other.flags.lemma_enc_len();
        lemma_concat_peel(self.bytes_0_6(), self.bytes_6_13(), other.bytes_0_6(), other.bytes_6_13());
        lemma_concat_peel(self.bytes_0_3(), self.bytes_3_6(), other.bytes_0_3(), other.bytes_3_6());
        lemma_concat_peel(self.signature.enc(), self.bytes_1_3(), other.signature.enc(), other.bytes_1_3());
        lemma_concat_peel(self.version.enc(), self.count_of_state_tables.enc(), other.version.enc(), other.count_of_state_tables.enc());
        lemma_concat_peel(self.offset_to_state_table.enc(), self.bytes_4_6(), other.offset_to_state_table.enc(), other.bytes_4_6());
        lemma_concat_peel(self.count_of_transitions.enc(), self.offset_to_transition_table.enc(), other.count_of_transitions.enc(), other.offset_to_transition_table.enc());
        lemma_concat_peel(self.bytes_6_9(), self.bytes_9_13(), other.bytes_6_9(), other.bytes_9_13());
        lemma_concat_peel(self.offset_to_state_trigger_table.enc(), self.bytes_7_9(), other.offset_to_state_trigger_table.enc(), other.bytes_7_9());
        lemma_concat_peel(self.count_of_state_triggers.enc(), self.offset_to_transition_trigger_table.enc(), other.count_of_state_triggers.enc(), other.offset_to_transition_trigger_table.enc());
        lemma_concat_peel(self.bytes_9_11(), self.bytes_11_13(), other.bytes_9_11(), other.bytes_11_13());
        lemma_concat_peel(self.count_of_transition_triggers.enc(), self.offset_to_action_table.enc(), other.count_of_transition_triggers.enc(), other.offset_to_action_table.enc());
        lemma_concat_peel(self.count_of_action_tables.enc(), self.flags.enc(), other.count_of_action_tables.enc(), other.flags.enc());
        self.signature.lemma_enc_injective(&other.signature);
        self.version.lemma_enc_injective(&other.version);
        self.count_of_state_tables.lemma_enc_injective(&other.count_of_state_tables);
        self.offset_to_state_table.lemma_enc_injective(&other.offset_to_state_table);
        self.count_of_transitions.lemma_enc_injective(&other.count_of_transitions);
        self.offset_to_transition_table.lemma_enc_injective(&other.offset_to_transition_table);
        self.offset_to_state_trigger_table.lemma_enc_injective(&other.offset_to_state_trigger_table);
        self.count_of_state_triggers.lemma_enc_injective(&other.count_of_state_triggers);
        self.offset_to_transition_trigger_table.lemma_enc_injective(&other.offset_to_transition_trigger_table);
        self.count_of_transition_triggers.lemma_enc_injective(&other.count_of_transition_triggers);
        self.offset_to_action_table.lemma_enc_injective(&other.offset_to_action_table);
        self.count_of_action_tables.lemma_enc_injective(&other.count_of_action_tables);
        self.flags.lemma_enc_injective(&other.flags);
    }

    fn decode(buf: &[u8], pos: usize) -> (v: Self) {
        let len = buf.len();
        let fld0 = <FixedCharSlice<4>>::decode(buf, pos + 0);
        let fld1 = <FixedCharSlice<4>>::decode(buf, pos + 4);
        let fld2 = i32::decode(buf, pos + 8);
        let fld3 = i32::decode(buf, pos + 12);
        let fld4 = i32::decode(buf, pos + 16);
        let fld5 = i32::decode(buf, pos + 20);
        let fld6 = i32::decode(buf, pos + 24);
        let fld7 = i32::decode(buf, pos + 28);
        let fld8 = i32::decode(buf, pos + 32);
        let fld9 = i32::decode(buf, pos + 36);
        let fld10 = i32::decode(buf, pos + 40);
        let fld11 = i32::decode(buf, pos + 44);
        let fld12 = <FixedCharSlice<4>>::decode(buf, pos + 48);
        let v = DialogHeader {
            signature: fld0,
            version: fld1,
            count_of_state_tables: fld2,
            offset_to_state_table: fld3,
            count_of_transitions: fld4,
            offset_to_transition_table: fld5,
            offset_to_state_trigger_table: fld6,
            count_of_state_triggers: fld7,
            offset_to_transition_trigger_table: fld8,
            count_of_transition_triggers: fld9,
            offset_to_action_table: fld10,
            count_of_action_tables: fld11,
            flags: fld12,
        };
        proof {
            lemma_subrange_concat(buf@, pos + 0, pos + 24, pos + 52);
            lemma_subrange_concat(buf@, pos + 0, pos + 12, pos + 24);
            lemma_subrange_concat(buf@, pos + 0, pos + 4, pos + 12);
            lemma_subrange_concat(buf@, pos + 4, pos + 8, pos + 12);
            lemma_subrange_concat(buf@, pos + 12, pos + 16, pos + 24);
            lemma_subrange_concat(buf@, pos + 16, pos + 20, pos + 24);
            lemma_subrange_concat(buf@, pos + 24, pos + 36, pos + 52);
            lemma_subrange_concat(buf@, pos + 24, pos + 28, pos + 36);
            lemma_subrange_concat(buf@, pos + 28, pos + 32, pos + 36);
            lemma_subrange_concat(buf@, pos + 36, pos + 44, pos + 52);
            lemma_subrange_concat(buf@, pos + 36, pos + 40, pos + 44);
            lemma_subrange_concat(buf@, pos + 44, pos + 48, pos + 52);
        }
        v
    }

    fn encode(&self, out: &mut Vec<u8>) {
        let mut b0 = encoded(&self.signature);
        let mut b1 = encoded(&self.version);
        let mut b2 = encoded(&self.count_of_state_tables);
        let mut b3 = encoded(&self.offset_to_state_table);
        let mut b4 = encoded(&self.count_of_transitions);
        let mut b5 = encoded(&self.offset_to_transition_table);
        let mut b6 = encoded(&self.offset_to_state_trigger_table);
        let mut b7 = encoded(&self.count_of_state_triggers);
        let mut b8 = encoded(&self.offset_to_transition_trigger_table);
        let mut b9 = encoded(&self.count_of_transition_triggers);
        let mut b10 = encoded(&self.offset_to_action_table);
        let mut b11 = encoded(&self.count_of_action_tables);
        let mut b12 = encoded(&self.flags);
        b11.append(&mut b12);
        b9.append(&mut b10);
        b9.append(&mut b11);
        b7.append(&mut b8);
        b6.append(&mut b7);
        b6.append(&mut b9);
        b4.append(&mut b5);
        b3.append(&mut b4);
        b1.append(&mut b2);
        b0.append(&mut b1);
        b0.append(&mut b3);
        b0.append(&mut b6);
        out.append(&mut b0);
    }
}

/// https://gibberlings3.github.io/iesdp/file_formats/ie_formats/dlg_v1.htm#formDLGV1_State
#[derive(Debug, Clone, PartialEq)]
pub struct StateTable {
    pub actor_response_text: FixedCharSlice<4>,
    pub index_of_the_first_transition: u32,
    pub count_of_transitions: u32,
    pub index_of_state_trigger: u32,
}

impl StateTable {
    /// Encoding of the fields 0 to 3, in order.
    pub open spec fn bytes_0_4(&self) -> Seq<u8> {
        self.bytes_0_2() + self.bytes_2_4()
    }

    /// Encoding of the fields 0 to 1, in order.
    pub open spec fn bytes_0_2(&self) -> Seq<u8> {
        self.actor_response_text.enc() + self.index_of_the_first_transition.enc()
    }

    /// Encoding of the fields 2 to 3, in order.
    pub open spec fn bytes_2_4(&self) -> Seq<u8> {
        self.count_of_transitions.enc() + self.index_of_state_trigger.enc()
    }
}

impl Codec for StateTable {
    open spec fn width() -> nat {
        16
    }

    open spec fn enc(&self) -> Seq<u8> {
        self.bytes_0_4()
    }

    open spec fn wf(&self) -> bool {
        true
    }

    open spec fn same(&self, other: &Self) -> bool {
        &&& self.actor_response_text.same(&other.actor_response_text)
        &&& self.index_of_the_first_transition == other.index_of_the_first_transition
        &&& self.count_of_transitions == other.count_of_transitions
        &&& self.index_of_state_trigger == other.index_of_state_trigger
    }

    fn byte_width() -> (n: usize) {
        16
    }

    fn check_wf(&self) -> (b: bool) {
        true
    }

    proof fn lemma_enc_len(&self) {
        self.actor_response_text.lemma_enc_len();
        self.index_of_the_first_transition.lemma_enc_len();
        self.count_of_transitions.lemma_enc_len();
        self.index_of_state_trigger.lemma_enc_len();
    }

    proof fn lemma_enc_injective(&self, other: &Self) {
        self.actor_response_text.lemma_enc_len();
        self.index_of_the_first_transition.lemma_enc_len();
        self.count_of_transitions.lemma_enc_len();
        self.index_of_state_trigger.lemma_enc_len();
        other.actor_response_text.lemma_enc_len();
        other.index_of_the_first_transition.lemma_enc_len();
        other.count_of_transitions.lemma_enc_len();
        other.index_of_state_trigger.lemma_enc_len();
        lemma_concat_peel(self.bytes_0_2(), self.bytes_2_4(), other.bytes_0_2(), other.bytes_2_4());
        lemma_concat_peel(self.actor_response_text.enc(), self.index_of_the_first_transition.enc(), other.actor_response_text.enc(), other.index_of_the_first_transition.enc());
        lemma_concat_peel(self.count_of_transitions.enc(), self.index_of_state_trigger.enc(), other.count_of_transitions.enc(), other.index_of_state_trigger.enc());
        self.actor_response_text.lemma_enc_injective(&other.actor_response_text);
        self.index_of_the_first_transition.lemma_enc_injective(&other.index_of_the_first_transition);
        self.count_of_transitions.lemma_enc_injective(&other.count_of_transitions);
        self.index_of_state_trigger.lemma_enc_injective(&other.index_of_state_trigger);
    }

    fn decode(buf: &[u8], pos: usize) -> (v: Self) {
        let len = buf.len();
        let fld0 = <FixedCharSlice<4>>::decode(buf, pos + 0);
        let fld1 = u32::decode(buf, pos + 4);
        let fld2 = u32::decode(buf, pos + 8);
        let fld3 = u32::decode(buf, pos + 12);
        let v = StateTable {
            actor_response_text: fld0,
            index_of_the_first_transition: fld1,
            count_of_transitions: fld2,
            index_of_state_trigger: fld3,
        };
        proof {
            lemma_subrange_concat(buf@, pos + 0, pos + 8, pos + 16);
            lemma_subrange_concat(buf@, pos + 0, pos + 4, pos + 8);
            lemma_subrange_concat(buf@, pos + 8, pos + 12, pos + 16);
        }
        v
    }

    fn encode(&self, out: &mut Vec<u8>) {
        let mut b0 = encoded(&self.actor_response_text);
        let mut b1 = encoded(&self.index_of_the_first_transition);
        let mut b2 = encoded(&self.count_of_transitions);
        let mut b3 = encoded(&self.index_of_state_trigger);
        b2.append(&mut b3);
        b0.append(&mut b1);
        b0.append(&mut b2);
        out.append(&mut b0);
    }
}

/// https://gibberlings3.github.io/iesdp/file_formats/ie_formats/dlg_v1.htm#formDLGV1_Transition
#[derive(Debug, Clone, PartialEq)]
pub struct Transition {
    pub flags: FixedCharSlice<4>,
    pub player_character_text: FixedCharSlice<4>,
    pub journal_text: FixedCharSlice<4>,
    pub index_of_transitions_trigger: u32,
    pub index_of_transitions_action_table: u32,
    pub resource_name: FixedCharSlice<8>,
    pub index_of_the_next_state: u32,
}

impl Transition {
    /// Encoding of the fields 0 to 6, in order.
    pub open spec fn bytes_0_7(&self) -> Seq<u8> {
        self.bytes_0_3() + self.bytes_3_7()
    }

    /// Encoding of the fields 0 to 2, in order.
    pub open spec fn bytes_0_3(&self) -> Seq<u8> {
        self.flags.enc() + self.bytes_1_3()
    }

    /// Encoding of the fields 1 to 2, in order.
    pub open spec fn bytes_1_3(&self) -> Seq<u8> {
        self.player_character_text.enc() + self.journal_text.enc()
    }

    /// Encoding of the fields 3 to 6, in order.
    pub open spec fn bytes_3_7(&self) -> Seq<u8> {
        self.bytes_3_5() + self.bytes_5_7()
    }

    /// Encoding of the fields 3 to 4, in order.
    pub open spec fn bytes_3_5(&self) -> Seq<u8> {
        self.index_of_transitions_trigger.enc() + self.index_of_transitions_action_table.enc()
    }

    /// Encoding of the fields 5 to 6, in order.
    pub open spec fn bytes_5_7(&self) -> Seq<u8> {
        self.resource_name.enc() + self.index_of_the_next_state.enc()
    }
}

impl Codec for Transition {
    open spec fn width() -> nat {
        32
    }

    open spec fn enc(&self) -> Seq<u8> {
        self.bytes_0_7()
    }

    open spec fn wf(&self) -> bool {
        true
    }

    open spec fn same(&self, other: &Self) -> bool {
        &&& self.flags.same(&other.flags)
        &&& self.player_character_text.same(&other.player_character_text)
        &&& self.journal_text.same(&other.journal_text)
        &&& self.index_of_transitions_trigger == other.index_of_transitions_trigger
        &&& self.index_of_transitions_action_table == other.index_of_transitions_action_table
        &&& self.resource_name.same(&other.resource_name)
        &&& self.index_of_the_next_state == other.index_of_the_next_state
    }

    fn byte_width() -> (n: usize) {
        32
    }

    fn check_wf(&self) -> (b: bool) {
        true
    }

    proof fn lemma_enc_len(&self) {
        self.flags.lemma_enc_len();
        self.player_character_text.lemma_enc_len();
        self.journal_text.lemma_enc_len();
        self.index_of_transitions_trigger.lemma_enc_len();
        self.index_of_transitions_action_table.lemma_enc_len();
        self.resource_name.lemma_enc_len();
        self.index_of_the_next_state.lemma_enc_len();
    }

    proof fn lemma_enc_injective(&self, other: &Self) {
        self.flags.lemma_enc_len();
        self.player_character_text.lemma_enc_len();
        self.journal_text.lemma_enc_len();
        self.index_of_transitions_trigger.lemma_enc_len();
        self.index_of_transitions_action_table.lemma_enc_len();
        self.resource_name.lemma_enc_len();
        self.index_of_the_next_state.lemma_enc_len();
        other.flags.lemma_enc_len();
        other.player_character_text.lemma_enc_len();
        other.journal_text.lemma_enc_len();
        other.index_of_transitions_trigger.lemma_enc_len();
        other.index_of_transitions_action_table.lemma_enc_len();
        other.resource_name.lemma_enc_len();
        other.index_of_the_next_state.lemma_enc_len();
        lemma_concat_peel(self.bytes_0_3(), self.bytes_3_7(), other.bytes_0_3(), other.bytes_3_7());
        lemma_concat_peel(self.flags.enc(), self.bytes_1_3(), other.flags.enc(), other.bytes_1_3());
        lemma_concat_peel(self.player_character_text.enc(), self.journal_text.enc(), other.player_character_text.enc(), other.journal_text.enc());
        lemma_concat_peel(self.bytes_3_5(), self.bytes_5_7(), other.bytes_3_5(), other.bytes_5_7());
        lemma_concat_peel(self.index_of_transitions_trigger.enc(), self.index_of_transitions_action_table.enc(), other.index_of_transitions_trigger.enc(), other.index_of_transitions_action_table.enc());
        lemma_concat_peel(self.resource_name.enc(), self.index_of_the_next_state.enc(), other.resource_name.enc(), other.index_of_the_next_state.enc());
        self.flags.lemma_enc_injective(&other.flags);
        self.player_character_text.lemma_enc_injective(&other.player_character_text);
        self.journal_text.lemma_enc_injective(&other.journal_text);
        self.index_of_transitions_trigger.lemma_enc_injective(&other.index_of_transitions_trigger);
        self.index_of_transitions_action_table.lemma_enc_injective(&other.index_of_transitions_action_table);
        self.resource_name.lemma_enc_injective(&other.resource_name);
        self.index_of_the_next_state.lemma_enc_injective(&other.index_of_the_next_state);
    }

    fn decode(buf: &[u8], pos: usize) -> (v: Self) {
        let len = buf.len();
        let fld0 = <FixedCharSlice<4>>::decode(buf, pos + 0);
        let fld1 = <FixedCharSlice<4>>::decode(buf, pos + 4);
        let fld2 = <FixedCharSlice<4>>::decode(buf, pos + 8);
        let fld3 = u32::decode(buf, pos + 12);
        let fld4 = u32::decode(buf, pos + 16);
        let fld5 = <FixedCharSlice<8>>::decode(buf, pos + 20);
        let fld6 = u32::decode(buf, pos + 28);
        let v = Transition {
            flags: fld0,
            player_character_text: fld1,
            journal_text: fld2,
            index_of_transitions_trigger: fld3,
            index_of_transitions_action_table: fld4,
            resource_name: fld5,
            index_of_the_next_state: fld6,
        };
        proof {
            lemma_subrange_concat(buf@, pos + 0, pos + 12, pos + 32);
            lemma_subrange_concat(buf@, pos + 0, pos + 4, pos + 12);
            lemma_subrange_concat(buf@, pos + 4, pos + 8, pos + 12);
            lemma_subrange_concat(buf@, pos + 12, pos + 20, pos + 32);
            lemma_subrange_concat(buf@, pos + 12, pos + 16, pos + 20);
            lemma_subrange_concat(buf@, pos + 20, pos + 28, pos + 32);
        }
        v
    }

    fn encode(&self, out: &mut Vec<u8>) {
        let mut b0 = encoded(&self.flags);
        let mut b1 = encoded(&self.player_character_text);
        let mut b2 = encoded(&self.journal_text);
        let mut b3 = encoded(&self.index_of_transitions_trigger);
        let mut b4 = encoded(&self.index_of_transitions_action_table);
        let mut b5 = encoded(&self.resource_name);
        let mut b6 = encoded(&self.index_of_the_next_state);
        b5.append(&mut b6);
        b3.append(&mut b4);
        b3.append(&mut b5);
        b1.append(&mut b2);
        b0.append(&mut b1);
        b0.append(&mut b3);
        out.append(&mut b0);
    }
}

/// https://gibberlings3.github.io/iesdp/file_formats/ie_formats/dlg_v1.htm#formDLGV1_StateTrigger
#[derive(Debug, Clone, PartialEq)]
pub struct StateTrigger {
    pub offset_to_start_of_file: u32,
    pub length_in_bytes: u32,
}

impl StateTrigger {
    /// Encoding of the fields 0 to 1, in order.
    pub open spec fn bytes_0_2(&self) -> Seq<u8> {
        self.offset_to_start_of_file.enc() + self.length_in_bytes.enc()
    }
}

impl Codec for StateTrigger {
    open spec fn width() -> nat {
        8
    }

    open spec fn enc(&self) -> Seq<u8> {
        self.bytes_0_2()
    }

    open spec fn wf(&self) -> bool {
        true
    }

    open spec fn same(&self, other: &Self) -> bool {
        &&& self.offset_to_start_of_file == other.offset_to_start_of_file
        &&& self.length_in_bytes == other.length_in_bytes
    }

    fn byte_width() -> (n: usize) {
        8
    }

    fn check_wf(&self) -> (b: bool) {
        true
    }

    proof fn lemma_enc_len(&self) {
        self.offset_to_start_of_file.lemma_enc_len();
        self.length_in_bytes.lemma_enc_len();
    }

    proof fn lemma_enc_injective(&self, other: &Self) {
        self.offset_to_start_of_file.lemma_enc_len();
        self.length_in_bytes.lemma_enc_len();
        other.offset_to_start_of_file.lemma_enc_len();
        other.length_in_bytes.lemma_enc_len();
        lemma_concat_peel(self.offset_to_start_of_file.enc(), self.length_in_bytes.enc(), other.offset_to_start_of_file.enc(), other.length_in_bytes.enc());
        self.offset_to_start_of_file.lemma_enc_injective(&other.offset_to_start_of_file);
        self.length_in_bytes.lemma_enc_injective(&other.length_in_bytes);
    }

    fn decode(buf: &[u8], pos: usize) -> (v: Self) {
        let len = buf.len();
        let fld0 = u32::decode(buf, pos + 0);
        let fld1 = u32::decode(buf, pos + 4);
        let v = StateTrigger {
            offset_to_start_of_file: fld0,
            length_in_bytes: fld1,
        };
        proof {
            lemma_subrange_concat(buf@, pos + 0, pos + 4, pos + 8);
        }
        v
    }

    fn encode(&self, out: &mut Vec<u8>) {
        let mut b0 = encoded(&self.offset_to_start_of_file);
        let mut b1 = encoded(&self.length_in_bytes);
        b0.append(&mut b1);
        out.append(&mut b0);
    }
}

/// https://gibberlings3.github.io/iesdp/file_formats/ie_formats/dlg_v1.htm#formDLGV1_TransTrigger
#[derive(Debug, Clone, PartialEq)]
pub struct TransitionTrigger {
    pub offset_to_start_of_file: u32,
    pub length_in_bytes: u32,
}

impl TransitionTrigger {
    /// Encoding of the fields 0 to 1, in order.
    pub open spec fn bytes_0_2(&self) -> Seq<u8> {
        self.offset_to_start_of_file.enc() + self.length_in_bytes.enc()
    }
}

impl Codec for TransitionTrigger {
    open spec fn width() -> nat {
        8
    }

    open spec fn enc(&self) -> Seq<u8> {
        self.bytes_0_2()
    }

    open spec fn wf(&self) -> bool {
        true
    }

    open spec fn same(&self, other: &Self) -> bool {
        &&& self.offset_to_start_of_file == other.offset_to_start_of_file
        &&& self.length_in_bytes == other.length_in_bytes
    }

    fn byte_width() -> (n: usize) {
        8
    }

    fn check_wf(&self) -> (b: bool) {
        true
    }

    proof fn lemma_enc_len(&self) {
        self.offset_to_start_of_file.lemma_enc_len();
        self.length_in_bytes.lemma_enc_len();
    }

    proof fn lemma_enc_injective(&self, other: &Self) {
        self.offset_to_start_of_file.lemma_enc_len();
        self.length_in_bytes.lemma_enc_len();
        other.offset_to_start_of_file.lemma_enc_len();
        other.length_in_bytes.lemma_enc_len();
        lemma_concat_peel(self.offset_to_start_of_file.enc(), self.length_in_bytes.enc(), other.offset_to_start_of_file.enc(), other.length_in_bytes.enc());
        self.offset_to_start_of_file.lemma_enc_injective(&other.offset_to_start_of_file);
        self.length_in_bytes.lemma_enc_injective(&other.length_in_bytes);
    }

    fn decode(buf: &[u8], pos: usize) -> (v: Self) {
        let len = buf.len();
        let fld0 = u32::decode(buf, pos + 0);
        let fld1 = u32::decode(buf, pos + 4);
        let v = TransitionTrigger {
            offset_to_start_of_file: fld0,
            length_in_bytes: fld1,
        };
        proof {
            lemma_subrange_concat(buf@, pos + 0, pos + 4, pos + 8);
        }
        v
    }

    fn encode(&self, out: &mut Vec<u8>) {
        let mut b0 = encoded(&self.offset_to_start_of_file);
        let mut b1 = encoded(&self.length_in_bytes);
        b0.append(&mut b1);
        out.append(&mut b0);
    }
}

/// https://gibberlings3.github.io/iesdp/file_formats/ie_formats/dlg_v1.htm#formDLGV1_Action
#[derive(Debug, Clone, PartialEq)]
pub struct ActionTable {
    pub offset_to_start_of_file: u32,
    pub length_in_bytes: u32,
}

impl ActionTable {
    /// Encoding of the fields 0 to 1, in order.
    pub open spec fn bytes_0_2(&self) -> Seq<u8> {
        self.offset_to_start_of_file.enc() + self.length_in_bytes.enc()
    }
}

impl Codec for ActionTable {
    open spec fn width() -> nat {
        8
    }

    open spec fn enc(&self) -> Seq<u8> {
        self.bytes_0_2()
    }

    open spec fn wf(&self) -> bool {
        true
    }

    open spec fn same(&self, other: &Self) -> bool {
        &&& self.offset_to_start_of_file == other.offset_to_start_of_file
        &&& self.length_in_bytes == other.length_in_bytes
    }

    fn byte_width() -> (n: usize) {
        8
    }

    fn check_wf(&self) -> (b: bool) {
        true
    }

    proof fn lemma_enc_len(&self) {
        self.offset_to_start_of_file.lemma_enc_len();
        self.length_in_bytes.lemma_enc_len();
    }

    proof fn lemma_enc_injective(&self, other: &Self) {
        self.offset_to_start_of_file.lemma_enc_len();
        self.length_in_bytes.lemma_enc_len();
        other.offset_to_start_of_file.lemma_enc_len();
        other.length_in_bytes.lemma_enc_len();
        lemma_concat_peel(self.offset_to_start_of_file.enc(), self.length_in_bytes.enc(), other.offset_to_start_of_file.enc(), other.length_in_bytes.enc());
        self.offset_to_start_of_file.lemma_enc_injective(&other.offset_to_start_of_file);
        self.length_in_bytes.lemma_enc_injective(&other.length_in_bytes);
    }

    fn decode(buf: &[u8], pos: usize) -> (v: Self) {
        let len = buf.len();
        let fld0 = u32::decode(buf, pos + 0);
        let fld1 = u32::decode(buf, pos + 4);
        let v = ActionTable {
            offset_to_start_of_file: fld0,
            length_in_bytes: fld1,
        };
        proof {
            lemma_subrange_concat(buf@, pos + 0, pos + 4, pos + 8);
        }
        v
    }

    fn encode(&self, out: &mut Vec<u8>) {
        let mut b0 = encoded(&self.offset_to_start_of_file);
        let mut b1 = encoded(&self.length_in_bytes);
        b0.append(&mut b1);
        out.append(&mut b0);
    }
}

/// A count or offset of the header, with a negative value read as 0.
pub open spec fn non_negative(x: i32) -> int {
    if x >= 0 { x as int } else { 0 }
}

/// `v` is the table of `count` entries at `start`, or empty when the table
/// does not lie inside `buffer`.
pub open spec fn table_read<T: Codec>(v: Seq<T>, buffer: Seq<u8>, start: int, count: int) -> bool {
    if start + count * T::width() <= buffer.len() {
        section_parsed(v, buffer, start, count)
    } else {
        v.len() == 0
    }
}

/// A dialog: its header and the five tables it places by offset.
/// <https://gibberlings3.github.io/iesdp/file_formats/ie_formats/dlg_v1.htm>
#[derive(Debug)]
pub struct Dialog {
    pub header: DialogHeader,
    pub state_tables: Vec<StateTable>,
    pub transitions: Vec<Transition>,
    pub state_triggers: Vec<StateTrigger>,
    pub transition_triggers: Vec<TransitionTrigger>,
    pub action_tables: Vec<ActionTable>,
}

/// A count or offset of the header as a `usize`, with a negative value read
/// as 0.
fn to_index(x: i32) -> (r: usize)
    ensures
        r == non_negative(x),
{
    if x >= 0 { x as usize } else { 0 }
}

impl Dialog {
    /// Reads a dialog whose header lies at the start of `buffer`; each table
    /// that does not lie inside `buffer` is read as empty.
    pub fn new(buffer: &[u8]) -> (d: Dialog)
        requires
            DialogHeader::width() <= buffer@.len(),
        ensures
            record_parsed(d.header, buffer@, 0),
            table_read(d.state_tables@, buffer@, non_negative(d.header.offset_to_state_table), non_negative(d.header.count_of_state_tables)),
            table_read(d.transitions@, buffer@, non_negative(d.header.offset_to_transition_table), non_negative(d.header.count_of_transitions)),
            table_read(d.state_triggers@, buffer@, non_negative(d.header.offset_to_state_trigger_table), non_negative(d.header.count_of_state_triggers)),
            table_read(d.transition_triggers@, buffer@, non_negative(d.header.offset_to_transition_trigger_table), non_negative(d.header.count_of_transition_triggers)),
            table_read(d.action_tables@, buffer@, non_negative(d.header.offset_to_action_table), non_negative(d.header.count_of_action_tables)),
    {
        let header = copy_buff_to_struct::<DialogHeader>(buffer, 0);
        let state_tables = copy_transmute_buff::<StateTable>(buffer, to_index(header.offset_to_state_table), to_index(header.count_of_state_tables));
        let transitions = copy_transmute_buff::<Transition>(buffer, to_index(header.offset_to_transition_table), to_index(header.count_of_transitions));
        let state_triggers = copy_transmute_buff::<StateTrigger>(buffer, to_index(header.offset_to_state_trigger_table), to_index(header.count_of_state_triggers));
        let transition_triggers = copy_transmute_buff::<TransitionTrigger>(
            buffer,
            to_index(header.offset_to_transition_trigger_table),
            to_index(header.count_of_transition_triggers),
        );
        let action_tables = copy_transmute_buff::<ActionTable>(buffer, to_index(header.offset_to_action_table), to_index(header.count_of_action_tables));
        Dialog { header, state_tables, transitions, state_triggers, transition_triggers, action_tables }
    }
}

} // verus!
