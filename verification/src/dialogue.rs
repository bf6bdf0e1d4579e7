//! Dialogs (DLG V1.0).
use vstd::prelude::*;

use crate::common::binary::{Codec, check_all_wf, enc_seq, all_wf, seq_same, lemma_subrange_concat, lemma_concat_peel, lemma_enc_seq_len, lemma_enc_seq_injective, decode_vec, encoded, encoded_slice, encode_slice, decoded_at, lemma_decoded_at, append_bytes, record_parsed, section_parsed, read_section, section_ok};
use crate::common::strref::Strref;
use crate::common::Resref;
use crate::common::parsers::write_string;
use crate::common::text::{decode_or_empty, utf8_or_empty};
use crate::model::Model;
use vstd::utf8::encode_utf8;

verus! {

/// https://gibberlings3.github.io/iesdp/file_formats/ie_formats/dlg_v1.htm#formDLGV1_State
#[derive(Debug, Clone, PartialEq)]
pub struct StateTable {
    pub actor_response_text: Strref,
    pub index_of_the_first_transition: u32,
    pub count_of_transitions: u32,
    pub index_of_state_trigger: u32,
}

impl StateTable {
    /// Encoding of the fields 0 to 3, in order.
    pub open spec fn bytes_0_4(&self) -> Seq<u8> {
        self.bytes_0_2() + self.bytes_2_4()
    }

    /// Encoding of the fields 0 to 1, in order.
    pub open spec fn bytes_0_2(&self) -> Seq<u8> {
        self.actor_response_text.enc() + self.index_of_the_first_transition.enc()
    }

    /// Encoding of the fields 2 to 3, in order.
    pub open spec fn bytes_2_4(&self) -> Seq<u8> {
        self.count_of_transitions.enc() + self.index_of_state_trigger.enc()
    }
}

impl Codec for StateTable {
    open spec fn width() -> nat {
        16
    }

    open spec fn enc(&self) -> Seq<u8> {
        self.bytes_0_4()
    }

    open spec fn wf(&self) -> bool {
        true
    }

    open spec fn same(&self, other: &Self) -> bool {
        &&& self.actor_response_text.same(&other.actor_response_text)
        &&& self.index_of_the_first_transition == other.index_of_the_first_transition
        &&& self.count_of_transitions == other.count_of_transitions
        &&& self.index_of_state_trigger == other.index_of_state_trigger
    }

    fn byte_width() -> (n: usize) {
        16
    }

    fn check_wf(&self) -> (b: bool) {
        true
    }

    proof fn lemma_enc_len(&self) {
        self.actor_response_text.lemma_enc_len();
        self.index_of_the_first_transition.lemma_enc_len();
        self.count_of_transitions.lemma_enc_len();
        self.index_of_state_trigger.lemma_enc_len();
    }

    proof fn lemma_enc_injective(&self, other: &Self) {
        self.actor_response_text.lemma_enc_len();
        self.index_of_the_first_transition.lemma_enc_len();
        self.count_of_transitions.lemma_enc_len();
        self.index_of_state_trigger.lemma_enc_len();
        other.actor_response_text.lemma_enc_len();
        other.index_of_the_first_transition.lemma_enc_len();
        other.count_of_transitions.lemma_enc_len();
        other.index_of_state_trigger.lemma_enc_len();
        lemma_concat_peel(self.bytes_0_2(), self.bytes_2_4(), other.bytes_0_2(), other.bytes_2_4());
        lemma_concat_peel(self.actor_response_text.enc(), self.index_of_the_first_transition.enc(), other.actor_response_text.enc(), other.index_of_the_first_transition.enc());
        lemma_concat_peel(self.count_of_transitions.enc(), self.index_of_state_trigger.enc(), other.count_of_transitions.enc(), other.index_of_state_trigger.enc());
        self.actor_response_text.lemma_enc_injective(&other.actor_response_text);
        self.index_of_the_first_transition.lemma_enc_injective(&other.index_of_the_first_transition);
        self.count_of_transitions.lemma_enc_injective(&other.count_of_transitions);
        self.index_of_state_trigger.lemma_enc_injective(&other.index_of_state_trigger);
    }

    fn decode(buf: &[u8], pos: usize) -> (v: Self) {
        let len = buf.len();
        let fld0 = Strref::decode(buf, pos + 0);
        let fld1 = u32::decode(buf, pos + 4);
        let fld2 = u32::decode(buf, pos + 8);
        let fld3 = u32::decode(buf, pos + 12);
        let v = StateTable {
            actor_response_text: fld0,
            index_of_the_first_transition: fld1,
            count_of_transitions: fld2,
            index_of_state_trigger: fld3,
        };
        proof {
            lemma_subrange_concat(buf@, pos + 0, pos + 8, pos + 16);
            lemma_subrange_concat(buf@, pos + 0, pos + 4, pos + 8);
            lemma_subrange_concat(buf@, pos + 8, pos + 12, pos + 16);
        }
        v
    }

    fn encode(&self, out: &mut Vec<u8>) {
        let mut b0 = encoded(&self.actor_response_text);
        let mut b1 = encoded(&self.index_of_the_first_transition);
        let mut b2 = encoded(&self.count_of_transitions);
        let mut b3 = encoded(&self.index_of_state_trigger);
        b2.append(&mut b3);
        b0.append(&mut b1);
        b0.append(&mut b2);
        out.append(&mut b0);
    }
}

/// https://gibberlings3.github.io/iesdp/file_formats/ie_formats/dlg_v1.htm#formDLGV1_Transition
#[derive(Debug, Clone, PartialEq)]
pub struct Transition {
    pub flags: Vec<u8>,
    pub player_character_text: Strref,
    pub journal_text: Strref,
    pub index_of_transitions_trigger: u32,
    pub index_of_transitions_action_table: u32,
    pub resource_name: Resref,
    pub index_of_the_next_state: u32,
}

impl Transition {
    /// Encoding of the fields 0 to 6, in order.
    pub open spec fn bytes_0_7(&self) -> Seq<u8> {
        self.bytes_0_3() + self.bytes_3_7()
    }

    /// Encoding of the fields 0 to 2, in order.
    pub open spec fn bytes_0_3(&self) -> Seq<u8> {
        enc_seq(self.flags@) + self.bytes_1_3()
    }

    /// Encoding of the fields 1 to 2, in order.
    pub open spec fn bytes_1_3(&self) -> Seq<u8> {
        self.player_character_text.enc() + self.journal_text.enc()
    }

    /// Encoding of the fields 3 to 6, in order.
    pub open spec fn bytes_3_7(&self) -> Seq<u8> {
        self.bytes_3_5() + self.bytes_5_7()
    }

    /// Encoding of the fields 3 to 4, in order.
    pub open spec fn bytes_3_5(&self) -> Seq<u8> {
        self.index_of_transitions_trigger.enc() + self.index_of_transitions_action_table.enc()
    }

    /// Encoding of the fields 5 to 6, in order.
    pub open spec fn bytes_5_7(&self) -> Seq<u8> {
        self.resource_name.enc() + self.index_of_the_next_state.enc()
    }
}

impl Codec for Transition {
    open spec fn width() -> nat {
        32
    }

    open spec fn enc(&self) -> Seq<u8> {
        self.bytes_0_7()
    }

    open spec fn wf(&self) -> bool {
        &&& self.flags@.len() == 4
        &&& all_wf(self.flags@)
    }

    open spec fn same(&self, other: &Self) -> bool {
        &&& seq_same(self.flags@, other.flags@)
        &&& self.player_character_text.same(&other.player_character_text)
        &&& self.journal_text.same(&other.journal_text)
        &&& self.index_of_transitions_trigger == other.index_of_transitions_trigger
        &&& self.index_of_transitions_action_table == other.index_of_transitions_action_table
        &&& self.resource_name.same(&other.resource_name)
        &&& self.index_of_the_next_state == other.index_of_the_next_state
    }

    fn byte_width() -> (n: usize) {
        32
    }

    fn check_wf(&self) -> (b: bool) {
        self.flags.len() == 4 && check_all_wf(self.flags.as_slice())
    }

    proof fn lemma_enc_len(&self) {
        lemma_enc_seq_len(self.flags@);
        self.player_character_text.lemma_enc_len();
        self.journal_text.lemma_enc_len();
        self.index_of_transitions_trigger.lemma_enc_len();
        self.index_of_transitions_action_table.lemma_enc_len();
        self.resource_name.lemma_enc_len();
        self.index_of_the_next_state.lemma_enc_len();
    }

    proof fn lemma_enc_injective(&self, other: &Self) {
        lemma_enc_seq_len(self.flags@);
        self.player_character_text.lemma_enc_len();
        self.journal_text.lemma_enc_len();
        self.index_of_transitions_trigger.lemma_enc_len();
        self.index_of_transitions_action_table.lemma_enc_len();
        self.resource_name.lemma_enc_len();
        self.index_of_the_next_state.lemma_enc_len();
        lemma_enc_seq_len(other.flags@);
        other.player_character_text.lemma_enc_len();
        other.journal_text.lemma_enc_len();
        other.index_of_transitions_trigger.lemma_enc_len();
        other.index_of_transitions_action_table.lemma_enc_len();
        other.resource_name.lemma_enc_len();
        other.index_of_the_next_state.lemma_enc_len();
        lemma_concat_peel(self.bytes_0_3(), self.bytes_3_7(), other.bytes_0_3(), other.bytes_3_7());
        lemma_concat_peel(enc_seq(self.flags@), self.bytes_1_3(), enc_seq(other.flags@), other.bytes_1_3());
        lemma_concat_peel(self.player_character_text.enc(), self.journal_text.enc(), other.player_character_text.enc(), other.journal_text.enc());
        lemma_concat_peel(self.bytes_3_5(), self.bytes_5_7(), other.bytes_3_5(), other.bytes_5_7());
        lemma_concat_peel(self.index_of_transitions_trigger.enc(), self.index_of_transitions_action_table.enc(), other.index_of_transitions_trigger.enc(), other.index_of_transitions_action_table.enc());
        lemma_concat_peel(self.resource_name.enc(), self.index_of_the_next_state.enc(), other.resource_name.enc(), other.index_of_the_next_state.enc());
        lemma_enc_seq_injective(self.flags@, other.flags@);
        self.player_character_text.lemma_enc_injective(&other.player_character_text);
        self.journal_text.lemma_enc_injective(&other.journal_text);
        self.index_of_transitions_trigger.lemma_enc_injective(&other.index_of_transitions_trigger);
        self.index_of_transitions_action_table.lemma_enc_injective(&other.index_of_transitions_action_table);
        self.resource_name.lemma_enc_injective(&other.resource_name);
        self.index_of_the_next_state.lemma_enc_injective(&other.index_of_the_next_state);
    }

    fn decode(buf: &[u8], pos: usize) -> (v: Self) {
        let len = buf.len();
        let fld0 = decode_vec::<u8>(buf, pos + 0, 4);
        let fld1 = Strref::decode(buf, pos + 4);
        let fld2 = Strref::decode(buf, pos + 8);
        let fld3 = u32::decode(buf, pos + 12);
        let fld4 = u32::decode(buf, pos + 16);
        let fld5 = Resref::decode(buf, pos + 20);
        let fld6 = u32::decode(buf, pos + 28);
        let v = Transition {
            flags: fld0,
            player_character_text: fld1,
            journal_text: fld2,
            index_of_transitions_trigger: fld3,
            index_of_transitions_action_table: fld4,
            resource_name: fld5,
            index_of_the_next_state: fld6,
        };
        proof {
            lemma_subrange_concat(buf@, pos + 0, pos + 12, pos + 32);
            lemma_subrange_concat(buf@, pos + 0, pos + 4, pos + 12);
            lemma_subrange_concat(buf@, pos + 4, pos + 8, pos + 12);
            lemma_subrange_concat(buf@, pos + 12, pos + 20, pos + 32);
            lemma_subrange_concat(buf@, pos + 12, pos + 16, pos + 20);
            lemma_subrange_concat(buf@, pos + 20, pos + 28, pos + 32);
        }
        v
    }

    fn encode(&self, out: &mut Vec<u8>) {
        let mut b0 = encoded_slice(self.flags.as_slice());
        let mut b1 = encoded(&self.player_character_text);
        let mut b2 = encoded(&self.journal_text);
        let mut b3 = encoded(&self.index_of_transitions_trigger);
        let mut b4 = encoded(&self.index_of_transitions_action_table);
        let mut b5 = encoded(&self.resource_name);
        let mut b6 = encoded(&self.index_of_the_next_state);
        b5.append(&mut b6);
        b3.append(&mut b4);
        b3.append(&mut b5);
        b1.append(&mut b2);
        b0.append(&mut b1);
        b0.append(&mut b3);
        out.append(&mut b0);
    }
}

/// https://gibberlings3.github.io/iesdp/file_formats/ie_formats/dlg_v1.htm#formDLGV1_StateTrigger
#[derive(Debug, Clone, PartialEq)]
pub struct StateTrigger {
    pub offset_to_start_of_file: u32,
    pub length_in_bytes: u32,
}

impl StateTrigger {
    /// Encoding of the fields 0 to 1, in order.
    pub open spec fn bytes_0_2(&self) -> Seq<u8> {
        self.offset_to_start_of_file.enc() + self.length_in_bytes.enc()
    }
}

impl Codec for StateTrigger {
    open spec fn width() -> nat {
        8
    }

    open spec fn enc(&self) -> Seq<u8> {
        self.bytes_0_2()
    }

    open spec fn wf(&self) -> bool {
        true
    }

    open spec fn same(&self, other: &Self) -> bool {
        &&& self.offset_to_start_of_file == other.offset_to_start_of_file
        &&& self.length_in_bytes == other.length_in_bytes
    }

    fn byte_width() -> (n: usize) {
        8
    }

    fn check_wf(&self) -> (b: bool) {
        true
    }

    proof fn lemma_enc_len(&self) {
        self.offset_to_start_of_file.lemma_enc_len();
        self.length_in_bytes.lemma_enc_len();
    }

    proof fn lemma_enc_injective(&self, other: &Self) {
        self.offset_to_start_of_file.lemma_enc_len();
        self.length_in_bytes.lemma_enc_len();
        other.offset_to_start_of_file.lemma_enc_len();
        other.length_in_bytes.lemma_enc_len();
        lemma_concat_peel(self.offset_to_start_of_file.enc(), self.length_in_bytes.enc(), other.offset_to_start_of_file.enc(), other.length_in_bytes.enc());
        self.offset_to_start_of_file.lemma_enc_injective(&other.offset_to_start_of_file);
        self.length_in_bytes.lemma_enc_injective(&other.length_in_bytes);
    }

    fn decode(buf: &[u8], pos: usize) -> (v: Self) {
        let len = buf.len();
        let fld0 = u32::decode(buf, pos + 0);
        let fld1 = u32::decode(buf, pos + 4);
        let v = StateTrigger {
            offset_to_start_of_file: fld0,
            length_in_bytes: fld1,
        };
        proof {
            lemma_subrange_concat(buf@, pos + 0, pos + 4, pos + 8);
        }
        v
    }

    fn encode(&self, out: &mut Vec<u8>) {
        let mut b0 = encoded(&self.offset_to_start_of_file);
        let mut b1 = encoded(&self.length_in_bytes);
        b0.append(&mut b1);
        out.append(&mut b0);
    }
}

/// https://gibberlings3.github.io/iesdp/file_formats/ie_formats/dlg_v1.htm#formDLGV1_TransTrigger
#[derive(Debug, Clone, PartialEq)]
pub struct TransitionTrigger {
    pub offset_to_start_of_file: u32,
    pub length_in_bytes: u32,
}

impl TransitionTrigger {
    /// Encoding of the fields 0 to 1, in order.
    pub open spec fn bytes_0_2(&self) -> Seq<u8> {
        self.offset_to_start_of_file.enc() + self.length_in_bytes.enc()
    }
}

impl Codec for TransitionTrigger {
    open spec fn width() -> nat {
        8
    }

    open spec fn enc(&self) -> Seq<u8> {
        self.bytes_0_2()
    }

    open spec fn wf(&self) -> bool {
        true
    }

    open spec fn same(&self, other: &Self) -> bool {
        &&& self.offset_to_start_of_file == other.offset_to_start_of_file
        &&& self.length_in_bytes == other.length_in_bytes
    }

    fn byte_width() -> (n: usize) {
        8
    }

    fn check_wf(&self) -> (b: bool) {
        true
    }

    proof fn lemma_enc_len(&self) {
        self.offset_to_start_of_file.lemma_enc_len();
        self.length_in_bytes.lemma_enc_len();
    }

    proof fn lemma_enc_injective(&self, other: &Self) {
        self.offset_to_start_of_file.lemma_enc_len();
        self.length_in_bytes.lemma_enc_len();
        other.offset_to_start_of_file.lemma_enc_len();
        other.length_in_bytes.lemma_enc_len();
        lemma_concat_peel(self.offset_to_start_of_file.enc(), self.length_in_bytes.enc(), other.offset_to_start_of_file.enc(), other.length_in_bytes.enc());
        self.offset_to_start_of_file.lemma_enc_injective(&other.offset_to_start_of_file);
        self.length_in_bytes.lemma_enc_injective(&other.length_in_bytes);
    }

    fn decode(buf: &[u8], pos: usize) -> (v: Self) {
        let len = buf.len();
        let fld0 = u32::decode(buf, pos + 0);
        let fld1 = u32::decode(buf, pos + 4);
        let v = TransitionTrigger {
            offset_to_start_of_file: fld0,
            length_in_bytes: fld1,
        };
        proof {
            lemma_subrange_concat(buf@, pos + 0, pos + 4, pos + 8);
        }
        v
    }

    fn encode(&self, out: &mut Vec<u8>) {
        let mut b0 = encoded(&self.offset_to_start_of_file);
        let mut b1 = encoded(&self.length_in_bytes);
        b0.append(&mut b1);
        out.append(&mut b0);
    }
}

/// https://gibberlings3.github.io/iesdp/file_formats/ie_formats/dlg_v1.htm#formDLGV1_Action
#[derive(Debug, Clone, PartialEq)]
pub struct ActionTable {
    pub offset_to_start_of_file: u32,
    pub length_in_bytes: u32,
}

impl ActionTable {
    /// Encoding of the fields 0 to 1, in order.
    pub open spec fn bytes_0_2(&self) -> Seq<u8> {
        self.offset_to_start_of_file.enc() + self.length_in_bytes.enc()
    }
}

impl Codec for ActionTable {
    open spec fn width() -> nat {
        8
    }

    open spec fn enc(&self) -> Seq<u8> {
        self.bytes_0_2()
    }

    open spec fn wf(&self) -> bool {
        true
    }

    open spec fn same(&self, other: &Self) -> bool {
        &&& self.offset_to_start_of_file == other.offset_to_start_of_file
        &&& self.length_in_bytes == other.length_in_bytes
    }

    fn byte_width() -> (n: usize) {
        8
    }

    fn check_wf(&self) -> (b: bool) {
        true
    }

    proof fn lemma_enc_len(&self) {
        self.offset_to_start_of_file.lemma_enc_len();
        self.length_in_bytes.lemma_enc_len();
    }

    proof fn lemma_enc_injective(&self, other: &Self) {
        self.offset_to_start_of_file.lemma_enc_len();
        self.length_in_bytes.lemma_enc_len();
        other.offset_to_start_of_file.lemma_enc_len();
        other.length_in_bytes.lemma_enc_len();
        lemma_concat_peel(self.offset_to_start_of_file.enc(), self.length_in_bytes.enc(), other.offset_to_start_of_file.enc(), other.length_in_bytes.enc());
        self.offset_to_start_of_file.lemma_enc_injective(&other.offset_to_start_of_file);
        self.length_in_bytes.lemma_enc_injective(&other.length_in_bytes);
    }

    fn decode(buf: &[u8], pos: usize) -> (v: Self) {
        let len = buf.len();
        let fld0 = u32::decode(buf, pos + 0);
        let fld1 = u32::decode(buf, pos + 4);
        let v = ActionTable {
            offset_to_start_of_file: fld0,
            length_in_bytes: fld1,
        };
        proof {
            lemma_subrange_concat(buf@, pos + 0, pos + 4, pos + 8);
        }
        v
    }

    fn encode(&self, out: &mut Vec<u8>) {
        let mut b0 = encoded(&self.offset_to_start_of_file);
        let mut b1 = encoded(&self.length_in_bytes);
        b0.append(&mut b1);
        out.append(&mut b0);
    }
}

/// The header of a dialog.
/// <https://gibberlings3.github.io/iesdp/file_formats/ie_formats/dlg_v1.htm#formDLGV1_Header>
#[derive(Debug)]
pub struct DialogueHeader {
    /// The first four bytes as UTF-8 text (empty when they are not valid UTF-8).
    pub signature: String,
    /// The next four bytes as UTF-8 text (empty when they are not valid UTF-8).
    pub version: String,
    pub count_of_state_tables: u32,
    pub offset_to_state_table: u32,
    pub count_of_transitions: u32,
    pub offset_to_transition_table: u32,
    pub offset_to_state_trigger_table: u32,
    pub count_of_state_triggers: u32,
    pub offset_to_transition_trigger_table: u32,
    pub count_of_transition_triggers: u32,
    pub offset_to_action_table: u32,
    pub count_of_action_tables: u32,
    pub flags: Vec<u8>,
}

impl DialogueHeader {
    /// The size of the header.
    pub open spec fn width() -> int {
        52
    }

    /// `self` is the header at the start of `buffer`.
    pub open spec fn parsed_from(&self, buffer: Seq<u8>) -> bool {
        &&& self.signature@ == utf8_or_empty(buffer.subrange(0, 4))
        &&& self.version@ == utf8_or_empty(buffer.subrange(4, 8))
        &&& record_parsed(self.count_of_state_tables, buffer, 8)
        &&& record_parsed(self.offset_to_state_table, buffer, 12)
        &&& record_parsed(self.count_of_transitions, buffer, 16)
        &&& record_parsed(self.offset_to_transition_table, buffer, 20)
        &&& record_parsed(self.offset_to_state_trigger_table, buffer, 24)
        &&& record_parsed(self.count_of_state_triggers, buffer, 28)
        &&& record_parsed(self.offset_to_transition_trigger_table, buffer, 32)
        &&& record_parsed(self.count_of_transition_triggers, buffer, 36)
        &&& record_parsed(self.offset_to_action_table, buffer, 40)
        &&& record_parsed(self.count_of_action_tables, buffer, 44)
        &&& self.flags@ == buffer.subrange(48, 52)
    }

    /// The bytes the header is written as: the signature and the version as
    /// their UTF-8 bytes, the counts and offsets, and the flags as they are.
    pub open spec fn spec_bytes(&self) -> Seq<u8> {
        encode_utf8(self.signature@) + encode_utf8(self.version@) + self.count_of_state_tables.enc() + self.offset_to_state_table.enc() + self.count_of_transitions.enc() + self.offset_to_transition_table.enc() + self.offset_to_state_trigger_table.enc() + self.count_of_state_triggers.enc() + self.offset_to_transition_trigger_table.enc() + self.count_of_transition_triggers.enc() + self.offset_to_action_table.enc() + self.count_of_action_tables.enc() + self.flags@
    }

    /// Reads the header at the start of `buffer`, which must hold it.
    pub fn read(buffer: &[u8]) -> (h: DialogueHeader)
        requires
            DialogueHeader::width() <= buffer@.len(),
        ensures
            h.parsed_from(buffer@),
    {
        let signature = decode_or_empty(vstd::slice::slice_subrange(buffer, 0, 4));
        let version = decode_or_empty(vstd::slice::slice_subrange(buffer, 4, 8));
        let count_of_state_tables = <u32 as Codec>::decode(buffer, 8);
        let offset_to_state_table = <u32 as Codec>::decode(buffer, 12);
        let count_of_transitions = <u32 as Codec>::decode(buffer, 16);
        let offset_to_transition_table = <u32 as Codec>::decode(buffer, 20);
        let offset_to_state_trigger_table = <u32 as Codec>::decode(buffer, 24);
        let count_of_state_triggers = <u32 as Codec>::decode(buffer, 28);
        let offset_to_transition_trigger_table = <u32 as Codec>::decode(buffer, 32);
        let count_of_transition_triggers = <u32 as Codec>::decode(buffer, 36);
        let offset_to_action_table = <u32 as Codec>::decode(buffer, 40);
        let count_of_action_tables = <u32 as Codec>::decode(buffer, 44);
        let flags = vstd::slice::slice_to_vec(vstd::slice::slice_subrange(buffer, 48, 52));
        DialogueHeader { signature, version, count_of_state_tables, offset_to_state_table, count_of_transitions, offset_to_transition_table, offset_to_state_trigger_table, count_of_state_triggers, offset_to_transition_trigger_table, count_of_transition_triggers, offset_to_action_table, count_of_action_tables, flags }
    }

    /// Appends the header's bytes.
    pub fn write_to(&self, out: &mut Vec<u8>)
        ensures
            final(out)@ == old(out)@ + self.spec_bytes(),
    {
        let ghost start = out@;
        write_string(&self.signature, out);
        write_string(&self.version, out);
        self.count_of_state_tables.encode(out);
        self.offset_to_state_table.encode(out);
        self.count_of_transitions.encode(out);
        self.offset_to_transition_table.encode(out);
        self.offset_to_state_trigger_table.encode(out);
        self.count_of_state_triggers.encode(out);
        self.offset_to_transition_trigger_table.encode(out);
        self.count_of_transition_triggers.encode(out);
        self.offset_to_action_table.encode(out);
        self.count_of_action_tables.encode(out);
        append_bytes(out, self.flags.as_slice());
        assert(out@ =~= start + self.spec_bytes());
    }
}

/// A dialog: its header and the five tables it places by offset.
/// <https://gibberlings3.github.io/iesdp/file_formats/ie_formats/dlg_v1.htm>
#[derive(Debug)]
pub struct Dialogue {
    pub header: DialogueHeader,
    pub state_tables: Vec<StateTable>,
    pub transitions: Vec<Transition>,
    pub state_triggers: Vec<StateTrigger>,
    pub transition_triggers: Vec<TransitionTrigger>,
    pub action_tables: Vec<ActionTable>,
}

impl Model for Dialogue {
    open spec fn spec_parses(buffer: Seq<u8>) -> bool {
        let len = buffer.len();
        &&& DialogueHeader::width() <= len
        &&& section_ok(len, decoded_at::<u32>(buffer, 12) as int, decoded_at::<u32>(buffer, 8) as int, StateTable::width())
        &&& section_ok(len, decoded_at::<u32>(buffer, 20) as int, decoded_at::<u32>(buffer, 16) as int, Transition::width())
        &&& section_ok(len, decoded_at::<u32>(buffer, 24) as int, decoded_at::<u32>(buffer, 28) as int, StateTrigger::width())
        &&& section_ok(len, decoded_at::<u32>(buffer, 32) as int, decoded_at::<u32>(buffer, 36) as int, TransitionTrigger::width())
        &&& section_ok(len, decoded_at::<u32>(buffer, 40) as int, decoded_at::<u32>(buffer, 44) as int, ActionTable::width())
    }

    open spec fn parsed_from(&self, buffer: Seq<u8>) -> bool {
        let h = self.header;
        &&& h.parsed_from(buffer)
        &&& section_parsed(self.state_tables@, buffer, h.offset_to_state_table as int, h.count_of_state_tables as int)
        &&& section_parsed(self.transitions@, buffer, h.offset_to_transition_table as int, h.count_of_transitions as int)
        &&& section_parsed(self.state_triggers@, buffer, h.offset_to_state_trigger_table as int, h.count_of_state_triggers as int)
        &&& section_parsed(self.transition_triggers@, buffer, h.offset_to_transition_trigger_table as int, h.count_of_transition_triggers as int)
        &&& section_parsed(self.action_tables@, buffer, h.offset_to_action_table as int, h.count_of_action_tables as int)
    }

    open spec fn spec_writable(&self) -> bool {
        &&& all_wf(self.state_tables@)
        &&& all_wf(self.transitions@)
        &&& all_wf(self.state_triggers@)
        &&& all_wf(self.transition_triggers@)
        &&& all_wf(self.action_tables@)
    }

    fn writable(&self) -> (b: bool) {
        check_all_wf(self.state_tables.as_slice()) && check_all_wf(self.transitions.as_slice())
            && check_all_wf(self.state_triggers.as_slice()) && check_all_wf(self.transition_triggers.as_slice())
            && check_all_wf(self.action_tables.as_slice())
    }

    open spec fn spec_bytes(&self) -> Seq<u8> {
        self.header.spec_bytes() + enc_seq(self.state_tables@) + enc_seq(self.transitions@) + enc_seq(self.state_triggers@)
            + enc_seq(self.transition_triggers@) + enc_seq(self.action_tables@)
    }

    fn parse(buffer: &[u8]) -> (r: Option<Self>) {
        if buffer.len() < 52 {
            return None;
        }
        let header = DialogueHeader::read(buffer);
        proof {
            lemma_decoded_at(buffer@, 8, header.count_of_state_tables);
            lemma_decoded_at(buffer@, 12, header.offset_to_state_table);
            lemma_decoded_at(buffer@, 16, header.count_of_transitions);
            lemma_decoded_at(buffer@, 20, header.offset_to_transition_table);
            lemma_decoded_at(buffer@, 24, header.offset_to_state_trigger_table);
            lemma_decoded_at(buffer@, 28, header.count_of_state_triggers);
            lemma_decoded_at(buffer@, 32, header.offset_to_transition_trigger_table);
            lemma_decoded_at(buffer@, 36, header.count_of_transition_triggers);
            lemma_decoded_at(buffer@, 40, header.offset_to_action_table);
            lemma_decoded_at(buffer@, 44, header.count_of_action_tables);
        }
        let state_tables = match read_section::<StateTable>(buffer, header.offset_to_state_table as u64, header.count_of_state_tables as u64) {
            Some(v) => v,
            None => return None,
        };
        let transitions = match read_section::<Transition>(buffer, header.offset_to_transition_table as u64, header.count_of_transitions as u64) {
            Some(v) => v,
            None => return None,
        };
        let state_triggers = match read_section::<StateTrigger>(buffer, header.offset_to_state_trigger_table as u64, header.count_of_state_triggers as u64) {
            Some(v) => v,
            None => return None,
        };
        let transition_triggers = match read_section::<TransitionTrigger>(buffer, header.offset_to_transition_trigger_table as u64, header.count_of_transition_triggers as u64) {
            Some(v) => v,
            None => return None,
        };
        let action_tables = match read_section::<ActionTable>(buffer, header.offset_to_action_table as u64, header.count_of_action_tables as u64) {
            Some(v) => v,
            None => return None,
        };
        Some(Dialogue { header, state_tables, transitions, state_triggers, transition_triggers, action_tables })
    }

    fn to_bytes(&self) -> (b: Vec<u8>) {
        let mut out: Vec<u8> = Vec::new();
        self.header.write_to(&mut out);
        encode_slice(self.state_tables.as_slice(), &mut out);
        encode_slice(self.transitions.as_slice(), &mut out);
        encode_slice(self.state_triggers.as_slice(), &mut out);
        encode_slice(self.transition_triggers.as_slice(), &mut out);
        encode_slice(self.action_tables.as_slice(), &mut out);
        assert(out@ =~= self.spec_bytes());
        out
    }
}

} // verus!
