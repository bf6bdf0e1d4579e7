//! Properties that hold across the readers and writers: what writing gives
//! back of what was read, and the invariants the readers keep.
use vstd::prelude::*;

use crate::area::Area;
use crate::biff::{by_end, chunks, files, files_read, in_end_order, last_by_end, lemma_end_order_unique, readable_files, Biff, FilesetEntry, TilesetEntry};
use crate::common::string_table::str_table;
use crate::tlk::{tlk_texts, TLKEntry, TLKHeader, TLK};
use crate::bam::{lookup_size, Bam, CycleEntry};
use crate::bio::Biography;
use crate::common::binary::{decoded_at, lemma_decoded_at, lemma_enc_seq_index, lemma_enc_seq_len, record_parsed, section_ok, section_parsed, Codec};
use crate::common::text::{ascii_lowercase, ascii_uppercase, lower_char, upper_char, utf8_or_empty};
use crate::common::types::ResourceType;
use crate::creature::{BGEECreatureHeader, Creature};
use crate::dialogue::Dialogue;
use crate::effect_v2::{effect_input, EffectV2};
use crate::{type_of_code, Error, IEModels};
use crate::game::Game;
use crate::item::{Item, ItemHeader};
use crate::model::Model;
use crate::resources::utils::{is_ascii_ws, words};
use crate::save::Save;
use crate::spell::Spell;
use crate::twoda::TwoDA;
use vstd::utf8::{decode_utf8, decode_utf8_encode_utf8, encode_utf8, valid_utf8};

verus! {

/// Writing back an area that was read gives the bytes it was read from.
pub proof fn area_write_read(buffer: Seq<u8>, area: Area)
    requires
        area.parsed_from(buffer),
    ensures
        area.spec_writable(),
        area.spec_bytes() == buffer,
{
}

/// Writing back an item that was read gives the bytes it was read from.
pub proof fn item_write_read(buffer: Seq<u8>, item: Item)
    requires
        item.parsed_from(buffer),
    ensures
        item.spec_writable(),
        item.spec_bytes() == buffer,
{
}

/// Writing back a spell that was read gives the bytes it was read from.
pub proof fn spell_write_read(buffer: Seq<u8>, spell: Spell)
    requires
        spell.parsed_from(buffer),
    ensures
        spell.spec_writable(),
        spell.spec_bytes() == buffer,
{
}

/// Writing back a saved game state that was read gives the bytes it was
/// read from.
pub proof fn game_write_read(buffer: Seq<u8>, game: Game)
    requires
        game.parsed_from(buffer),
    ensures
        game.spec_writable(),
        game.spec_bytes() == buffer,
{
}

/// Writing back a creature that was read gives the bytes it was read from.
pub proof fn creature_write_read(buffer: Seq<u8>, creature: Creature)
    requires
        creature.parsed_from(buffer),
    ensures
        creature.spec_writable(),
        creature.spec_bytes() == buffer,
{
    reveal(Creature::parsed_at);
    assert(buffer.subrange(0, buffer.len() as int) =~= buffer);
}

/// Writing back an animation that was read gives the bytes it was read
/// from.
pub proof fn bam_write_read(buffer: Seq<u8>, bam: Bam)
    requires
        bam.parsed_from(buffer),
    ensures
        bam.spec_writable(),
        bam.spec_bytes() == buffer,
{
}

/// A record written and read back has the same contents: whatever is read
/// from the bytes written for `v` holds what `v` holds.
pub proof fn record_write_read<T: Codec>(v: T, w: T)
    requires
        v.wf(),
        record_parsed(w, v.enc(), 0),
    ensures
        w.same(&v),
{
    v.lemma_enc_len();
    assert(v.enc().subrange(0, T::width() as int) =~= v.enc());
    w.lemma_enc_injective(&v);
}

/// A record read and written back gives the bytes it was read from.
pub proof fn record_read_write<T: Codec>(buffer: Seq<u8>, v: T)
    requires
        record_parsed(v, buffer, 0),
    ensures
        v.enc() == buffer.subrange(0, T::width() as int),
{
}

/// Writing back a biography read from valid UTF-8 gives the bytes it was
/// read from; any other buffer is read as empty text.
pub proof fn biography_write_read(buffer: Seq<u8>, bio: Biography)
    requires
        bio.parsed_from(buffer),
    ensures
        valid_utf8(buffer) ==> bio.spec_bytes() == buffer,
        !valid_utf8(buffer) ==> bio.contents@.len() == 0,
{
    if valid_utf8(buffer) {
        decode_utf8_encode_utf8(buffer);
    }
}

/// Writing back a table read from valid UTF-8 gives the bytes it was read
/// from; any other buffer is read as empty text.
pub proof fn twoda_write_read(buffer: Seq<u8>, table: TwoDA)
    requires
        table.parsed_from(buffer),
    ensures
        valid_utf8(buffer) ==> table.spec_bytes() == buffer,
        !valid_utf8(buffer) ==> table.data@.len() == 0,
{
    if valid_utf8(buffer) {
        decode_utf8_encode_utf8(buffer);
    }
}

/// The text an identifier file is read as is written back as the bytes it
/// was read from.
pub proof fn ids_write_read(value: Seq<u8>, data: Seq<char>)
    requires
        valid_utf8(value),
        data == decode_utf8(value),
    ensures
        encode_utf8(data) == value,
{
    decode_utf8_encode_utf8(value);
}

/// A saved game that was read is written back as its first eight bytes:
/// the signature and the version, with no files.
pub proof fn save_write_read(value: Seq<u8>, save: Save)
    requires
        value.len() >= 8,
        save.signature.0@ == value.subrange(0, 4),
        save.version.0@ == value.subrange(4, 8),
        save.files@.len() == 0,
    ensures
        save.signature.0@ + save.version.0@ + Save::files_bytes(save.files@) == value.subrange(0, 8),
{
    assert(Save::files_bytes(save.files@) =~= Seq::<u8>::empty());
    assert(value.subrange(0, 8) =~= value.subrange(0, 4) + value.subrange(4, 8));
}

/// Every resource type is found again from its code.
pub proof fn resource_code_round_trip(t: ResourceType)
    ensures
        ResourceType::spec_from_code(t.spec_code()) == Some(t),
{
}

/// Lower-casing twice changes nothing more.
proof fn lemma_lowercase_idempotent(s: Seq<char>)
    ensures
        ascii_lowercase(ascii_lowercase(s)) == ascii_lowercase(s),
{
    assert forall|i: int| 0 <= i < s.len() implies lower_char(lower_char(s[i])) == lower_char(s[i]) by {
        let c = s[i];
        if 'A' <= c && c <= 'Z' {
            assert(((c as u8) + 32) as char >= 'a');
        }
    }
    assert(ascii_lowercase(ascii_lowercase(s)) =~= ascii_lowercase(s));
}

/// An extension names the same type whatever the case of its ASCII letters.
pub proof fn extension_ignores_case(ext: Seq<char>)
    ensures
        ResourceType::spec_from_extension(ascii_lowercase(ext)) == ResourceType::spec_from_extension(ext),
{
    lemma_lowercase_idempotent(ext);
}

/// Two extensions that differ only in the case of their ASCII letters name
/// the same type.
pub proof fn extension_case_insensitive(a: Seq<char>, b: Seq<char>)
    requires
        ascii_lowercase(a) == ascii_lowercase(b),
    ensures
        ResourceType::spec_from_extension(a) == ResourceType::spec_from_extension(b),
{
}

/// Upper-casing an extension does not change the type it names.
pub proof fn extension_upper_case(ext: Seq<char>)
    ensures
        ResourceType::spec_from_extension(ascii_uppercase(ext)) == ResourceType::spec_from_extension(ext),
{
    assert forall|i: int| 0 <= i < ext.len() implies lower_char(upper_char(ext[i])) == lower_char(ext[i]) by {
        let c = ext[i];
        if 'a' <= c && c <= 'z' {
            let u = ((c as u8) - 32) as u8;
            assert(65 <= u <= 90);
            assert((u + 32) as u8 == c as u8);
        }
    }
    assert(ascii_lowercase(ascii_uppercase(ext)) =~= ascii_lowercase(ext));
}

/// Reading by a type's code is reading by that type: a code that names a
/// type reads, fails and is loadable exactly as that type does; any other
/// code fails with `NotImplemented`.
pub proof fn code_reads_as_type(buffer: Seq<u8>, code: u16)
    ensures
        ResourceType::spec_from_code(code) matches Some(t) ==> {
            &&& type_of_code(code) == t
            &&& IEModels::loadable(buffer, type_of_code(code)) == IEModels::loadable(buffer, t)
            &&& IEModels::read_error(buffer, type_of_code(code)) == IEModels::read_error(buffer, t)
            &&& forall|m: IEModels| #[trigger] m.read_from(buffer, type_of_code(code)) == m.read_from(buffer, t)
        },
        ResourceType::spec_from_code(code) is None ==> IEModels::read_error(buffer, type_of_code(code)) == Some(Error::NotImplemented),
        ResourceType::spec_from_code(code) is None ==> IEModels::loadable(buffer, type_of_code(code)),
{
}

/// Writing back a resource that was read gives the bytes it was read from:
/// for tilesets, areas, items, spells, saved game states and creatures
/// always; for biographies, tables and identifiers when the bytes are
/// UTF-8; a saved game is written back as its signature and version; a
/// dialog gives back its first eight bytes when each half is UTF-8.
pub proof fn resource_write_read(buffer: Seq<u8>, t: ResourceType, m: IEModels)
    requires
        IEModels::read_error(buffer, t) is None,
        m.read_from(buffer, t),
    ensures
        (t is FileTypeTi || t is FileTypeAre || t is FileTypeItm || t is FileTypeSpl || t is FileTypeGam || t is FileTypeCre)
            ==> m.writable() && m.written() == Ok::<Seq<u8>, Error>(buffer),
        ((t is FileTypeBio || t is FileType2da || t is FileTypeIds) && valid_utf8(buffer))
            ==> m.writable() && m.written() == Ok::<Seq<u8>, Error>(buffer),
        t is FileTypeSave ==> m.written() == Ok::<Seq<u8>, Error>(buffer.subrange(0, 8)),
        (t is FileTypeDlg && valid_utf8(buffer.subrange(0, 4)) && valid_utf8(buffer.subrange(4, 8)))
            ==> (m.written() matches Ok(w) && w.len() >= 8 && w.subrange(0, 8) == buffer.subrange(0, 8)),
{
    if valid_utf8(buffer) {
        decode_utf8_encode_utf8(buffer);
    }
    match m {
        IEModels::Creature(c) => {
            if t is FileTypeCre {
                creature_write_read(buffer, c);
            }
        },
        IEModels::Area(a) => {
            if t is FileTypeAre {
                area_write_read(buffer, a);
            }
        },
        IEModels::Item(i) => {
            if t is FileTypeItm {
                item_write_read(buffer, i);
            }
        },
        IEModels::Spell(sp) => {
            if t is FileTypeSpl {
                spell_write_read(buffer, sp);
            }
        },
        IEModels::Game(g) => {
            if t is FileTypeGam {
                game_write_read(buffer, g);
            }
        },
        IEModels::Save(s) => {
            if t is FileTypeSave {
                save_write_read(buffer, s);
            }
        },
        IEModels::Dialogue(d) => {
            if t is FileTypeDlg && valid_utf8(buffer.subrange(0, 4)) && valid_utf8(buffer.subrange(4, 8)) {
                dialogue_starts_as_read(buffer, d);
            }
        },
        _ => {},
    }
}

/// A dialog that was read is written back starting with the signature and
/// version it was read with, when each of the two is UTF-8.
pub proof fn dialogue_starts_as_read(buffer: Seq<u8>, d: Dialogue)
    requires
        d.parsed_from(buffer),
        valid_utf8(buffer.subrange(0, 4)),
        valid_utf8(buffer.subrange(4, 8)),
    ensures
        d.spec_bytes().len() >= 8,
        d.spec_bytes().subrange(0, 8) == buffer.subrange(0, 8),
{
    decode_utf8_encode_utf8(buffer.subrange(0, 4));
    decode_utf8_encode_utf8(buffer.subrange(4, 8));
    let w = d.spec_bytes();
    let h = encode_utf8(d.header.signature@) + encode_utf8(d.header.version@);
    assert(h =~= buffer.subrange(0, 4) + buffer.subrange(4, 8));
    assert(w.subrange(0, 8) =~= h);
    assert(h =~= buffer.subrange(0, 8));
}

/// Writing back an effect that was read gives the first 272 bytes it was
/// read from, or, from 271 bytes, those bytes and a zero.
pub proof fn effect_write_read(buffer: Seq<u8>, e: EffectV2)
    requires
        e.parsed_from(buffer),
    ensures
        e.spec_writable(),
        buffer.len() >= 272 ==> e.spec_bytes() == buffer.subrange(0, 272),
        buffer.len() < 272 ==> buffer.len() == 271 && e.spec_bytes() == buffer.push(0u8),
{
    if buffer.len() < 272 {
        assert(effect_input(buffer).subrange(0, 272) =~= buffer.push(0u8));
    }
}

/// The lookup table of an animation is as large as the largest start plus
/// count of its cycles: no cycle reaches past it, and, when there are
/// cycles, one reaches its end.
pub proof fn lookup_size_is_largest(cycles: Seq<CycleEntry>)
    ensures
        forall|i: int| 0 <= i < cycles.len() ==>
            #[trigger] cycles[i].index_into_frame_lookup_table + cycles[i].count_of_frame_indices <= lookup_size(cycles),
        cycles.len() == 0 ==> lookup_size(cycles) == 0,
        cycles.len() > 0 ==> exists|i: int| 0 <= i < cycles.len()
            && lookup_size(cycles) == #[trigger] cycles[i].index_into_frame_lookup_table + cycles[i].count_of_frame_indices,
    decreases cycles.len(),
{
    if cycles.len() > 0 {
        let prev = cycles.drop_last();
        lookup_size_is_largest(prev);
        assert forall|i: int| 0 <= i < cycles.len() implies
            #[trigger] cycles[i].index_into_frame_lookup_table + cycles[i].count_of_frame_indices <= lookup_size(cycles) by {
            if i < prev.len() {
                assert(cycles[i] == prev[i]);
            }
        }
        let last = cycles.len() - 1;
        if lookup_size(cycles) == cycles[last].index_into_frame_lookup_table + cycles[last].count_of_frame_indices {
        } else {
            let j = choose|j: int| 0 <= j < prev.len()
                && lookup_size(prev) == #[trigger] prev[j].index_into_frame_lookup_table + prev[j].count_of_frame_indices;
            assert(cycles[j] == prev[j]);
        }
    }
}

/// The words a row is split into are not empty and hold no ASCII
/// whitespace.
pub proof fn words_hold_no_whitespace(s: Seq<u8>)
    ensures
        forall|i: int| 0 <= i < words(s).len() ==> (#[trigger] words(s)[i]).len() > 0,
        forall|i: int, j: int| 0 <= i < words(s).len() && 0 <= j < words(s)[i].len() ==> !is_ascii_ws(#[trigger] words(s)[i][j]),
    decreases s.len(),
{
    if s.len() > 0 {
        words_hold_no_whitespace(s.drop_last());
        let w = words(s.drop_last());
        let b = s.last();
        if !is_ascii_ws(b) && s.len() >= 2 && !is_ascii_ws(s[s.len() - 2]) {
            assert(s.drop_last().last() == s[s.len() - 2]);
            if w.len() == 0 {
                assert(false) by {
                    lemma_words_end(s.drop_last());
                }
            }
            let ws = words(s);
            assert forall|i: int, j: int| 0 <= i < ws.len() && 0 <= j < ws[i].len() implies !is_ascii_ws(#[trigger] ws[i][j]) by {
                if i < w.len() - 1 {
                    assert(ws[i] == w[i]);
                } else if j < w.last().len() {
                    assert(ws[i][j] == w[i][j]);
                }
            }
        }
    }
}

/// A text ending in a byte that is not whitespace has at least one word.
proof fn lemma_words_end(s: Seq<u8>)
    requires
        s.len() > 0,
        !is_ascii_ws(s.last()),
    ensures
        words(s).len() > 0,
    decreases s.len(),
{
    if s.len() >= 2 && !is_ascii_ws(s[s.len() - 2]) {
        assert(s.drop_last().last() == s[s.len() - 2]);
        lemma_words_end(s.drop_last());
    }
}


/// The extension that names the type whose code is `code`, as the format
/// table pairs them; empty for a code that no extension names.
pub open spec fn extension_of_code(code: u16) -> Seq<char> {
    if code == 0x0001 {
        seq!['b', 'm', 'p']
    } else if code == 0x0002 {
        seq!['m', 'v', 'e']
    } else if code == 0x0004 {
        seq!['w', 'a', 'v']
    } else if code == 0x0005 {
        seq!['w', 'f', 'x']
    } else if code == 0x0006 {
        seq!['p', 'l', 't']
    } else if code == 0x03e8 {
        seq!['b', 'a', 'm']
    } else if code == 0x03e9 {
        seq!['w', 'e', 'd']
    } else if code == 0x03ea {
        seq!['c', 'h', 'u']
    } else if code == 0x03eb {
        seq!['t', 'i']
    } else if code == 0x03ec {
        seq!['m', 'o', 's']
    } else if code == 0x03ed {
        seq!['i', 't', 'm']
    } else if code == 0x03ee {
        seq!['s', 'p', 'l']
    } else if code == 0x03ef {
        seq!['b', 'c', 's']
    } else if code == 0x03f0 {
        seq!['i', 'd', 's']
    } else if code == 0x03f1 {
        seq!['c', 'r', 'e']
    } else if code == 0x03f2 {
        seq!['a', 'r', 'e']
    } else if code == 0x03f3 {
        seq!['d', 'l', 'g']
    } else if code == 0x03f4 {
        seq!['2', 'd', 'a']
    } else if code == 0x03f5 {
        seq!['g', 'a', 'm']
    } else if code == 0x03f6 {
        seq!['s', 't', 'o']
    } else if code == 0x03f7 {
        seq!['w', 'm', 'p']
    } else if code == 0x03f8 {
        seq!['e', 'f', 'f']
    } else if code == 0x03f9 {
        seq!['b', 's']
    } else if code == 0x03fa {
        seq!['c', 'h', 'r']
    } else if code == 0x03fb {
        seq!['v', 'v', 'c']
    } else if code == 0x03fc {
        seq!['v', 'e', 'f']
    } else if code == 0x03fd {
        seq!['p', 'r', 'o']
    } else if code == 0x03fe {
        seq!['b', 'i', 'o']
    } else if code == 0x03ff {
        seq!['w', 'b', 'm']
    } else if code == 0x0400 {
        seq!['f', 'n', 't']
    } else if code == 0x0402 {
        seq!['g', 'u', 'i']
    } else if code == 0x0403 {
        seq!['s', 'q', 'l']
    } else if code == 0x0404 {
        seq!['p', 'v', 'r', 'z']
    } else if code == 0x0405 {
        seq!['g', 'l', 's', 'l']
    } else if code == 0x0407 {
        seq!['t', 'l', 'k']
    } else if code == 0x0408 {
        seq!['m', 'e', 'n', 'u']
    } else if code == 0x040a {
        seq!['t', 't', 'f']
    } else if code == 0x040b {
        seq!['p', 'n', 'g']
    } else if code == 0x044c {
        seq!['b', 'a', 'h']
    } else if code == 0x0802 {
        seq!['i', 'n', 'i']
    } else if code == 0x0803 {
        seq!['s', 'r', 'c']
    } else if code == 0x1000 {
        seq!['k', 'e', 'y']
    } else if code == 0x1001 {
        seq!['b', 'i', 'f']
    } else if code == 0x1002 {
        seq!['s', 'a', 'v']
    } else {
        Seq::empty()
    }
}

/// An extension that names a type is the extension the format table gives
/// for that type's code: the lookup by extension agrees with the codes.
pub proof fn extension_names_its_code(ext: Seq<char>)
    ensures
        ResourceType::spec_from_extension(ext) != ResourceType::NotFound
            ==> ascii_lowercase(ext) == extension_of_code(ResourceType::spec_from_extension(ext).spec_code()),
{
}

/// Every extension of the format table names the type that has its code.
pub proof fn code_extension_names_its_type(code: u16)
    ensures
        extension_of_code(code).len() > 0 ==> (ResourceType::spec_from_code(code) matches Some(t)
            && ResourceType::spec_from_extension(extension_of_code(code)) == t),
{
    let e = extension_of_code(code);
    assert(ascii_lowercase(e) =~= e);
}

/// Different extensions name different types: two extensions that name
/// the same type are the same up to the case of their ASCII letters.
pub proof fn extensions_name_distinct_types(a: Seq<char>, b: Seq<char>)
    ensures
        ResourceType::spec_from_extension(a) == ResourceType::spec_from_extension(b)
            && ResourceType::spec_from_extension(a) != ResourceType::NotFound
            ==> ascii_lowercase(a) == ascii_lowercase(b),
{
    extension_names_its_code(a);
    extension_names_its_code(b);
}


/// The `i`-th entry of a table read at `pos` is the record encoded at
/// `pos + i * width`.
proof fn lemma_table_entry<T: Codec>(v: Seq<T>, buf: Seq<u8>, pos: int, count: int, i: int)
    requires
        section_parsed(v, buf, pos, count),
        section_ok(buf.len(), pos, count, T::width()),
        0 <= pos,
        0 <= i < count,
    ensures
        record_parsed(v[i], buf, pos + i * T::width()),
{
    let w = T::width() as int;
    lemma_enc_seq_index(v, i);
    lemma_enc_seq_len(v);
    assert(i * w + w <= count * w);
    let whole = buf.subrange(pos, pos + count * w);
    assert(whole.subrange(i * w, i * w + w) =~= buf.subrange(pos + i * w, pos + i * w + w));
}

/// The tables of an item read from `buffer` lie inside it, where the
/// header places them.
#[verifier::spinoff_prover]
proof fn lemma_item_tables(buffer: Seq<u8>, item: Item)
    requires
        Item::spec_parses(buffer),
        item.parsed_from(buffer),
    ensures
        section_parsed(item.extended_headers@, buffer, 114, item.header.count_of_extended_headers as int),
        section_parsed(item.equipping_feature_blocks@, buffer, Item::feature_blocks_at(item.header), item.header.count_of_feature_blocks as int),
        section_ok(buffer.len(), 114, item.header.count_of_extended_headers as int, 56),
        section_ok(buffer.len(), Item::feature_blocks_at(item.header), item.header.count_of_feature_blocks as int, 48),
{
    let h = item.header;
    let d = decoded_at::<ItemHeader>(buffer, 0);
    lemma_decoded_at(buffer, 0, h);
    assert(d.count_of_extended_headers == h.count_of_extended_headers);
    assert(d.count_of_feature_blocks == h.count_of_feature_blocks);
}

/// The feature blocks an item is equipped with are the
/// `count_of_feature_blocks` records of 48 bytes that follow the extended
/// headers: the extended headers are the `count_of_extended_headers`
/// records of 56 bytes right after the 114-byte header, so the feature
/// blocks start at `114 + 56 * count_of_extended_headers` and never overlap
/// them.
#[verifier::spinoff_prover]
pub proof fn item_tables_follow_each_other(buffer: Seq<u8>, item: Item)
    requires
        Item::spec_parses(buffer),
        item.parsed_from(buffer),
    ensures
        item.extended_headers@.len() == item.header.count_of_extended_headers,
        item.equipping_feature_blocks@.len() == item.header.count_of_feature_blocks,
        forall|i: int| 0 <= i < item.extended_headers@.len()
            ==> record_parsed(#[trigger] item.extended_headers@[i], buffer, 114 + 56 * i),
        forall|i: int| 0 <= i < item.equipping_feature_blocks@.len()
            ==> record_parsed(#[trigger] item.equipping_feature_blocks@[i], buffer, 114 + 56 * item.header.count_of_extended_headers + 48 * i),
{
    lemma_item_tables(buffer, item);
    let h = item.header;
    let at = Item::feature_blocks_at(h);
    assert(at == 114 + 56 * h.count_of_extended_headers);
    assert forall|i: int| 0 <= i < item.extended_headers@.len()
        implies record_parsed(#[trigger] item.extended_headers@[i], buffer, 114 + 56 * i) by {
        lemma_table_entry(item.extended_headers@, buffer, 114, h.count_of_extended_headers as int, i);
    }
    assert forall|i: int| 0 <= i < item.equipping_feature_blocks@.len()
        implies record_parsed(#[trigger] item.equipping_feature_blocks@[i], buffer, 114 + 56 * h.count_of_extended_headers + 48 * i) by {
        lemma_table_entry(item.equipping_feature_blocks@, buffer, at, h.count_of_feature_blocks as int, i);
    }
}

/// The effect tables of a creature read from `buffer` lie inside it, at
/// the header's offset, with as many entries as `effect_count` gives.
#[verifier::spinoff_prover]
proof fn lemma_creature_effect_tables(buffer: Seq<u8>, c: Creature)
    requires
        Creature::spec_parses(buffer),
        c.parsed_from(buffer),
    ensures
        section_parsed(c.effects_v1@, buffer, c.header.offset_to_effects as int, Creature::effect_count(c.header, 0)),
        section_parsed(c.effects_v2@, buffer, c.header.offset_to_effects as int, Creature::effect_count(c.header, 1)),
        section_ok(buffer.len(), c.header.offset_to_effects as int, Creature::effect_count(c.header, 0), 48),
        section_ok(buffer.len(), c.header.offset_to_effects as int, Creature::effect_count(c.header, 1), 264),
{
    reveal(Creature::parses_at);
    reveal(Creature::parsed_at);
    let h = c.header;
    let d = decoded_at::<BGEECreatureHeader>(buffer, 0);
    lemma_decoded_at(buffer, 0, h);
    assert(d.effstructure == h.effstructure);
    assert(d.count_of_effects == h.count_of_effects);
    assert(d.offset_to_effects == h.offset_to_effects);
}

/// A creature's effects are stored as the header's `effstructure` says:
/// with 1, `count_of_effects` records of 264 bytes (version 2) at
/// `offset_to_effects` and no version 1 effects; with 0, `count_of_effects`
/// records of 48 bytes (version 1) there and no version 2 effects; with any
/// other value, none of either.
#[verifier::spinoff_prover]
#[verifier::rlimit(50)]
pub proof fn creature_effects_follow_their_structure(buffer: Seq<u8>, c: Creature)
    requires
        Creature::spec_parses(buffer),
        c.parsed_from(buffer),
    ensures
        c.header.effstructure == 1 ==> {
            &&& c.effects_v1@.len() == 0
            &&& c.effects_v2@.len() == c.header.count_of_effects
            &&& forall|i: int| 0 <= i < c.effects_v2@.len()
                ==> record_parsed(#[trigger] c.effects_v2@[i], buffer, c.header.offset_to_effects + 264 * i)
        },
        c.header.effstructure == 0 ==> {
            &&& c.effects_v2@.len() == 0
            &&& c.effects_v1@.len() == c.header.count_of_effects
            &&& forall|i: int| 0 <= i < c.effects_v1@.len()
                ==> record_parsed(#[trigger] c.effects_v1@[i], buffer, c.header.offset_to_effects + 48 * i)
        },
        c.header.effstructure != 0 && c.header.effstructure != 1 ==> c.effects_v1@.len() == 0 && c.effects_v2@.len() == 0,
{
    lemma_creature_effect_tables(buffer, c);
    let h = c.header;
    if h.effstructure == 1 {
        assert forall|i: int| 0 <= i < c.effects_v2@.len()
            implies record_parsed(#[trigger] c.effects_v2@[i], buffer, h.offset_to_effects + 264 * i) by {
            lemma_table_entry(c.effects_v2@, buffer, h.offset_to_effects as int, h.count_of_effects as int, i);
        }
    }
    if h.effstructure == 0 {
        assert forall|i: int| 0 <= i < c.effects_v1@.len()
            implies record_parsed(#[trigger] c.effects_v1@[i], buffer, h.offset_to_effects + 48 * i) by {
            lemma_table_entry(c.effects_v1@, buffer, h.offset_to_effects as int, h.count_of_effects as int, i);
        }
    }
}


/// With every text inside the file, a talk table has one text per entry,
/// in entry order, an entry of length 0 included: the `i`-th text is the
/// `length_of_this_string` bytes at `offset_to_strings +
/// offset_to_this_string` of entry `i`, read as UTF-8.
pub proof fn tlk_one_text_per_entry(bytes: Seq<u8>, h: TLKHeader, es: Seq<TLKEntry>)
    requires
        forall|i: int| 0 <= i < es.len()
            ==> h.offset_to_strings + (#[trigger] es[i]).offset_to_this_string + es[i].length_of_this_string <= bytes.len(),
    ensures
        tlk_texts(bytes, h, es).len() == es.len(),
        forall|i: int| 0 <= i < es.len() ==> #[trigger] tlk_texts(bytes, h, es)[i] == utf8_or_empty(bytes.subrange(
            h.offset_to_strings + es[i].offset_to_this_string,
            h.offset_to_strings + es[i].offset_to_this_string + es[i].length_of_this_string,
        )),
    decreases es.len(),
{
    if es.len() > 0 {
        let init = es.drop_last();
        assert forall|i: int| 0 <= i < init.len()
            implies h.offset_to_strings + (#[trigger] init[i]).offset_to_this_string + init[i].length_of_this_string <= bytes.len() by {
            assert(init[i] == es[i]);
        }
        tlk_one_text_per_entry(bytes, h, init);
        let last = es.len() - 1;
        assert(es[last] == es.last());
        assert forall|i: int| 0 <= i < es.len() implies #[trigger] tlk_texts(bytes, h, es)[i] == utf8_or_empty(bytes.subrange(
            h.offset_to_strings + es[i].offset_to_this_string,
            h.offset_to_strings + es[i].offset_to_this_string + es[i].length_of_this_string,
        )) by {
            if i < last {
                assert(init[i] == es[i]);
                assert(tlk_texts(bytes, h, es)[i] == tlk_texts(bytes, h, init)[i]);
            }
        }
    }
}

/// A talk table read from a file whose texts all lie inside it holds one
/// string per entry: `strings[i]` is the text of entry `i`, empty for an
/// entry of length 0.
pub proof fn tlk_strings_match_entries(bytes: Seq<u8>, t: TLK)
    requires
        record_parsed(t.header, bytes, 0),
        section_parsed(t.entries@, bytes, 18, t.header.count_of_entries as int),
        str_table(t.strings) == tlk_texts(bytes, t.header, t.entries@),
        forall|i: int| 0 <= i < t.entries@.len()
            ==> t.header.offset_to_strings + (#[trigger] t.entries@[i]).offset_to_this_string + t.entries@[i].length_of_this_string <= bytes.len(),
    ensures
        str_table(t.strings).len() == t.header.count_of_entries,
        forall|i: int| 0 <= i < t.entries@.len() ==> #[trigger] str_table(t.strings)[i] == utf8_or_empty(bytes.subrange(
            t.header.offset_to_strings + t.entries@[i].offset_to_this_string,
            t.header.offset_to_strings + t.entries@[i].offset_to_this_string + t.entries@[i].length_of_this_string,
        )),
{
    tlk_one_text_per_entry(bytes, t.header, t.entries@);
}

/// Every tileset entry of an archive is a file of the tileset type: its
/// span is `tile_count * tile_size` bytes at its offset, and its code names
/// `FileTypeTi`; every fileset entry keeps its own span and code.
pub proof fn archive_files_keep_their_types(fs: Seq<FilesetEntry>, ts: Seq<TilesetEntry>)
    ensures
        files(fs, ts).len() == fs.len() + ts.len(),
        forall|i: int| 0 <= i < fs.len() ==> #[trigger] files(fs, ts)[i]
            == (fs[i].offset as int, fs[i].offset + fs[i].size, fs[i].resource_type),
        forall|j: int| 0 <= j < ts.len() ==> {
            let f = #[trigger] files(fs, ts)[fs.len() + j];
            &&& f.0 == ts[j].offset
            &&& f.1 == ts[j].offset + ts[j].tile_count * ts[j].tile_size
            &&& ResourceType::spec_from_code(f.2) == Some(ResourceType::FileTypeTi)
        },
{
}

/// An archive whose only entry is a tileset lying inside the file holds
/// exactly one resource: the tileset, with the tile bytes of that entry.
pub proof fn archive_with_one_tileset(bytes: Seq<u8>, b: Biff)
    requires
        Biff::tables_read(bytes, b.header, b.fileset_entries@, b.tileset_entries@),
        files_read(b.contained_files@, chunks(bytes, by_end(files(b.fileset_entries@, b.tileset_entries@)))),
        b.fileset_entries@.len() == 0,
        b.tileset_entries@.len() == 1,
        b.tileset_entries@[0].offset + b.tileset_entries@[0].tile_count * b.tileset_entries@[0].tile_size <= bytes.len(),
    ensures
        b.contained_files@.len() == 1,
        b.contained_files@[0] matches IEModels::Tileset(t) && t.data@ == bytes.subrange(
            b.tileset_entries@[0].offset as int,
            b.tileset_entries@[0].offset + b.tileset_entries@[0].tile_count * b.tileset_entries@[0].tile_size,
        ),
{
    let e = b.tileset_entries@[0];
    let fl = files(b.fileset_entries@, b.tileset_entries@);
    let end = e.offset + e.tile_count * e.tile_size;
    archive_files_keep_their_types(b.fileset_entries@, b.tileset_entries@);
    let f = fl[0];
    assert(fl =~= seq![f]);
    assert(fl.drop_last() =~= Seq::<(int, int, u16)>::empty());
    let m = last_by_end(fl);
    assert(fl.last() == f);
    assert(last_by_end(Seq::<(int, int, u16)>::empty()) == Map::<int, (int, u16)>::empty());
    assert(m =~= Map::<int, (int, u16)>::empty().insert(f.1, (f.0, f.2)));
    let s = seq![f];
    assert(in_end_order(s, fl)) by {
        assert forall|k: int| #[trigger] m.contains_key(k) implies exists|i: int| 0 <= i < s.len() && #[trigger] s[i].1 == k by {
            assert(s[0].1 == k);
        }
    }
    assert(in_end_order(by_end(fl), fl));
    lemma_end_order_unique(s, by_end(fl), fl);
    assert(0 <= e.tile_count * e.tile_size) by (nonlinear_arith);
    let cs = chunks(bytes, by_end(fl));
    assert(cs[0] == (bytes.subrange(e.offset as int, end), f.2));
    assert(cs.len() == 1);
    assert(cs.last() == cs[0]);
    assert(cs.drop_last() =~= Seq::<(Seq<u8>, u16)>::empty());
    assert(readable_files(Seq::<(Seq<u8>, u16)>::empty()) == Seq::<(Seq<u8>, u16)>::empty());
    assert(type_of_code(f.2) == ResourceType::FileTypeTi);
    assert(IEModels::read_error(cs[0].0, type_of_code(cs[0].1)) is None);
    assert(readable_files(cs) =~= seq![cs[0]]);
}

} // verus!
