use std::io::Write;

use models::bam::{lookup_table_size, Bam, CycleEntry};
use models::biff::Biff;
use models::bio::Biography;
use models::common::types::ResourceType;
use models::dialogue::{Dialogue, DialogueHeader};
use models::effect_v1::EffectV1;
use models::ids::Ids;
use models::key::Key;
use models::model::Model;
use models::save::{Save, SavedFile};
use models::tileset::Tileset;
use models::tlk::TLK;
use models::twoda::TwoDA;
use models::{from_buffer, from_buffer_with_resouce_type, Error, IEModels};

fn zlib(data: &[u8]) -> Vec<u8> {
    let mut e = flate2::write::ZlibEncoder::new(Vec::new(), flate2::Compression::default());
    e.write_all(data).unwrap();
    e.finish().unwrap()
}

fn u16le(v: u16) -> [u8; 2] {
    v.to_le_bytes()
}

fn u32le(v: u32) -> [u8; 4] {
    v.to_le_bytes()
}

fn tlk_buffer(count: u32) -> Vec<u8> {
    let mut b = Vec::new();
    b.extend_from_slice(b"TLK V1  ");
    b.extend_from_slice(&u16le(0));
    b.extend_from_slice(&u32le(count));
    b.extend_from_slice(&u32le(18 + 2 * 26));
    for (offset, length) in [(0u32, 5u32), (5, 100)] {
        b.extend_from_slice(&u16le(1));
        b.extend_from_slice(&[0u8; 8]);
        b.extend_from_slice(&u32le(0));
        b.extend_from_slice(&u32le(0));
        b.extend_from_slice(&u32le(offset));
        b.extend_from_slice(&u32le(length));
    }
    b.extend_from_slice(b"Hello");
    b
}

#[test]
fn tlk_reads_texts_inside_the_file() {
    let b = tlk_buffer(2);
    let tlk = TLK::try_from(&b).unwrap();
    assert_eq!(tlk.header.count_of_entries, 2);
    assert_eq!(tlk.entries.len(), 2);
    assert_eq!(tlk.entries[1].length_of_this_string, 100);
    assert_eq!(tlk.strings.len(), 1);
    assert_eq!(tlk.strings.get(0), Some("Hello"));
}

#[test]
fn tlk_errors() {
    let b = tlk_buffer(2);
    assert_eq!(TLK::try_from(&b[..10]).unwrap_err(), Error::HeaderTooShort);
    assert_eq!(TLK::try_from(&tlk_buffer(5)).unwrap_err(), Error::MissingEntries);
    let tlk = TLK::try_from(&b).unwrap();
    assert_eq!(tlk.try_into().unwrap_err(), Error::HeaderNotWritten);
}

fn key_buffer(count_of_bifs: u32, count_of_resources: u32) -> Vec<u8> {
    let mut b = Vec::new();
    b.extend_from_slice(b"KEY V1  ");
    b.extend_from_slice(&u32le(count_of_bifs));
    b.extend_from_slice(&u32le(count_of_resources));
    b.extend_from_slice(&u32le(24));
    b.extend_from_slice(&u32le(44));
    b.extend_from_slice(&u32le(1234));
    b.extend_from_slice(&u32le(36));
    b.extend_from_slice(&u16le(8));
    b.extend_from_slice(&u16le(1));
    b.extend_from_slice(b"data.bif");
    b.extend_from_slice(b"SWORD\0\0\0");
    b.extend_from_slice(&u16le(0x03ed));
    b.extend_from_slice(&u32le(7));
    b
}

#[test]
fn key_reads_entries_and_names() {
    let key = Key::try_from(&key_buffer(1, 1)).unwrap();
    assert_eq!(key.bif_entries.len(), 1);
    assert_eq!(key.bif_entries[0].file_length, 1234);
    assert_eq!(key.bif_file_names.len(), 1);
    assert_eq!(key.bif_file_names.get(0), Some("data.bif"));
    assert_eq!(key.resource_entries.len(), 1);
    assert_eq!(key.resource_entries[0].resource_type, 0x03ed);
    assert_eq!(key.resource_entries[0].locator, 7);
    assert_eq!(key.try_into().unwrap_err(), Error::HeaderNotWritten);
}

#[test]
fn key_tables_that_do_not_fit_are_empty() {
    let key = Key::try_from(&key_buffer(4, 2)).unwrap();
    assert!(key.bif_entries.is_empty());
    assert_eq!(key.bif_file_names.len(), 0);
    assert!(key.resource_entries.is_empty());
    let mut far_name = key_buffer(1, 0);
    far_name[28..32].copy_from_slice(&u32le(1000));
    let key = Key::try_from(&far_name).unwrap();
    assert_eq!(key.bif_file_names.get(0), Some(""));
}

#[test]
fn key_errors() {
    assert_eq!(Key::try_from(&key_buffer(1, 0)[..20]).unwrap_err(), Error::HeaderTooShort);
}

fn biff_buffer() -> Vec<u8> {
    let mut b = Vec::new();
    b.extend_from_slice(b"BIFFV1  ");
    b.extend_from_slice(&u32le(4));
    b.extend_from_slice(&u32le(0));
    b.extend_from_slice(&u32le(20));
    for (offset, size, kind) in [(84u32, 2u32, 0x03feu16), (86, 3, 0x0001), (89, 1, 0x0001), (86, 3, 0x03f4)] {
        b.extend_from_slice(&u32le(0));
        b.extend_from_slice(&u32le(offset));
        b.extend_from_slice(&u32le(size));
        b.extend_from_slice(&u16le(kind));
        b.extend_from_slice(&u16le(0));
    }
    b.extend_from_slice(b"HiA BX");
    b
}

#[test]
fn biff_reads_each_file_from_its_own_bytes() {
    let b = biff_buffer();
    let biff = Biff::try_from(&b).unwrap();
    assert_eq!(biff.fileset_entries.len(), 4);
    assert!(biff.tileset_entries.is_empty());
    assert_eq!(biff.contained_files.len(), 2);
    match &biff.contained_files[0] {
        IEModels::Biography(bio) => assert_eq!(bio.contents, "Hi"),
        other => panic!("unexpected {:?}", other),
    }
    match &biff.contained_files[1] {
        IEModels::TwoDA(t) => assert_eq!(t.data, "A B"),
        other => panic!("unexpected {:?}", other),
    }
    assert_eq!(biff.try_into().unwrap_err(), Error::HeaderNotWritten);
    assert!(matches!(Biff::try_from(&b[..19]), Err(Error::HeaderTooShort)));
}

#[test]
fn biff_file_past_the_end_is_read_as_empty() {
    let mut b = biff_buffer();
    b[24..28].copy_from_slice(&u32le(500));
    let biff = Biff::try_from(&b).unwrap();
    assert_eq!(biff.contained_files.len(), 2);
    match &biff.contained_files[0] {
        IEModels::TwoDA(t) => assert_eq!(t.data, "A B"),
        other => panic!("unexpected {:?}", other),
    }
    match &biff.contained_files[1] {
        IEModels::Biography(bio) => assert_eq!(bio.contents, ""),
        other => panic!("unexpected {:?}", other),
    }
}

#[test]
fn biff_files_come_in_order_of_their_ends() {
    let mut b = Vec::new();
    b.extend_from_slice(b"BIFFV1  ");
    b.extend_from_slice(&u32le(3));
    b.extend_from_slice(&u32le(0));
    b.extend_from_slice(&u32le(20));
    for (offset, size, kind) in [(70u32, 3u32, 0x03f4u16), (68, 2, 0x03fe), (73, 2, 0x03fe)] {
        b.extend_from_slice(&u32le(0));
        b.extend_from_slice(&u32le(offset));
        b.extend_from_slice(&u32le(size));
        b.extend_from_slice(&u16le(kind));
        b.extend_from_slice(&u16le(0));
    }
    b.extend_from_slice(b"HiA BOk");
    let biff = Biff::try_from(&b).unwrap();
    assert_eq!(biff.contained_files.len(), 3);
    match &biff.contained_files[0] {
        IEModels::Biography(bio) => assert_eq!(bio.contents, "Hi"),
        other => panic!("unexpected {:?}", other),
    }
    match &biff.contained_files[1] {
        IEModels::TwoDA(t) => assert_eq!(t.data, "A B"),
        other => panic!("unexpected {:?}", other),
    }
    match &biff.contained_files[2] {
        IEModels::Biography(bio) => assert_eq!(bio.contents, "Ok"),
        other => panic!("unexpected {:?}", other),
    }
}

#[test]
fn biff_keeps_the_last_file_that_ends_at_a_place() {
    let b = biff_buffer();
    let biff = Biff::try_from(&b).unwrap();
    assert_eq!(biff.contained_files.len(), 2);
    assert!(matches!(&biff.contained_files[1], IEModels::TwoDA(_)));
}

fn bam_v1_buffer(cycles: i8, palette: u32, lookup: u32) -> Vec<u8> {
    let mut b = Vec::new();
    b.extend_from_slice(&[66, 65, 77, 0]);
    b.extend_from_slice(b"v1  ");
    b.extend_from_slice(&u16le(1));
    b.push(cycles as u8);
    b.push(0);
    b.extend_from_slice(&u32le(24));
    b.extend_from_slice(&u32le(palette));
    b.extend_from_slice(&u32le(lookup));
    b.extend_from_slice(&[1, 0, 2, 0, 3, 0, 4, 0, 5, 0, 0, 0]);
    b.extend_from_slice(&u16le(2));
    b.extend_from_slice(&u16le(1));
    b.extend_from_slice(&[7, 7, 7, 7]);
    b.extend_from_slice(&[0, 1, 2]);
    b.extend_from_slice(&[9, 9]);
    b
}

#[test]
fn bam_v1_reads_every_part_and_writes_back() {
    let b = bam_v1_buffer(1, 40, 44);
    let bam = Bam::parse(&b).unwrap();
    assert_eq!(bam.bamv1header.count_of_frame_entries, 1);
    assert_eq!(bam.bamv1_frame_entries[0].frame_width, 1);
    assert_eq!(bam.bamv1_cycle_entries.len(), 1);
    assert_eq!(bam.bamv1_palette, vec![7, 7, 7, 7]);
    assert_eq!(bam.bamv1_lookup_table, vec![0, 1, 2]);
    assert_eq!(bam.bamv1_frame_data, vec![9, 9]);
    assert!(bam.compressed_data.is_empty());
    assert!(bam.bamv2_frame_entries.is_empty());
    assert_eq!(bam.to_bytes(), b);
}

#[test]
fn bam_v1_rejects_negative_cycles_and_reversed_offsets() {
    assert!(Bam::parse(&bam_v1_buffer(-1, 40, 44)).is_none());
    assert!(Bam::parse(&bam_v1_buffer(1, 44, 40)).is_none());
}

#[test]
fn bamc_inflates_its_data() {
    let packed = zlib(b"frames");
    let mut b = Vec::new();
    b.extend_from_slice(b"BAMCV1  ");
    b.extend_from_slice(&u32le(6));
    b.extend_from_slice(&packed);
    let bam = Bam::parse(&b).unwrap();
    assert_eq!(bam.uncompressed_length, 6);
    assert_eq!(bam.compressed_data, packed);
    assert_eq!(bam.uncompressed_data, b"frames".to_vec());
    let given = Bam::from_compressed(&b, vec![1, 2, 3]).unwrap();
    assert_eq!(given.uncompressed_data, vec![1, 2, 3]);
    assert!(Bam::from_compressed(&b[..10], vec![]).is_none());
}

#[test]
fn lookup_table_size_is_the_largest_end() {
    let cycles = [
        CycleEntry { count_of_frame_indices: 2, index_into_frame_lookup_table: 1 },
        CycleEntry { count_of_frame_indices: 5, index_into_frame_lookup_table: 0 },
        CycleEntry { count_of_frame_indices: 0, index_into_frame_lookup_table: 4 },
    ];
    assert_eq!(lookup_table_size(&cycles), 5);
    assert_eq!(lookup_table_size(&[]), 0);
    let long = [CycleEntry { count_of_frame_indices: 65535, index_into_frame_lookup_table: 1 }];
    assert_eq!(lookup_table_size(&long), 65536);
}

#[test]
fn saved_files_decompress() {
    let file = SavedFile {
        length_of_filename: 4,
        filename: "A.ARE".to_string(),
        uncompressed_data_length: 5,
        compressed_data_length: 0,
        compressed_data: zlib(b"hello"),
    };
    assert_eq!(file.decompress().unwrap(), b"hello".to_vec());
    let broken = SavedFile { compressed_data: vec![1, 2, 3], ..file.clone() };
    assert_eq!(broken.decompress().unwrap_err(), Error::Decompress);
    assert_eq!(SavedFile::inflated_result(vec![1], false).unwrap_err(), Error::Decompress);
}

#[test]
fn save_reads_its_tags_and_writes_them_back() {
    let save = Save::try_from(b"SAV V1.0rest").unwrap();
    assert_eq!(&save.signature.0, b"SAV ");
    assert_eq!(&save.version.0, b"V1.0");
    assert!(save.files.is_empty());
    assert_eq!(save.try_into().unwrap(), b"SAV V1.0".to_vec());
    assert_eq!(Save::try_from(b"SAV V1").unwrap_err(), Error::WrongTagLength);
}

#[test]
fn text_formats_round_trip() {
    let bio = Biography::parse("A life.\n".as_bytes()).unwrap();
    assert_eq!(bio.contents, "A life.\n");
    assert_eq!(bio.to_bytes(), b"A life.\n".to_vec());
    let bad = Biography::parse(&[0xff, 0x00]).unwrap();
    assert_eq!(bad.contents, "");
    let table = TwoDA::parse(b"2DA V1.0").unwrap();
    assert_eq!(table.to_bytes(), b"2DA V1.0".to_vec());
    let ids = Ids::try_from(b"1 HUMAN").unwrap();
    assert_eq!(ids.data, "1 HUMAN");
    assert_eq!(ids.try_into().unwrap(), b"1 HUMAN".to_vec());
    assert_eq!(Ids::try_from(&[0xff]).unwrap_err(), Error::InvalidUtf8);
    let tiles = Tileset::try_from(&[1, 2, 3]).unwrap();
    assert_eq!(tiles.try_into().unwrap(), vec![1, 2, 3]);
}

#[test]
fn record_round_trips() {
    let b: Vec<u8> = (0..60u8).collect();
    let e = EffectV1::parse(&b).unwrap();
    assert_eq!(e.effect_type, 0x0100);
    assert_eq!(e.to_bytes(), b[..48].to_vec());
    assert!(EffectV1::parse(&b[..47]).is_none());
}

#[test]
fn dialogue_reads_header_and_writes_it_back() {
    let mut b = b"DLG V1.0".to_vec();
    b.extend_from_slice(&[0u8; 36]);
    b.extend_from_slice(&u32le(0));
    b.extend_from_slice(&[1, 2, 3, 4]);
    let d = Dialogue::parse(&b).unwrap();
    assert_eq!(d.header.signature, "DLG ");
    assert_eq!(d.header.version, "V1.0");
    assert!(d.state_tables.is_empty());
    assert!(Dialogue::parse(&b[..51]).is_none());
    assert_eq!(d.to_bytes(), b);
    let header = DialogueHeader {
        signature: "DLG ".to_string(),
        version: "V1.0".to_string(),
        count_of_state_tables: 0,
        offset_to_state_table: 0,
        count_of_transitions: 0,
        offset_to_transition_table: 0,
        offset_to_state_trigger_table: 0,
        count_of_state_triggers: 0,
        offset_to_transition_trigger_table: 0,
        count_of_transition_triggers: 0,
        offset_to_action_table: 0,
        count_of_action_tables: 7,
        flags: vec![1, 2, 3, 4],
    };
    let written = Dialogue {
        header,
        state_tables: vec![],
        transitions: vec![],
        state_triggers: vec![],
        transition_triggers: vec![],
        action_tables: vec![],
    }
    .to_bytes();
    let mut expected = b"DLG V1.0".to_vec();
    expected.extend_from_slice(&[0u8; 36]);
    expected.extend_from_slice(&u32le(7));
    expected.extend_from_slice(&[1, 2, 3, 4]);
    assert_eq!(written, expected);
}

#[test]
fn resource_types_and_dispatch() {
    assert_eq!(ResourceType::from("ITM"), ResourceType::FileTypeItm);
    assert_eq!(ResourceType::from("itm"), ResourceType::FileTypeItm);
    assert_eq!(ResourceType::from("xyz"), ResourceType::NotFound);
    assert_eq!(ResourceType::from_code(0x03ed), Some(ResourceType::FileTypeItm));
    assert_eq!(ResourceType::from_code(0x7777), None);
    assert_eq!(ResourceType::FileTypeBio.code(), 0x03fe);
    match from_buffer(b"hello", 0x03fe).unwrap() {
        IEModels::Biography(bio) => assert_eq!(bio.contents, "hello"),
        other => panic!("unexpected {:?}", other),
    }
    assert_eq!(from_buffer(b"hello", 0x7777).unwrap_err(), Error::NotImplemented);
    assert_eq!(
        from_buffer_with_resouce_type(b"hello", ResourceType::FileTypeWav).unwrap_err(),
        Error::NotImplemented
    );
    let model = from_buffer_with_resouce_type(&[1, 2], ResourceType::FileTypeTi).unwrap();
    assert_eq!(model.to_bytes().unwrap(), vec![1, 2]);
}

#[test]
fn whole_files_write_back_what_was_read() {
    let zeros = vec![0u8; 8192];
    let area = models::area::Area::parse(&zeros).unwrap();
    assert_eq!(area.to_bytes(), zeros);
    let item = models::item::Item::parse(&zeros).unwrap();
    assert!(item.extended_headers.is_empty());
    assert_eq!(item.to_bytes(), zeros);
    let spell = models::spell::Spell::parse(&zeros).unwrap();
    assert_eq!(spell.to_bytes(), zeros);
    let game = models::game::Game::parse(&zeros).unwrap();
    assert!(game.party_npcs.is_empty());
    assert_eq!(game.to_bytes(), zeros);
    assert!(models::area::Area::parse(&zeros[..4]).is_none());
}

#[test]
fn creature_writes_back_the_bytes_it_was_read_from() {
    let mut b = vec![0u8; 2000];
    b[1500] = 9;
    let creature = models::creature::Creature::parse(&b).unwrap();
    assert_eq!(creature.to_bytes(), b);
}

#[test]
fn game_reads_each_creature_from_its_own_bytes() {
    let mut b = vec![0u8; 8192];
    b[32..36].copy_from_slice(&u32le(200));
    b[36..40].copy_from_slice(&u32le(2));
    b[204..208].copy_from_slice(&u32le(4000));
    b[208..212].copy_from_slice(&u32le(1000));
    b[556..560].copy_from_slice(&u32le(6000));
    b[560..564].copy_from_slice(&u32le(800));
    b[4900] = 7;
    b[6700] = 8;
    let game = models::game::Game::parse(&b).unwrap();
    assert_eq!(game.party_npcs.len(), 2);
    assert_eq!(game.party_npcs_cres.len(), 2);
    assert_eq!(game.party_npcs_cres[0].to_bytes(), b[4000..5000].to_vec());
    assert_eq!(game.party_npcs_cres[1].to_bytes(), b[6000..6800].to_vec());
    assert_eq!(game.to_bytes(), b);
}
