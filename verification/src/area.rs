//! Areas (ARE V1.0): the actors, regions, doors and other objects of a map.
use vstd::prelude::*;

use crate::common::binary::{Codec, check_all_wf, enc_seq, all_wf, seq_same, lemma_subrange_concat, lemma_concat_peel, lemma_enc_seq_len, lemma_enc_seq_injective, decode_vec, decode_array, encoded, encoded_slice, decoded_at, lemma_decoded_at, record_parsed, section_parsed, read_at, read_section, section_ok};
use crate::common::char_array::CharArray;
use crate::common::header::Header;
use crate::common::strref::Strref;
use crate::common::Resref;
use crate::model::Model;

verus! {

/// https://gibberlings3.github.io/iesdp/file_formats/ie_formats/are_v1.htm#formAREAV1_0_Header
#[derive(Debug, Clone, PartialEq)]
pub struct FileHeader {
    pub header: Header,
    pub area_wed: Resref,
    pub last_saved: u32,
    pub area_flags: u32,
    pub resref_of_the_area_to_the_north_of_this_area: Resref,
    pub north_area_flags: u32,
    pub resref_of_the_area_to_the_east_of_this_area: Resref,
    pub east_area_flags: u32,
    pub resref_of_the_area_to_the_south_of_this_area: Resref,
    pub south_area_flags: u32,
    pub resref_of_the_area_to_the_west_of_this_area: Resref,
    pub west_area_flags: u32,
    pub area_type_flags: u16,
    pub rain_probability: u16,
    pub snow_probability: u16,
    /// bgee only
    pub fog_probability: u16,
    pub lightning_probability: u16,
    pub wind_speed: u16,
    pub offset_to_actors: u32,
    pub count_of_actors: u16,
    pub count_of_regions: u16,
    pub offset_to_regions: u32,
    pub offset_to_spawn_points: u32,
    pub count_of_spawn_points: u32,
    pub offset_to_entrances: u32,
    pub count_of_entrances: u32,
    pub offset_to_containers: u32,
    pub count_of_containers: u16,
    pub count_of_items: u16,
    pub offset_to_items: u32,
    pub offset_to_vertices: u32,
    pub count_of_vertices: u16,
    pub count_of_ambients: u16,
    pub offset_to_ambients: u32,
    pub offset_to_variables: u32,
    pub count_of_variables: u32,
    pub offset_to_tiled_object_flags: u16,
    pub count_of_tiled_object_flags: u16,
    pub area_script: Resref,
    pub size_of_explored_bitmask: u32,
    pub offset_to_explored_bitmask: u32,
    pub count_of_doors: u32,
    pub offset_to_doors: u32,
    pub count_of_animations: u32,
    pub offset_to_animations: u32,
    pub count_of_tiled_objects: u32,
    pub offset_to_tiled_objects: u32,
    pub offset_to_song_entries: u32,
    pub offset_to_rest_interruptions: u32,
    pub offset_to_automap_notes: u32,
    pub count_of_automap_notes: u32,
    pub offset_to_projectile_traps: u32,
    pub number_of_entries_in_the_projectile_traps: u32,
    /// bgee and bg2:tob
    pub rest_movie_day: Resref,
    /// bgee and bg2:tob
    pub rest_movie_night: Resref,
    pub _unused: Vec<u8>,
}

impl FileHeader {
    /// Encoding of the fields 0 to 55, in order.
    pub open spec fn bytes_0_56(&self) -> Seq<u8> {
        self.bytes_0_28() + self.bytes_28_56()
    }

    /// Encoding of the fields 0 to 27, in order.
    pub open spec fn bytes_0_28(&self) -> Seq<u8> {
        self.bytes_0_14() + self.bytes_14_28()
    }

    /// Encoding of the fields 0 to 13, in order.
    pub open spec fn bytes_0_14(&self) -> Seq<u8> {
        self.bytes_0_7() + self.bytes_7_14()
    }

    /// Encoding of the fields 0 to 6, in order.
    pub open spec fn bytes_0_7(&self) -> Seq<u8> {
        self.bytes_0_3() + self.bytes_3_7()
    }

    /// Encoding of the fields 0 to 2, in order.
    pub open spec fn bytes_0_3(&self) -> Seq<u8> {
        self.header.enc() + self.bytes_1_3()
    }

    /// Encoding of the fields 1 to 2, in order.
    pub open spec fn bytes_1_3(&self) -> Seq<u8> {
        self.area_wed.enc() + self.last_saved.enc()
    }

    /// Encoding of the fields 3 to 6, in order.
    pub open spec fn bytes_3_7(&self) -> Seq<u8> {
        self.bytes_3_5() + self.bytes_5_7()
    }

    /// Encoding of the fields 3 to 4, in order.
    pub open spec fn bytes_3_5(&self) -> Seq<u8> {
        self.area_flags.enc() + self.resref_of_the_area_to_the_north_of_this_area.enc()
    }

    /// Encoding of the fields 5 to 6, in order.
    pub open spec fn bytes_5_7(&self) -> Seq<u8> {
        self.north_area_flags.enc() + self.resref_of_the_area_to_the_east_of_this_area.enc()
    }

    /// Encoding of the fields 7 to 13, in order.
    pub open spec fn bytes_7_14(&self) -> Seq<u8> {
        self.bytes_7_10() + self.bytes_10_14()
    }

    /// Encoding of the fields 7 to 9, in order.
    pub open spec fn bytes_7_10(&self) -> Seq<u8> {
        self.east_area_flags.enc() + self.bytes_8_10()
    }

    /// Encoding of the fields 8 to 9, in order.
    pub open spec fn bytes_8_10(&self) -> Seq<u8> {
        self.resref_of_the_area_to_the_south_of_this_area.enc() + self.south_area_flags.enc()
    }

    /// Encoding of the fields 10 to 13, in order.
    pub open spec fn bytes_10_14(&self) -> Seq<u8> {
        self.bytes_10_12() + self.bytes_12_14()
    }

    /// Encoding of the fields 10 to 11, in order.
    pub open spec fn bytes_10_12(&self) -> Seq<u8> {
        self.resref_of_the_area_to_the_west_of_this_area.enc() + self.west_area_flags.enc()
    }

    /// Encoding of the fields 12 to 13, in order.
    pub open spec fn bytes_12_14(&self) -> Seq<u8> {
        self.area_type_flags.enc() + self.rain_probability.enc()
    }

    /// Encoding of the fields 14 to 27, in order.
    pub open spec fn bytes_14_28(&self) -> Seq<u8> {
        self.bytes_14_21() + self.bytes_21_28()
    }

    /// Encoding of the fields 14 to 20, in order.
    pub open spec fn bytes_14_21(&self) -> Seq<u8> {
        self.bytes_14_17() + self.bytes_17_21()
    }

    /// Encoding of the fields 14 to 16, in order.
    pub open spec fn bytes_14_17(&self) -> Seq<u8> {
        self.snow_probability.enc() + self.bytes_15_17()
    }

    /// Encoding of the fields 15 to 16, in order.
    pub open spec fn bytes_15_17(&self) -> Seq<u8> {
        self.fog_probability.enc() + self.lightning_probability.enc()
    }

    /// Encoding of the fields 17 to 20, in order.
    pub open spec fn bytes_17_21(&self) -> Seq<u8> {
        self.bytes_17_19() + self.bytes_19_21()
    }

    /// Encoding of the fields 17 to 18, in order.
    pub open spec fn bytes_17_19(&self) -> Seq<u8> {
        self.wind_speed.enc() + self.offset_to_actors.enc()
    }

    /// Encoding of the fields 19 to 20, in order.
    pub open spec fn bytes_19_21(&self) -> Seq<u8> {
        self.count_of_actors.enc() + self.count_of_regions.enc()
    }

    /// Encoding of the fields 21 to 27, in order.
    pub open spec fn bytes_21_28(&self) -> Seq<u8> {
        self.bytes_21_24() + self.bytes_24_28()
    }

    /// Encoding of the fields 21 to 23, in order.
    pub open spec fn bytes_21_24(&self) -> Seq<u8> {
        self.offset_to_regions.enc() + self.bytes_22_24()
    }

    /// Encoding of the fields 22 to 23, in order.
    pub open spec fn bytes_22_24(&self) -> Seq<u8> {
        self.offset_to_spawn_points.enc() + self.count_of_spawn_points.enc()
    }

    /// Encoding of the fields 24 to 27, in order.
    pub open spec fn bytes_24_28(&self) -> Seq<u8> {
        self.bytes_24_26() + self.bytes_26_28()
    }

    /// Encoding of the fields 24 to 25, in order.
    pub open spec fn bytes_24_26(&self) -> Seq<u8> {
        self.offset_to_entrances.enc() + self.count_of_entrances.enc()
    }

    /// Encoding of the fields 26 to 27, in order.
    pub open spec fn bytes_26_28(&self) -> Seq<u8> {
        self.offset_to_containers.enc() + self.count_of_containers.enc()
    }

    /// Encoding of the fields 28 to 55, in order.
    pub open spec fn bytes_28_56(&self) -> Seq<u8> {
        self.bytes_28_42() + self.bytes_42_56()
    }

    /// Encoding of the fields 28 to 41, in order.
    pub open spec fn bytes_28_42(&self) -> Seq<u8> {
        self.bytes_28_35() + self.bytes_35_42()
    }

    /// Encoding of the fields 28 to 34, in order.
    pub open spec fn bytes_28_35(&self) -> Seq<u8> {
        self.bytes_28_31() + self.bytes_31_35()
    }

    /// Encoding of the fields 28 to 30, in order.
    pub open spec fn bytes_28_31(&self) -> Seq<u8> {
        self.count_of_items.enc() + self.bytes_29_31()
    }

    /// Encoding of the fields 29 to 30, in order.
    pub open spec fn bytes_29_31(&self) -> Seq<u8> {
        self.offset_to_items.enc() + self.offset_to_vertices.enc()
    }

    /// Encoding of the fields 31 to 34, in order.
    pub open spec fn bytes_31_35(&self) -> Seq<u8> {
        self.bytes_31_33() + self.bytes_33_35()
    }

    /// Encoding of the fields 31 to 32, in order.
    pub open spec fn bytes_31_33(&self) -> Seq<u8> {
        self.count_of_vertices.enc() + self.count_of_ambients.enc()
    }

    /// Encoding of the fields 33 to 34, in order.
    pub open spec fn bytes_33_35(&self) -> Seq<u8> {
        self.offset_to_ambients.enc() + self.offset_to_variables.enc()
    }

    /// Encoding of the fields 35 to 41, in order.
    pub open spec fn bytes_35_42(&self) -> Seq<u8> {
        self.bytes_35_38() + self.bytes_38_42()
    }

    /// Encoding of the fields 35 to 37, in order.
    pub open spec fn bytes_35_38(&self) -> Seq<u8> {
        self.count_of_variables.enc() + self.bytes_36_38()
    }

    /// Encoding of the fields 36 to 37, in order.
    pub open spec fn bytes_36_38(&self) -> Seq<u8> {
        self.offset_to_tiled_object_flags.enc() + self.count_of_tiled_object_flags.enc()
    }

    /// Encoding of the fields 38 to 41, in order.
    pub open spec fn bytes_38_42(&self) -> Seq<u8> {
        self.bytes_38_40() + self.bytes_40_42()
    }

    /// Encoding of the fields 38 to 39, in order.
    pub open spec fn bytes_38_40(&self) -> Seq<u8> {
        self.area_script.enc() + self.size_of_explored_bitmask.enc()
    }

    /// Encoding of the fields 40 to 41, in order.
    pub open spec fn bytes_40_42(&self) -> Seq<u8> {
        self.offset_to_explored_bitmask.enc() + self.count_of_doors.enc()
    }

    /// Encoding of the fields 42 to 55, in order.
    pub open spec fn bytes_42_56(&self) -> Seq<u8> {
        self.bytes_42_49() + self.bytes_49_56()
    }

    /// Encoding of the fields 42 to 48, in order.
    pub open spec fn bytes_42_49(&self) -> Seq<u8> {
        self.bytes_42_45() + self.bytes_45_49()
    }

    /// Encoding of the fields 42 to 44, in order.
    pub open spec fn bytes_42_45(&self) -> Seq<u8> {
        self.offset_to_doors.enc() + self.bytes_43_45()
    }

    /// Encoding of the fields 43 to 44, in order.
    pub open spec fn bytes_43_45(&self) -> Seq<u8> {
        self.count_of_animations.enc() + self.offset_to_animations.enc()
    }

    /// Encoding of the fields 45 to 48, in order.
    pub open spec fn bytes_45_49(&self) -> Seq<u8> {
        self.bytes_45_47() + self.bytes_47_49()
    }

    /// Encoding of the fields 45 to 46, in order.
    pub open spec fn bytes_45_47(&self) -> Seq<u8> {
        self.count_of_tiled_objects.enc() + self.offset_to_tiled_objects.enc()
    }

    /// Encoding of the fields 47 to 48, in order.
    pub open spec fn bytes_47_49(&self) -> Seq<u8> {
        self.offset_to_song_entries.enc() + self.offset_to_rest_interruptions.enc()
    }

    /// Encoding of the fields 49 to 55, in order.
    pub open spec fn bytes_49_56(&self) -> Seq<u8> {
        self.bytes_49_52() + self.bytes_52_56()
    }

    /// Encoding of the fields 49 to 51, in order.
    pub open spec fn bytes_49_52(&self) -> Seq<u8> {
        self.offset_to_automap_notes.enc() + self.bytes_50_52()
    }

    /// Encoding of the fields 50 to 51, in order.
    pub open spec fn bytes_50_52(&self) -> Seq<u8> {
        self.count_of_automap_notes.enc() + self.offset_to_projectile_traps.enc()
    }

    /// Encoding of the fields 52 to 55, in order.
    pub open spec fn bytes_52_56(&self) -> Seq<u8> {
        self.bytes_52_54() + self.bytes_54_56()
    }

    /// Encoding of the fields 52 to 53, in order.
    pub open spec fn bytes_52_54(&self) -> Seq<u8> {
        self.number_of_entries_in_the_projectile_traps.enc() + self.rest_movie_day.enc()
    }

    /// Encoding of the fields 54 to 55, in order.
    pub open spec fn bytes_54_56(&self) -> Seq<u8> {
        self.rest_movie_night.enc() + enc_seq(self._unused@)
    }
}

impl Codec for FileHeader {
    open spec fn width() -> nat {
        284
    }

    open spec fn enc(&self) -> Seq<u8> {
        self.bytes_0_56()
    }

    open spec fn wf(&self) -> bool {
        &&& self.header.wf()
        &&& self._unused@.len() == 56
        &&& all_wf(self._unused@)
    }

    open spec fn same(&self, other: &Self) -> bool {
        &&& self.header.same(&other.header)
        &&& self.area_wed.same(&other.area_wed)
        &&& self.last_saved == other.last_saved
        &&& self.area_flags == other.area_flags
        &&& self.resref_of_the_area_to_the_north_of_this_area.same(&other.resref_of_the_area_to_the_north_of_this_area)
        &&& self.north_area_flags == other.north_area_flags
        &&& self.resref_of_the_area_to_the_east_of_this_area.same(&other.resref_of_the_area_to_the_east_of_this_area)
        &&& self.east_area_flags == other.east_area_flags
        &&& self.resref_of_the_area_to_the_south_of_this_area.same(&other.resref_of_the_area_to_the_south_of_this_area)
        &&& self.south_area_flags == other.south_area_flags
        &&& self.resref_of_the_area_to_the_west_of_this_area.same(&other.resref_of_the_area_to_the_west_of_this_area)
        &&& self.west_area_flags == other.west_area_flags
        &&& self.area_type_flags == other.area_type_flags
        &&& self.rain_probability == other.rain_probability
        &&& self.snow_probability == other.snow_probability
        &&& self.fog_probability == other.fog_probability
        &&& self.lightning_probability == other.lightning_probability
        &&& self.wind_speed == other.wind_speed
        &&& self.offset_to_actors == other.offset_to_actors
        &&& self.count_of_actors == other.count_of_actors
        &&& self.count_of_regions == other.count_of_regions
        &&& self.offset_to_regions == other.offset_to_regions
        &&& self.offset_to_spawn_points == other.offset_to_spawn_points
        &&& self.count_of_spawn_points == other.count_of_spawn_points
        &&& self.offset_to_entrances == other.offset_to_entrances
        &&& self.count_of_entrances == other.count_of_entrances
        &&& self.offset_to_containers == other.offset_to_containers
        &&& self.count_of_containers == other.count_of_containers
        &&& self.count_of_items == other.count_of_items
        &&& self.offset_to_items == other.offset_to_items
        &&& self.offset_to_vertices == other.offset_to_vertices
        &&& self.count_of_vertices == other.count_of_vertices
        &&& self.count_of_ambients == other.count_of_ambients
        &&& self.offset_to_ambients == other.offset_to_ambients
        &&& self.offset_to_variables == other.offset_to_variables
        &&& self.count_of_variables == other.count_of_variables
        &&& self.offset_to_tiled_object_flags == other.offset_to_tiled_object_flags
        &&& self.count_of_tiled_object_flags == other.count_of_tiled_object_flags
        &&& self.area_script.same(&other.area_script)
        &&& self.size_of_explored_bitmask == other.size_of_explored_bitmask
        &&& self.offset_to_explored_bitmask == other.offset_to_explored_bitmask
        &&& self.count_of_doors == other.count_of_doors
        &&& self.offset_to_doors == other.offset_to_doors
        &&& self.count_of_animations == other.count_of_animations
        &&& self.offset_to_animations == other.offset_to_animations
        &&& self.count_of_tiled_objects == other.count_of_tiled_objects
        &&& self.offset_to_tiled_objects == other.offset_to_tiled_objects
        &&& self.offset_to_song_entries == other.offset_to_song_entries
        &&& self.offset_to_rest_interruptions == other.offset_to_rest_interruptions
        &&& self.offset_to_automap_notes == other.offset_to_automap_notes
        &&& self.count_of_automap_notes == other.count_of_automap_notes
        &&& self.offset_to_projectile_traps == other.offset_to_projectile_traps
        &&& self.number_of_entries_in_the_projectile_traps == other.number_of_entries_in_the_projectile_traps
        &&& self.rest_movie_day.same(&other.rest_movie_day)
        &&& self.rest_movie_night.same(&other.rest_movie_night)
        &&& seq_same(self._unused@, other._unused@)
    }

    fn byte_width() -> (n: usize) {
        284
    }

    fn check_wf(&self) -> (b: bool) {
        self.header.check_wf() && self._unused.len() == 56 && check_all_wf(self._unused.as_slice())
    }

    proof fn lemma_enc_len(&self) {
        self.header.lemma_enc_len();
        self.area_wed.lemma_enc_len();
        self.last_saved.lemma_enc_len();
        self.area_flags.lemma_enc_len();
        self.resref_of_the_area_to_the_north_of_this_area.lemma_enc_len();
        self.north_area_flags.lemma_enc_len();
        self.resref_of_the_area_to_the_east_of_this_area.lemma_enc_len();
        self.east_area_flags.lemma_enc_len();
        self.resref_of_the_area_to_the_south_of_this_area.lemma_enc_len();
        self.south_area_flags.lemma_enc_len();
        self.resref_of_the_area_to_the_west_of_this_area.lemma_enc_len();
        self.west_area_flags.lemma_enc_len();
        self.area_type_flags.lemma_enc_len();
        self.rain_probability.lemma_enc_len();
        self.snow_probability.lemma_enc_len();
        self.fog_probability.lemma_enc_len();
        self.lightning_probability.lemma_enc_len();
        self.wind_speed.lemma_enc_len();
        self.offset_to_actors.lemma_enc_len();
        self.count_of_actors.lemma_enc_len();
        self.count_of_regions.lemma_enc_len();
        self.offset_to_regions.lemma_enc_len();
        self.offset_to_spawn_points.lemma_enc_len();
        self.count_of_spawn_points.lemma_enc_len();
        self.offset_to_entrances.lemma_enc_len();
        self.count_of_entrances.lemma_enc_len();
        self.offset_to_containers.lemma_enc_len();
        self.count_of_containers.lemma_enc_len();
        self.count_of_items.lemma_enc_len();
        self.offset_to_items.lemma_enc_len();
        self.offset_to_vertices.lemma_enc_len();
        self.count_of_vertices.lemma_enc_len();
        self.count_of_ambients.lemma_enc_len();
        self.offset_to_ambients.lemma_enc_len();
        self.offset_to_variables.lemma_enc_len();
        self.count_of_variables.lemma_enc_len();
        self.offset_to_tiled_object_flags.lemma_enc_len();
        self.count_of_tiled_object_flags.lemma_enc_len();
        self.area_script.lemma_enc_len();
        self.size_of_explored_bitmask.lemma_enc_len();
        self.offset_to_explored_bitmask.lemma_enc_len();
        self.count_of_doors.lemma_enc_len();
        self.offset_to_doors.lemma_enc_len();
        self.count_of_animations.lemma_enc_len();
        self.offset_to_animations.lemma_enc_len();
        self.count_of_tiled_objects.lemma_enc_len();
        self.offset_to_tiled_objects.lemma_enc_len();
        self.offset_to_song_entries.lemma_enc_len();
        self.offset_to_rest_interruptions.lemma_enc_len();
        self.offset_to_automap_notes.lemma_enc_len();
        self.count_of_automap_notes.lemma_enc_len();
        self.offset_to_projectile_traps.lemma_enc_len();
        self.number_of_entries_in_the_projectile_traps.lemma_enc_len();
        self.rest_movie_day.lemma_enc_len();
        self.rest_movie_night.lemma_enc_len();
        lemma_enc_seq_len(self._unused@);
    }

    proof fn lemma_enc_injective(&self, other: &Self) {
        self.header.lemma_enc_len();
        self.area_wed.lemma_enc_len();
        self.last_saved.lemma_enc_len();
        self.area_flags.lemma_enc_len();
        self.resref_of_the_area_to_the_north_of_this_area.lemma_enc_len();
        self.north_area_flags.lemma_enc_len();
        self.resref_of_the_area_to_the_east_of_this_area.lemma_enc_len();
        self.east_area_flags.lemma_enc_len();
        self.resref_of_the_area_to_the_south_of_this_area.lemma_enc_len();
        self.south_area_flags.lemma_enc_len();
        self.resref_of_the_area_to_the_west_of_this_area.lemma_enc_len();
        self.west_area_flags.lemma_enc_len();
        self.area_type_flags.lemma_enc_len();
        self.rain_probability.lemma_enc_len();
        self.snow_probability.lemma_enc_len();
        self.fog_probability.lemma_enc_len();
        self.lightning_probability.lemma_enc_len();
        self.wind_speed.lemma_enc_len();
        self.offset_to_actors.lemma_enc_len();
        self.count_of_actors.lemma_enc_len();
        self.count_of_regions.lemma_enc_len();
        self.offset_to_regions.lemma_enc_len();
        self.offset_to_spawn_points.lemma_enc_len();
        self.count_of_spawn_points.lemma_enc_len();
        self.offset_to_entrances.lemma_enc_len();
        self.count_of_entrances.lemma_enc_len();
        self.offset_to_containers.lemma_enc_len();
        self.count_of_containers.lemma_enc_len();
        self.count_of_items.lemma_enc_len();
        self.offset_to_items.lemma_enc_len();
        self.offset_to_vertices.lemma_enc_len();
        self.count_of_vertices.lemma_enc_len();
        self.count_of_ambients.lemma_enc_len();
        self.offset_to_ambients.lemma_enc_len();
        self.offset_to_variables.lemma_enc_len();
        self.count_of_variables.lemma_enc_len();
        self.offset_to_tiled_object_flags.lemma_enc_len();
        self.count_of_tiled_object_flags.lemma_enc_len();
        self.area_script.lemma_enc_len();
        self.size_of_explored_bitmask.lemma_enc_len();
        self.offset_to_explored_bitmask.lemma_enc_len();
        self.count_of_doors.lemma_enc_len();
        self.offset_to_doors.lemma_enc_len();
        self.count_of_animations.lemma_enc_len();
        self.offset_to_animations.lemma_enc_len();
        self.count_of_tiled_objects.lemma_enc_len();
        self.offset_to_tiled_objects.lemma_enc_len();
        self.offset_to_song_entries.lemma_enc_len();
        self.offset_to_rest_interruptions.lemma_enc_len();
        self.offset_to_automap_notes.lemma_enc_len();
        self.count_of_automap_notes.lemma_enc_len();
        self.offset_to_projectile_traps.lemma_enc_len();
        self.number_of_entries_in_the_projectile_traps.lemma_enc_len();
        self.rest_movie_day.lemma_enc_len();
        self.rest_movie_night.lemma_enc_len();
        lemma_enc_seq_len(self._unused@);
        other.header.lemma_enc_len();
        other.area_wed.lemma_enc_len();
        other.last_saved.lemma_enc_len();
        other.area_flags.lemma_enc_len();
        other.resref_of_the_area_to_the_north_of_this_area.lemma_enc_len();
        other.north_area_flags.lemma_enc_len();
        other.resref_of_the_area_to_the_east_of_this_area.lemma_enc_len();
        other.east_area_flags.lemma_enc_len();
        other.resref_of_the_area_to_the_south_of_this_area.lemma_enc_len();
        other.south_area_flags.lemma_enc_len();
        other.resref_of_the_area_to_the_west_of_this_area.lemma_enc_len();
        other.west_area_flags.lemma_enc_len();
        other.area_type_flags.lemma_enc_len();
        other.rain_probability.lemma_enc_len();
        other.snow_probability.lemma_enc_len();
        other.fog_probability.lemma_enc_len();
        other.lightning_probability.lemma_enc_len();
        other.wind_speed.lemma_enc_len();
        other.offset_to_actors.lemma_enc_len();
        other.count_of_actors.lemma_enc_len();
        other.count_of_regions.lemma_enc_len();
        other.offset_to_regions.lemma_enc_len();
        other.offset_to_spawn_points.lemma_enc_len();
        other.count_of_spawn_points.lemma_enc_len();
        other.offset_to_entrances.lemma_enc_len();
        other.count_of_entrances.lemma_enc_len();
        other.offset_to_containers.lemma_enc_len();
        other.count_of_containers.lemma_enc_len();
        other.count_of_items.lemma_enc_len();
        other.offset_to_items.lemma_enc_len();
        other.offset_to_vertices.lemma_enc_len();
        other.count_of_vertices.lemma_enc_len();
        other.count_of_ambients.lemma_enc_len();
        other.offset_to_ambients.lemma_enc_len();
        other.offset_to_variables.lemma_enc_len();
        other.count_of_variables.lemma_enc_len();
        other.offset_to_tiled_object_flags.lemma_enc_len();
        other.count_of_tiled_object_flags.lemma_enc_len();
        other.area_script.lemma_enc_len();
        other.size_of_explored_bitmask.lemma_enc_len();
        other.offset_to_explored_bitmask.lemma_enc_len();
        other.count_of_doors.lemma_enc_len();
        other.offset_to_doors.lemma_enc_len();
        other.count_of_animations.lemma_enc_len();
        other.offset_to_animations.lemma_enc_len();
        other.count_of_tiled_objects.lemma_enc_len();
        other.offset_to_tiled_objects.lemma_enc_len();
        other.offset_to_song_entries.lemma_enc_len();
        other.offset_to_rest_interruptions.lemma_enc_len();
        other.offset_to_automap_notes.lemma_enc_len();
        other.count_of_automap_notes.lemma_enc_len();
        other.offset_to_projectile_traps.lemma_enc_len();
        other.number_of_entries_in_the_projectile_traps.lemma_enc_len();
        other.rest_movie_day.lemma_enc_len();
        other.rest_movie_night.lemma_enc_len();
        lemma_enc_seq_len(other._unused@);
        lemma_concat_peel(self.bytes_0_28(), self.bytes_28_56(), other.bytes_0_28(), other.bytes_28_56());
        lemma_concat_peel(self.bytes_0_14(), self.bytes_14_28(), other.bytes_0_14(), other.bytes_14_28());
        lemma_concat_peel(self.bytes_0_7(), self.bytes_7_14(), other.bytes_0_7(), other.bytes_7_14());
        lemma_concat_peel(self.bytes_0_3(), self.bytes_3_7(), other.bytes_0_3(), other.bytes_3_7());
        lemma_concat_peel(self.header.enc(), self.bytes_1_3(), other.header.enc(), other.bytes_1_3());
        lemma_concat_peel(self.area_wed.enc(), self.last_saved.enc(), other.area_wed.enc(), other.last_saved.enc());
        lemma_concat_peel(self.bytes_3_5(), self.bytes_5_7(), other.bytes_3_5(), other.bytes_5_7());
        lemma_concat_peel(self.area_flags.enc(), self.resref_of_the_area_to_the_north_of_this_area.enc(), other.area_flags.enc(), other.resref_of_the_area_to_the_north_of_this_area.enc());
        lemma_concat_peel(self.north_area_flags.enc(), self.resref_of_the_area_to_the_east_of_this_area.enc(), other.north_area_flags.enc(), other.resref_of_the_area_to_the_east_of_this_area.enc());
        lemma_concat_peel(self.bytes_7_10(), self.bytes_10_14(), other.bytes_7_10(), other.bytes_10_14());
        lemma_concat_peel(self.east_area_flags.enc(), self.bytes_8_10(), other.east_area_flags.enc(), other.bytes_8_10());
        lemma_concat_peel(self.resref_of_the_area_to_the_south_of_this_area.enc(), self.south_area_flags.enc(), other.resref_of_the_area_to_the_south_of_this_area.enc(), other.south_area_flags.enc());
        lemma_concat_peel(self.bytes_10_12(), self.bytes_12_14(), other.bytes_10_12(), other.bytes_12_14());
        lemma_concat_peel(self.resref_of_the_area_to_the_west_of_this_area.enc(), self.west_area_flags.enc(), other.resref_of_the_area_to_the_west_of_this_area.enc(), other.west_area_flags.enc());
        lemma_concat_peel(self.area_type_flags.enc(), self.rain_probability.enc(), other.area_type_flags.enc(), other.rain_probability.enc());
        lemma_concat_peel(self.bytes_14_21(), self.bytes_21_28(), other.bytes_14_21(), other.bytes_21_28());
        lemma_concat_peel(self.bytes_14_17(), self.bytes_17_21(), other.bytes_14_17(), other.bytes_17_21());
        lemma_concat_peel(self.snow_probability.enc(), self.bytes_15_17(), other.snow_probability.enc(), other.bytes_15_17());
        lemma_concat_peel(self.fog_probability.enc(), self.lightning_probability.enc(), other.fog_probability.enc(), other.lightning_probability.enc());
        lemma_concat_peel(self.bytes_17_19(), self.bytes_19_21(), other.bytes_17_19(), other.bytes_19_21());
        lemma_concat_peel(self.wind_speed.enc(), self.offset_to_actors.enc(), other.wind_speed.enc(), other.offset_to_actors.enc());
        lemma_concat_peel(self.count_of_actors.enc(), self.count_of_regions.enc(), other.count_of_actors.enc(), other.count_of_regions.enc());
        lemma_concat_peel(self.bytes_21_24(), self.bytes_24_28(), other.bytes_21_24(), other.bytes_24_28());
        lemma_concat_peel(self.offset_to_regions.enc(), self.bytes_22_24(), other.offset_to_regions.enc(), other.bytes_22_24());
        lemma_concat_peel(self.offset_to_spawn_points.enc(), self.count_of_spawn_points.enc(), other.offset_to_spawn_points.enc(), other.count_of_spawn_points.enc());
        lemma_concat_peel(self.bytes_24_26(), self.bytes_26_28(), other.bytes_24_26(), other.bytes_26_28());
        lemma_concat_peel(self.offset_to_entrances.enc(), self.count_of_entrances.enc(), other.offset_to_entrances.enc(), other.count_of_entrances.enc());
        lemma_concat_peel(self.offset_to_containers.enc(), self.count_of_containers.enc(), other.offset_to_containers.enc(), other.count_of_containers.enc());
        lemma_concat_peel(self.bytes_28_42(), self.bytes_42_56(), other.bytes_28_42(), other.bytes_42_56());
        lemma_concat_peel(self.bytes_28_35(), self.bytes_35_42(), other.bytes_28_35(), other.bytes_35_42());
        lemma_concat_peel(self.bytes_28_31(), self.bytes_31_35(), other.bytes_28_31(), other.bytes_31_35());
        lemma_concat_peel(self.count_of_items.enc(), self.bytes_29_31(), other.count_of_items.enc(), other.bytes_29_31());
        lemma_concat_peel(self.offset_to_items.enc(), self.offset_to_vertices.enc(), other.offset_to_items.enc(), other.offset_to_vertices.enc());
        lemma_concat_peel(self.bytes_31_33(), self.bytes_33_35(), other.bytes_31_33(), other.bytes_33_35());
        lemma_concat_peel(self.count_of_vertices.enc(), self.count_of_ambients.enc(), other.count_of_vertices.enc(), other.count_of_ambients.enc());
        lemma_concat_peel(self.offset_to_ambients.enc(), self.offset_to_variables.enc(), other.offset_to_ambients.enc(), other.offset_to_variables.enc());
        lemma_concat_peel(self.bytes_35_38(), self.bytes_38_42(), other.bytes_35_38(), other.bytes_38_42());
        lemma_concat_peel(self.count_of_variables.enc(), self.bytes_36_38(), other.count_of_variables.enc(), other.bytes_36_38());
        lemma_concat_peel(self.offset_to_tiled_object_flags.enc(), self.count_of_tiled_object_flags.enc(), other.offset_to_tiled_object_flags.enc(), other.count_of_tiled_object_flags.enc());
        lemma_concat_peel(self.bytes_38_40(), self.bytes_40_42(), other.bytes_38_40(), other.bytes_40_42());
        lemma_concat_peel(self.area_script.enc(), self.size_of_explored_bitmask.enc(), other.area_script.enc(), other.size_of_explored_bitmask.enc());
        lemma_concat_peel(self.offset_to_explored_bitmask.enc(), self.count_of_doors.enc(), other.offset_to_explored_bitmask.enc(), other.count_of_doors.enc());
        lemma_concat_peel(self.bytes_42_49(), self.bytes_49_56(), other.bytes_42_49(), other.bytes_49_56());
        lemma_concat_peel(self.bytes_42_45(), self.bytes_45_49(), other.bytes_42_45(), other.bytes_45_49());
        lemma_concat_peel(self.offset_to_doors.enc(), self.bytes_43_45(), other.offset_to_doors.enc(), other.bytes_43_45());
        lemma_concat_peel(self.count_of_animations.enc(), self.offset_to_animations.enc(), other.count_of_animations.enc(), other.offset_to_animations.enc());
        lemma_concat_peel(self.bytes_45_47(), self.bytes_47_49(), other.bytes_45_47(), other.bytes_47_49());
        lemma_concat_peel(self.count_of_tiled_objects.enc(), self.offset_to_tiled_objects.enc(), other.count_of_tiled_objects.enc(), other.offset_to_tiled_objects.enc());
        lemma_concat_peel(self.offset_to_song_entries.enc(), self.offset_to_rest_interruptions.enc(), other.offset_to_song_entries.enc(), other.offset_to_rest_interruptions.enc());
        lemma_concat_peel(self.bytes_49_52(), self.bytes_52_56(), other.bytes_49_52(), other.bytes_52_56());
        lemma_concat_peel(self.offset_to_automap_notes.enc(), self.bytes_50_52(), other.offset_to_automap_notes.enc(), other.bytes_50_52());
        lemma_concat_peel(self.count_of_automap_notes.enc(), self.offset_to_projectile_traps.enc(), other.count_of_automap_notes.enc(), other.offset_to_projectile_traps.enc());
        lemma_concat_peel(self.bytes_52_54(), self.bytes_54_56(), other.bytes_52_54(), other.bytes_54_56());
        lemma_concat_peel(self.number_of_entries_in_the_projectile_traps.enc(), self.rest_movie_day.enc(), other.number_of_entries_in_the_projectile_traps.enc(), other.rest_movie_day.enc());
        lemma_concat_peel(self.rest_movie_night.enc(), enc_seq(self._unused@), other.rest_movie_night.enc(), enc_seq(other._unused@));
        self.header.lemma_enc_injective(&other.header);
        self.area_wed.lemma_enc_injective(&other.area_wed);
        self.last_saved.lemma_enc_injective(&other.last_saved);
        self.area_flags.lemma_enc_injective(&other.area_flags);
        self.resref_of_the_area_to_the_north_of_this_area.lemma_enc_injective(&other.resref_of_the_area_to_the_north_of_this_area);
        self.north_area_flags.lemma_enc_injective(&other.north_area_flags);
        self.resref_of_the_area_to_the_east_of_this_area.lemma_enc_injective(&other.resref_of_the_area_to_the_east_of_this_area);
        self.east_area_flags.lemma_enc_injective(&other.east_area_flags);
        self.resref_of_the_area_to_the_south_of_this_area.lemma_enc_injective(&other.resref_of_the_area_to_the_south_of_this_area);
        self.south_area_flags.lemma_enc_injective(&other.south_area_flags);
        self.resref_of_the_area_to_the_west_of_this_area.lemma_enc_injective(&other.resref_of_the_area_to_the_west_of_this_area);
        self.west_area_flags.lemma_enc_injective(&other.west_area_flags);
        self.area_type_flags.lemma_enc_injective(&other.area_type_flags);
        self.rain_probability.lemma_enc_injective(&other.rain_probability);
        self.snow_probability.lemma_enc_injective(&other.snow_probability);
        self.fog_probability.lemma_enc_injective(&other.fog_probability);
        self.lightning_probability.lemma_enc_injective(&other.lightning_probability);
        self.wind_speed.lemma_enc_injective(&other.wind_speed);
        self.offset_to_actors.lemma_enc_injective(&other.offset_to_actors);
        self.count_of_actors.lemma_enc_injective(&other.count_of_actors);
        self.count_of_regions.lemma_enc_injective(&other.count_of_regions);
        self.offset_to_regions.lemma_enc_injective(&other.offset_to_regions);
        self.offset_to_spawn_points.lemma_enc_injective(&other.offset_to_spawn_points);
        self.count_of_spawn_points.lemma_enc_injective(&other.count_of_spawn_points);
        self.offset_to_entrances.lemma_enc_injective(&other.offset_to_entrances);
        self.count_of_entrances.lemma_enc_injective(&other.count_of_entrances);
        self.offset_to_containers.lemma_enc_injective(&other.offset_to_containers);
        self.count_of_containers.lemma_enc_injective(&other.count_of_containers);
        self.count_of_items.lemma_enc_injective(&other.count_of_items);
        self.offset_to_items.lemma_enc_injective(&other.offset_to_items);
        self.offset_to_vertices.lemma_enc_injective(&other.offset_to_vertices);
        self.count_of_vertices.lemma_enc_injective(&other.count_of_vertices);
        self.count_of_ambients.lemma_enc_injective(&other.count_of_ambients);
        self.offset_to_ambients.lemma_enc_injective(&other.offset_to_ambients);
        self.offset_to_variables.lemma_enc_injective(&other.offset_to_variables);
        self.count_of_variables.lemma_enc_injective(&other.count_of_variables);
        self.offset_to_tiled_object_flags.lemma_enc_injective(&other.offset_to_tiled_object_flags);
        self.count_of_tiled_object_flags.lemma_enc_injective(&other.count_of_tiled_object_flags);
        self.area_script.lemma_enc_injective(&other.area_script);
        self.size_of_explored_bitmask.lemma_enc_injective(&other.size_of_explored_bitmask);
        self.offset_to_explored_bitmask.lemma_enc_injective(&other.offset_to_explored_bitmask);
        self.count_of_doors.lemma_enc_injective(&other.count_of_doors);
        self.offset_to_doors.lemma_enc_injective(&other.offset_to_doors);
        self.count_of_animations.lemma_enc_injective(&other.count_of_animations);
        self.offset_to_animations.lemma_enc_injective(&other.offset_to_animations);
        self.count_of_tiled_objects.lemma_enc_injective(&other.count_of_tiled_objects);
        self.offset_to_tiled_objects.lemma_enc_injective(&other.offset_to_tiled_objects);
        self.offset_to_song_entries.lemma_enc_injective(&other.offset_to_song_entries);
        self.offset_to_rest_interruptions.lemma_enc_injective(&other.offset_to_rest_interruptions);
        self.offset_to_automap_notes.lemma_enc_injective(&other.offset_to_automap_notes);
        self.count_of_automap_notes.lemma_enc_injective(&other.count_of_automap_notes);
        self.offset_to_projectile_traps.lemma_enc_injective(&other.offset_to_projectile_traps);
        self.number_of_entries_in_the_projectile_traps.lemma_enc_injective(&other.number_of_entries_in_the_projectile_traps);
        self.rest_movie_day.lemma_enc_injective(&other.rest_movie_day);
        self.rest_movie_night.lemma_enc_injective(&other.rest_movie_night);
        lemma_enc_seq_injective(self._unused@, other._unused@);
    }

    #[verifier::rlimit(100)]
    #[verifier::spinoff_prover]
    fn decode(buf: &[u8], pos: usize) -> (v: Self) {
        let len = buf.len();
        let fld0 = Header::decode(buf, pos + 0);
        let fld1 = Resref::decode(buf, pos + 8);
        let fld2 = u32::decode(buf, pos + 16);
        let fld3 = u32::decode(buf, pos + 20);
        let fld4 = Resref::decode(buf, pos + 24);
        let fld5 = u32::decode(buf, pos + 32);
        let fld6 = Resref::decode(buf, pos + 36);
        let fld7 = u32::decode(buf, pos + 44);
        let fld8 = Resref::decode(buf, pos + 48);
        let fld9 = u32::decode(buf, pos + 56);
        let fld10 = Resref::decode(buf, pos + 60);
        let fld11 = u32::decode(buf, pos + 68);
        let fld12 = u16::decode(buf, pos + 72);
        let fld13 = u16::decode(buf, pos + 74);
        let fld14 = u16::decode(buf, pos + 76);
        let fld15 = u16::decode(buf, pos + 78);
        let fld16 = u16::decode(buf, pos + 80);
        let fld17 = u16::decode(buf, pos + 82);
        let fld18 = u32::decode(buf, pos + 84);
        let fld19 = u16::decode(buf, pos + 88);
        let fld20 = u16::decode(buf, pos + 90);
        let fld21 = u32::decode(buf, pos + 92);
        let fld22 = u32::decode(buf, pos + 96);
        let fld23 = u32::decode(buf, pos + 100);
        let fld24 = u32::decode(buf, pos + 104);
        let fld25 = u32::decode(buf, pos + 108);
        let fld26 = u32::decode(buf, pos + 112);
        let fld27 = u16::decode(buf, pos + 116);
        let fld28 = u16::decode(buf, pos + 118);
        let fld29 = u32::decode(buf, pos + 120);
        let fld30 = u32::decode(buf, pos + 124);
        let fld31 = u16::decode(buf, pos + 128);
        let fld32 = u16::decode(buf, pos + 130);
        let fld33 = u32::decode(buf, pos + 132);
        let fld34 = u32::decode(buf, pos + 136);
        let fld35 = u32::decode(buf, pos + 140);
        let fld36 = u16::decode(buf, pos + 144);
        let fld37 = u16::decode(buf, pos + 146);
        let fld38 = Resref::decode(buf, pos + 148);
        let fld39 = u32::decode(buf, pos + 156);
        let fld40 = u32::decode(buf, pos + 160);
        let fld41 = u32::decode(buf, pos + 164);
        let fld42 = u32::decode(buf, pos + 168);
        let fld43 = u32::decode(buf, pos + 172);
        let fld44 = u32::decode(buf, pos + 176);
        let fld45 = u32::decode(buf, pos + 180);
        let fld46 = u32::decode(buf, pos + 184);
        let fld47 = u32::decode(buf, pos + 188);
        let fld48 = u32::decode(buf, pos + 192);
        let fld49 = u32::decode(buf, pos + 196);
        let fld50 = u32::decode(buf, pos + 200);
        let fld51 = u32::decode(buf, pos + 204);
        let fld52 = u32::decode(buf, pos + 208);
        let fld53 = Resref::decode(buf, pos + 212);
        let fld54 = Resref::decode(buf, pos + 220);
        let fld55 = decode_vec::<u8>(buf, pos + 228, 56);
        let v = FileHeader {
            header: fld0,
            area_wed: fld1,
            last_saved: fld2,
            area_flags: fld3,
            resref_of_the_area_to_the_north_of_this_area: fld4,
            north_area_flags: fld5,
            resref_of_the_area_to_the_east_of_this_area: fld6,
            east_area_flags: fld7,
            resref_of_the_area_to_the_south_of_this_area: fld8,
            south_area_flags: fld9,
            resref_of_the_area_to_the_west_of_this_area: fld10,
            west_area_flags: fld11,
            area_type_flags: fld12,
            rain_probability: fld13,
            snow_probability: fld14,
            fog_probability: fld15,
            lightning_probability: fld16,
            wind_speed: fld17,
            offset_to_actors: fld18,
            count_of_actors: fld19,
            count_of_regions: fld20,
            offset_to_regions: fld21,
            offset_to_spawn_points: fld22,
            count_of_spawn_points: fld23,
            offset_to_entrances: fld24,
            count_of_entrances: fld25,
            offset_to_containers: fld26,
            count_of_containers: fld27,
            count_of_items: fld28,
            offset_to_items: fld29,
            offset_to_vertices: fld30,
            count_of_vertices: fld31,
            count_of_ambients: fld32,
            offset_to_ambients: fld33,
            offset_to_variables: fld34,
            count_of_variables: fld35,
            offset_to_tiled_object_flags: fld36,
            count_of_tiled_object_flags: fld37,
            area_script: fld38,
            size_of_explored_bitmask: fld39,
            offset_to_explored_bitmask: fld40,
            count_of_doors: fld41,
            offset_to_doors: fld42,
            count_of_animations: fld43,
            offset_to_animations: fld44,
            count_of_tiled_objects: fld45,
            offset_to_tiled_objects: fld46,
            offset_to_song_entries: fld47,
            offset_to_rest_interruptions: fld48,
            offset_to_automap_notes: fld49,
            count_of_automap_notes: fld50,
            offset_to_projectile_traps: fld51,
            number_of_entries_in_the_projectile_traps: fld52,
            rest_movie_day: fld53,
            rest_movie_night: fld54,
            _unused: fld55,
        };
        proof {
            lemma_subrange_concat(buf@, pos + 0, pos + 118, pos + 284);
            lemma_subrange_concat(buf@, pos + 0, pos + 76, pos + 118);
            lemma_subrange_concat(buf@, pos + 0, pos + 44, pos + 76);
            lemma_subrange_concat(buf@, pos + 0, pos + 20, pos + 44);
            lemma_subrange_concat(buf@, pos + 0, pos + 8, pos + 20);
            lemma_subrange_concat(buf@, pos + 8, pos + 16, pos + 20);
            lemma_subrange_concat(buf@, pos + 20, pos + 32, pos + 44);
            lemma_subrange_concat(buf@, pos + 20, pos + 24, pos + 32);
            lemma_subrange_concat(buf@, pos + 32, pos + 36, pos + 44);
            lemma_subrange_concat(buf@, pos + 44, pos + 60, pos + 76);
            lemma_subrange_concat(buf@, pos + 44, pos + 48, pos + 60);
            lemma_subrange_concat(buf@, pos + 48, pos + 56, pos + 60);
            lemma_subrange_concat(buf@, pos + 60, pos + 72, pos + 76);
            lemma_subrange_concat(buf@, pos + 60, pos + 68, pos + 72);
            lemma_subrange_concat(buf@, pos + 72, pos + 74, pos + 76);
            lemma_subrange_concat(buf@, pos + 76, pos + 92, pos + 118);
            lemma_subrange_concat(buf@, pos + 76, pos + 82, pos + 92);
            lemma_subrange_concat(buf@, pos + 76, pos + 78, pos + 82);
            lemma_subrange_concat(buf@, pos + 78, pos + 80, pos + 82);
            lemma_subrange_concat(buf@, pos + 82, pos + 88, pos + 92);
            lemma_subrange_concat(buf@, pos + 82, pos + 84, pos + 88);
            lemma_subrange_concat(buf@, pos + 88, pos + 90, pos + 92);
            lemma_subrange_concat(buf@, pos + 92, pos + 104, pos + 118);
            lemma_subrange_concat(buf@, pos + 92, pos + 96, pos + 104);
            lemma_subrange_concat(buf@, pos + 96, pos + 100, pos + 104);
            lemma_subrange_concat(buf@, pos + 104, pos + 112, pos + 118);
            lemma_subrange_concat(buf@, pos + 104, pos + 108, pos + 112);
            lemma_subrange_concat(buf@, pos + 112, pos + 116, pos + 118);
            lemma_subrange_concat(buf@, pos + 118, pos + 168, pos + 284);
            lemma_subrange_concat(buf@, pos + 118, pos + 140, pos + 168);
            lemma_subrange_concat(buf@, pos + 118, pos + 128, pos + 140);
            lemma_subrange_concat(buf@, pos + 118, pos + 120, pos + 128);
            lemma_subrange_concat(buf@, pos + 120, pos + 124, pos + 128);
            lemma_subrange_concat(buf@, pos + 128, pos + 132, pos + 140);
            lemma_subrange_concat(buf@, pos + 128, pos + 130, pos + 132);
            lemma_subrange_concat(buf@, pos + 132, pos + 136, pos + 140);
            lemma_subrange_concat(buf@, pos + 140, pos + 148, pos + 168);
            lemma_subrange_concat(buf@, pos + 140, pos + 144, pos + 148);
            lemma_subrange_concat(buf@, pos + 144, pos + 146, pos + 148);
            lemma_subrange_concat(buf@, pos + 148, pos + 160, pos + 168);
            lemma_subrange_concat(buf@, pos + 148, pos + 156, pos + 160);
            lemma_subrange_concat(buf@, pos + 160, pos + 164, pos + 168);
            lemma_subrange_concat(buf@, pos + 168, pos + 196, pos + 284);
            lemma_subrange_concat(buf@, pos + 168, pos + 180, pos + 196);
            lemma_subrange_concat(buf@, pos + 168, pos + 172, pos + 180);
            lemma_subrange_concat(buf@, pos + 172, pos + 176, pos + 180);
            lemma_subrange_concat(buf@, pos + 180, pos + 188, pos + 196);
            lemma_subrange_concat(buf@, pos + 180, pos + 184, pos + 188);
            lemma_subrange_concat(buf@, pos + 188, pos + 192, pos + 196);
            lemma_subrange_concat(buf@, pos + 196, pos + 208, pos + 284);
            lemma_subrange_concat(buf@, pos + 196, pos + 200, pos + 208);
            lemma_subrange_concat(buf@, pos + 200, pos + 204, pos + 208);
            lemma_subrange_concat(buf@, pos + 208, pos + 220, pos + 284);
            lemma_subrange_concat(buf@, pos + 208, pos + 212, pos + 220);
            lemma_subrange_concat(buf@, pos + 220, pos + 228, pos + 284);
        }
        v
    }

    fn encode(&self, out: &mut Vec<u8>) {
        let mut b0 = encoded(&self.header);
        let mut b1 = encoded(&self.area_wed);
        let mut b2 = encoded(&self.last_saved);
        let mut b3 = encoded(&self.area_flags);
        let mut b4 = encoded(&self.resref_of_the_area_to_the_north_of_this_area);
        let mut b5 = encoded(&self.north_area_flags);
        let mut b6 = encoded(&self.resref_of_the_area_to_the_east_of_this_area);
        let mut b7 = encoded(&self.east_area_flags);
        let mut b8 = encoded(&self.resref_of_the_area_to_the_south_of_this_area);
        let mut b9 = encoded(&self.south_area_flags);
        let mut b10 = encoded(&self.resref_of_the_area_to_the_west_of_this_area);
        let mut b11 = encoded(&self.west_area_flags);
        let mut b12 = encoded(&self.area_type_flags);
        let mut b13 = encoded(&self.rain_probability);
        let mut b14 = encoded(&self.snow_probability);
        let mut b15 = encoded(&self.fog_probability);
        let mut b16 = encoded(&self.lightning_probability);
        let mut b17 = encoded(&self.wind_speed);
        let mut b18 = encoded(&self.offset_to_actors);
        let mut b19 = encoded(&self.count_of_actors);
        let mut b20 = encoded(&self.count_of_regions);
        let mut b21 = encoded(&self.offset_to_regions);
        let mut b22 = encoded(&self.offset_to_spawn_points);
        let mut b23 = encoded(&self.count_of_spawn_points);
        let mut b24 = encoded(&self.offset_to_entrances);
        let mut b25 = encoded(&self.count_of_entrances);
        let mut b26 = encoded(&self.offset_to_containers);
        let mut b27 = encoded(&self.count_of_containers);
        let mut b28 = encoded(&self.count_of_items);
        let mut b29 = encoded(&self.offset_to_items);
        let mut b30 = encoded(&self.offset_to_vertices);
        let mut b31 = encoded(&self.count_of_vertices);
        let mut b32 = encoded(&self.count_of_ambients);
        let mut b33 = encoded(&self.offset_to_ambients);
        let mut b34 = encoded(&self.offset_to_variables);
        let mut b35 = encoded(&self.count_of_variables);
        let mut b36 = encoded(&self.offset_to_tiled_object_flags);
        let mut b37 = encoded(&self.count_of_tiled_object_flags);
        let mut b38 = encoded(&self.area_script);
        let mut b39 = encoded(&self.size_of_explored_bitmask);
        let mut b40 = encoded(&self.offset_to_explored_bitmask);
        let mut b41 = encoded(&self.count_of_doors);
        let mut b42 = encoded(&self.offset_to_doors);
        let mut b43 = encoded(&self.count_of_animations);
        let mut b44 = encoded(&self.offset_to_animations);
        let mut b45 = encoded(&self.count_of_tiled_objects);
        let mut b46 = encoded(&self.offset_to_tiled_objects);
        let mut b47 = encoded(&self.offset_to_song_entries);
        let mut b48 = encoded(&self.offset_to_rest_interruptions);
        let mut b49 = encoded(&self.offset_to_automap_notes);
        let mut b50 = encoded(&self.count_of_automap_notes);
        let mut b51 = encoded(&self.offset_to_projectile_traps);
        let mut b52 = encoded(&self.number_of_entries_in_the_projectile_traps);
        let mut b53 = encoded(&self.rest_movie_day);
        let mut b54 = encoded(&self.rest_movie_night);
        let mut b55 = encoded_slice(self._unused.as_slice());
        b54.append(&mut b55);
        b52.append(&mut b53);
        b52.append(&mut b54);
        b50.append(&mut b51);
        b49.append(&mut b50);
        b49.append(&mut b52);
        b47.append(&mut b48);
        b45.append(&mut b46);
        b45.append(&mut b47);
        b43.append(&mut b44);
        b42.append(&mut b43);
        b42.append(&mut b45);
        b42.append(&mut b49);
        b40.append(&mut b41);
        b38.append(&mut b39);
        b38.append(&mut b40);
        b36.append(&mut b37);
        b35.append(&mut b36);
        b35.append(&mut b38);
        b33.append(&mut b34);
        b31.append(&mut b32);
        b31.append(&mut b33);
        b29.append(&mut b30);
        b28.append(&mut b29);
        b28.append(&mut b31);
        b28.append(&mut b35);
        b28.append(&mut b42);
        b26.append(&mut b27);
        b24.append(&mut b25);
        b24.append(&mut b26);
        b22.append(&mut b23);
        b21.append(&mut b22);
        b21.append(&mut b24);
        b19.append(&mut b20);
        b17.append(&mut b18);
        b17.append(&mut b19);
        b15.append(&mut b16);
        b14.append(&mut b15);
        b14.append(&mut b17);
        b14.append(&mut b21);
        b12.append(&mut b13);
        b10.append(&mut b11);
        b10.append(&mut b12);
        b8.append(&mut b9);
        b7.append(&mut b8);
        b7.append(&mut b10);
        b5.append(&mut b6);
        b3.append(&mut b4);
        b3.append(&mut b5);
        b1.append(&mut b2);
        b0.append(&mut b1);
        b0.append(&mut b3);
        b0.append(&mut b7);
        b0.append(&mut b14);
        b0.append(&mut b28);
        out.append(&mut b0);
    }
}

/// https://gibberlings3.github.io/iesdp/file_formats/ie_formats/are_v1.htm#formAREAV1_0_Actor
#[derive(Debug, Clone, PartialEq)]
pub struct Actor {
    pub name: CharArray<32>,
    pub current_x_coordinate: u16,
    pub current_y_coordinate: u16,
    pub destination_x_coordinate: u16,
    pub destination_y_coordinate: u16,
    pub flags: u32,
    pub has_been_spawned: u16,
    pub first_letter_of_cre_resref: u8,
    pub _unused_1: u8,
    pub actor_animation: u32,
    pub actor_orientation: u16,
    pub _unused: u16,
    pub actor_removal_timer: u32,
    pub movement_restriction_distance: u16,
    pub movement_restriction_distance_move_to_object: u16,
    pub actor_appearence_schedule: u32,
    pub num_times_talked_to: u32,
    pub dialog: Resref,
    pub script_override: Resref,
    pub script_general: Resref,
    pub script_class: Resref,
    pub script_race: Resref,
    pub script_default: Resref,
    pub script_specific: Resref,
    pub cre_file: Resref,
    /// for embedded cre files
    pub offset_to_cre_structure: u32,
    pub size_of_stored_cre_structure: u32,
    pub _unused_2: Vec<u8>,
}

impl Actor {
    /// Encoding of the fields 0 to 27, in order.
    pub open spec fn bytes_0_28(&self) -> Seq<u8> {
        self.bytes_0_14() + self.bytes_14_28()
    }

    /// Encoding of the fields 0 to 13, in order.
    pub open spec fn bytes_0_14(&self) -> Seq<u8> {
        self.bytes_0_7() + self.bytes_7_14()
    }

    /// Encoding of the fields 0 to 6, in order.
    pub open spec fn bytes_0_7(&self) -> Seq<u8> {
        self.bytes_0_3() + self.bytes_3_7()
    }

    /// Encoding of the fields 0 to 2, in order.
    pub open spec fn bytes_0_3(&self) -> Seq<u8> {
        self.name.enc() + self.bytes_1_3()
    }

    /// Encoding of the fields 1 to 2, in order.
    pub open spec fn bytes_1_3(&self) -> Seq<u8> {
        self.current_x_coordinate.enc() + self.current_y_coordinate.enc()
    }

    /// Encoding of the fields 3 to 6, in order.
    pub open spec fn bytes_3_7(&self) -> Seq<u8> {
        self.bytes_3_5() + self.bytes_5_7()
    }

    /// Encoding of the fields 3 to 4, in order.
    pub open spec fn bytes_3_5(&self) -> Seq<u8> {
        self.destination_x_coordinate.enc() + self.destination_y_coordinate.enc()
    }

    /// Encoding of the fields 5 to 6, in order.
    pub open spec fn bytes_5_7(&self) -> Seq<u8> {
        self.flags.enc() + self.has_been_spawned.enc()
    }

    /// Encoding of the fields 7 to 13, in order.
    pub open spec fn bytes_7_14(&self) -> Seq<u8> {
        self.bytes_7_10() + self.bytes_10_14()
    }

    /// Encoding of the fields 7 to 9, in order.
    pub open spec fn bytes_7_10(&self) -> Seq<u8> {
        self.first_letter_of_cre_resref.enc() + self.bytes_8_10()
    }

    /// Encoding of the fields 8 to 9, in order.
    pub open spec fn bytes_8_10(&self) -> Seq<u8> {
        self._unused_1.enc() + self.actor_animation.enc()
    }

    /// Encoding of the fields 10 to 13, in order.
    pub open spec fn bytes_10_14(&self) -> Seq<u8> {
        self.bytes_10_12() + self.bytes_12_14()
    }

    /// Encoding of the fields 10 to 11, in order.
    pub open spec fn bytes_10_12(&self) -> Seq<u8> {
        self.actor_orientation.enc() + self._unused.enc()
    }

    /// Encoding of the fields 12 to 13, in order.
    pub open spec fn bytes_12_14(&self) -> Seq<u8> {
        self.actor_removal_timer.enc() + self.movement_restriction_distance.enc()
    }

    /// Encoding of the fields 14 to 27, in order.
    pub open spec fn bytes_14_28(&self) -> Seq<u8> {
        self.bytes_14_21() + self.bytes_21_28()
    }

    /// Encoding of the fields 14 to 20, in order.
    pub open spec fn bytes_14_21(&self) -> Seq<u8> {
        self.bytes_14_17() + self.bytes_17_21()
    }

    /// Encoding of the fields 14 to 16, in order.
    pub open spec fn bytes_14_17(&self) -> Seq<u8> {
        self.movement_restriction_distance_move_to_object.enc() + self.bytes_15_17()
    }

    /// Encoding of the fields 15 to 16, in order.
    pub open spec fn bytes_15_17(&self) -> Seq<u8> {
        self.actor_appearence_schedule.enc() + self.num_times_talked_to.enc()
    }

    /// Encoding of the fields 17 to 20, in order.
    pub open spec fn bytes_17_21(&self) -> Seq<u8> {
        self.bytes_17_19() + self.bytes_19_21()
    }

    /// Encoding of the fields 17 to 18, in order.
    pub open spec fn bytes_17_19(&self) -> Seq<u8> {
        self.dialog.enc() + self.script_override.enc()
    }

    /// Encoding of the fields 19 to 20, in order.
    pub open spec fn bytes_19_21(&self) -> Seq<u8> {
        self.script_general.enc() + self.script_class.enc()
    }

    /// Encoding of the fields 21 to 27, in order.
    pub open spec fn bytes_21_28(&self) -> Seq<u8> {
        self.bytes_21_24() + self.bytes_24_28()
    }

    /// Encoding of the fields 21 to 23, in order.
    pub open spec fn bytes_21_24(&self) -> Seq<u8> {
        self.script_race.enc() + self.bytes_22_24()
    }

    /// Encoding of the fields 22 to 23, in order.
    pub open spec fn bytes_22_24(&self) -> Seq<u8> {
        self.script_default.enc() + self.script_specific.enc()
    }

    /// Encoding of the fields 24 to 27, in order.
    pub open spec fn bytes_24_28(&self) -> Seq<u8> {
        self.bytes_24_26() + self.bytes_26_28()
    }

    /// Encoding of the fields 24 to 25, in order.
    pub open spec fn bytes_24_26(&self) -> Seq<u8> {
        self.cre_file.enc() + self.offset_to_cre_structure.enc()
    }

    /// Encoding of the fields 26 to 27, in order.
    pub open spec fn bytes_26_28(&self) -> Seq<u8> {
        self.size_of_stored_cre_structure.enc() + enc_seq(self._unused_2@)
    }
}

impl Codec for Actor {
    open spec fn width() -> nat {
        272
    }

    open spec fn enc(&self) -> Seq<u8> {
        self.bytes_0_28()
    }

    open spec fn wf(&self) -> bool {
        &&& self._unused_2@.len() == 128
        &&& all_wf(self._unused_2@)
    }

    open spec fn same(&self, other: &Self) -> bool {
        &&& self.name.same(&other.name)
        &&& self.current_x_coordinate == other.current_x_coordinate
        &&& self.current_y_coordinate == other.current_y_coordinate
        &&& self.destination_x_coordinate == other.destination_x_coordinate
        &&& self.destination_y_coordinate == other.destination_y_coordinate
        &&& self.flags == other.flags
        &&& self.has_been_spawned == other.has_been_spawned
        &&& self.first_letter_of_cre_resref == other.first_letter_of_cre_resref
        &&& self._unused_1 == other._unused_1
        &&& self.actor_animation == other.actor_animation
        &&& self.actor_orientation == other.actor_orientation
        &&& self._unused == other._unused
        &&& self.actor_removal_timer == other.actor_removal_timer
        &&& self.movement_restriction_distance == other.movement_restriction_distance
        &&& self.movement_restriction_distance_move_to_object == other.movement_restriction_distance_move_to_object
        &&& self.actor_appearence_schedule == other.actor_appearence_schedule
        &&& self.num_times_talked_to == other.num_times_talked_to
        &&& self.dialog.same(&other.dialog)
        &&& self.script_override.same(&other.script_override)
        &&& self.script_general.same(&other.script_general)
        &&& self.script_class.same(&other.script_class)
        &&& self.script_race.same(&other.script_race)
        &&& self.script_default.same(&other.script_default)
        &&& self.script_specific.same(&other.script_specific)
        &&& self.cre_file.same(&other.cre_file)
        &&& self.offset_to_cre_structure == other.offset_to_cre_structure
        &&& self.size_of_stored_cre_structure == other.size_of_stored_cre_structure
        &&& seq_same(self._unused_2@, other._unused_2@)
    }

    fn byte_width() -> (n: usize) {
        272
    }

    fn check_wf(&self) -> (b: bool) {
        self._unused_2.len() == 128 && check_all_wf(self._unused_2.as_slice())
    }

    proof fn lemma_enc_len(&self) {
        self.name.lemma_enc_len();
        self.current_x_coordinate.lemma_enc_len();
        self.current_y_coordinate.lemma_enc_len();
        self.destination_x_coordinate.lemma_enc_len();
        self.destination_y_coordinate.lemma_enc_len();
        self.flags.lemma_enc_len();
        self.has_been_spawned.lemma_enc_len();
        self.first_letter_of_cre_resref.lemma_enc_len();
        self._unused_1.lemma_enc_len();
        self.actor_animation.lemma_enc_len();
        self.actor_orientation.lemma_enc_len();
        self._unused.lemma_enc_len();
        self.actor_removal_timer.lemma_enc_len();
        self.movement_restriction_distance.lemma_enc_len();
        self.movement_restriction_distance_move_to_object.lemma_enc_len();
        self.actor_appearence_schedule.lemma_enc_len();
        self.num_times_talked_to.lemma_enc_len();
        self.dialog.lemma_enc_len();
        self.script_override.lemma_enc_len();
        self.script_general.lemma_enc_len();
        self.script_class.lemma_enc_len();
        self.script_race.lemma_enc_len();
        self.script_default.lemma_enc_len();
        self.script_specific.lemma_enc_len();
        self.cre_file.lemma_enc_len();
        self.offset_to_cre_structure.lemma_enc_len();
        self.size_of_stored_cre_structure.lemma_enc_len();
        lemma_enc_seq_len(self._unused_2@);
    }

    proof fn lemma_enc_injective(&self, other: &Self) {
        self.name.lemma_enc_len();
        self.current_x_coordinate.lemma_enc_len();
        self.current_y_coordinate.lemma_enc_len();
        self.destination_x_coordinate.lemma_enc_len();
        self.destination_y_coordinate.lemma_enc_len();
        self.flags.lemma_enc_len();
        self.has_been_spawned.lemma_enc_len();
        self.first_letter_of_cre_resref.lemma_enc_len();
        self._unused_1.lemma_enc_len();
        self.actor_animation.lemma_enc_len();
        self.actor_orientation.lemma_enc_len();
        self._unused.lemma_enc_len();
        self.actor_removal_timer.lemma_enc_len();
        self.movement_restriction_distance.lemma_enc_len();
        self.movement_restriction_distance_move_to_object.lemma_enc_len();
        self.actor_appearence_schedule.lemma_enc_len();
        self.num_times_talked_to.lemma_enc_len();
        self.dialog.lemma_enc_len();
        self.script_override.lemma_enc_len();
        self.script_general.lemma_enc_len();
        self.script_class.lemma_enc_len();
        self.script_race.lemma_enc_len();
        self.script_default.lemma_enc_len();
        self.script_specific.lemma_enc_len();
        self.cre_file.lemma_enc_len();
        self.offset_to_cre_structure.lemma_enc_len();
        self.size_of_stored_cre_structure.lemma_enc_len();
        lemma_enc_seq_len(self._unused_2@);
        other.name.lemma_enc_len();
        other.current_x_coordinate.lemma_enc_len();
        other.current_y_coordinate.lemma_enc_len();
        other.destination_x_coordinate.lemma_enc_len();
        other.destination_y_coordinate.lemma_enc_len();
        other.flags.lemma_enc_len();
        other.has_been_spawned.lemma_enc_len();
        other.first_letter_of_cre_resref.lemma_enc_len();
        other._unused_1.lemma_enc_len();
        other.actor_animation.lemma_enc_len();
        other.actor_orientation.lemma_enc_len();
        other._unused.lemma_enc_len();
        other.actor_removal_timer.lemma_enc_len();
        other.movement_restriction_distance.lemma_enc_len();
        other.movement_restriction_distance_move_to_object.lemma_enc_len();
        other.actor_appearence_schedule.lemma_enc_len();
        other.num_times_talked_to.lemma_enc_len();
        other.dialog.lemma_enc_len();
        other.script_override.lemma_enc_len();
        other.script_general.lemma_enc_len();
        other.script_class.lemma_enc_len();
        other.script_race.lemma_enc_len();
        other.script_default.lemma_enc_len();
        other.script_specific.lemma_enc_len();
        other.cre_file.lemma_enc_len();
        other.offset_to_cre_structure.lemma_enc_len();
        other.size_of_stored_cre_structure.lemma_enc_len();
        lemma_enc_seq_len(other._unused_2@);
        lemma_concat_peel(self.bytes_0_14(), self.bytes_14_28(), other.bytes_0_14(), other.bytes_14_28());
        lemma_concat_peel(self.bytes_0_7(), self.bytes_7_14(), other.bytes_0_7(), other.bytes_7_14());
        lemma_concat_peel(self.bytes_0_3(), self.bytes_3_7(), other.bytes_0_3(), other.bytes_3_7());
        lemma_concat_peel(self.name.enc(), self.bytes_1_3(), other.name.enc(), other.bytes_1_3());
        lemma_concat_peel(self.current_x_coordinate.enc(), self.current_y_coordinate.enc(), other.current_x_coordinate.enc(), other.current_y_coordinate.enc());
        lemma_concat_peel(self.bytes_3_5(), self.bytes_5_7(), other.bytes_3_5(), other.bytes_5_7());
        lemma_concat_peel(self.destination_x_coordinate.enc(), self.destination_y_coordinate.enc(), other.destination_x_coordinate.enc(), other.destination_y_coordinate.enc());
        lemma_concat_peel(self.flags.enc(), self.has_been_spawned.enc(), other.flags.enc(), other.has_been_spawned.enc());
        lemma_concat_peel(self.bytes_7_10(), self.bytes_10_14(), other.bytes_7_10(), other.bytes_10_14());
        lemma_concat_peel(self.first_letter_of_cre_resref.enc(), self.bytes_8_10(), other.first_letter_of_cre_resref.enc(), other.bytes_8_10());
        lemma_concat_peel(self._unused_1.enc(), self.actor_animation.enc(), other._unused_1.enc(), other.actor_animation.enc());
        lemma_concat_peel(self.bytes_10_12(), self.bytes_12_14(), other.bytes_10_12(), other.bytes_12_14());
        lemma_concat_peel(self.actor_orientation.enc(), self._unused.enc(), other.actor_orientation.enc(), other._unused.enc());
        lemma_concat_peel(self.actor_removal_timer.enc(), self.movement_restriction_distance.enc(), other.actor_removal_timer.enc(), other.movement_restriction_distance.enc());
        lemma_concat_peel(self.bytes_14_21(), self.bytes_21_28(), other.bytes_14_21(), other.bytes_21_28());
        lemma_concat_peel(self.bytes_14_17(), self.bytes_17_21(), other.bytes_14_17(), other.bytes_17_21());
        lemma_concat_peel(self.movement_restriction_distance_move_to_object.enc(), self.bytes_15_17(), other.movement_restriction_distance_move_to_object.enc(), other.bytes_15_17());
        lemma_concat_peel(self.actor_appearence_schedule.enc(), self.num_times_talked_to.enc(), other.actor_appearence_schedule.enc(), other.num_times_talked_to.enc());
        lemma_concat_peel(self.bytes_17_19(), self.bytes_19_21(), other.bytes_17_19(), other.bytes_19_21());
        lemma_concat_peel(self.dialog.enc(), self.script_override.enc(), other.dialog.enc(), other.script_override.enc());
        lemma_concat_peel(self.script_general.enc(), self.script_class.enc(), other.script_general.enc(), other.script_class.enc());
        lemma_concat_peel(self.bytes_21_24(), self.bytes_24_28(), other.bytes_21_24(), other.bytes_24_28());
        lemma_concat_peel(self.script_race.enc(), self.bytes_22_24(), other.script_race.enc(), other.bytes_22_24());
        lemma_concat_peel(self.script_default.enc(), self.script_specific.enc(), other.script_default.enc(), other.script_specific.enc());
        lemma_concat_peel(self.bytes_24_26(), self.bytes_26_28(), other.bytes_24_26(), other.bytes_26_28());
        lemma_concat_peel(self.cre_file.enc(), self.offset_to_cre_structure.enc(), other.cre_file.enc(), other.offset_to_cre_structure.enc());
        lemma_concat_peel(self.size_of_stored_cre_structure.enc(), enc_seq(self._unused_2@), other.size_of_stored_cre_structure.enc(), enc_seq(other._unused_2@));
        self.name.lemma_enc_injective(&other.name);
        self.current_x_coordinate.lemma_enc_injective(&other.current_x_coordinate);
        self.current_y_coordinate.lemma_enc_injective(&other.current_y_coordinate);
        self.destination_x_coordinate.lemma_enc_injective(&other.destination_x_coordinate);
        self.destination_y_coordinate.lemma_enc_injective(&other.destination_y_coordinate);
        self.flags.lemma_enc_injective(&other.flags);
        self.has_been_spawned.lemma_enc_injective(&other.has_been_spawned);
        self.first_letter_of_cre_resref.lemma_enc_injective(&other.first_letter_of_cre_resref);
        self._unused_1.lemma_enc_injective(&other._unused_1);
        self.actor_animation.lemma_enc_injective(&other.actor_animation);
        self.actor_orientation.lemma_enc_injective(&other.actor_orientation);
        self._unused.lemma_enc_injective(&other._unused);
        self.actor_removal_timer.lemma_enc_injective(&other.actor_removal_timer);
        self.movement_restriction_distance.lemma_enc_injective(&other.movement_restriction_distance);
        self.movement_restriction_distance_move_to_object.lemma_enc_injective(&other.movement_restriction_distance_move_to_object);
        self.actor_appearence_schedule.lemma_enc_injective(&other.actor_appearence_schedule);
        self.num_times_talked_to.lemma_enc_injective(&other.num_times_talked_to);
        self.dialog.lemma_enc_injective(&other.dialog);
        self.script_override.lemma_enc_injective(&other.script_override);
        self.script_general.lemma_enc_injective(&other.script_general);
        self.script_class.lemma_enc_injective(&other.script_class);
        self.script_race.lemma_enc_injective(&other.script_race);
        self.script_default.lemma_enc_injective(&other.script_default);
        self.script_specific.lemma_enc_injective(&other.script_specific);
        self.cre_file.lemma_enc_injective(&other.cre_file);
        self.offset_to_cre_structure.lemma_enc_injective(&other.offset_to_cre_structure);
        self.size_of_stored_cre_structure.lemma_enc_injective(&other.size_of_stored_cre_structure);
        lemma_enc_seq_injective(self._unused_2@, other._unused_2@);
    }

    fn decode(buf: &[u8], pos: usize) -> (v: Self) {
        let len = buf.len();
        let fld0 = <CharArray<32>>::decode(buf, pos + 0);
        let fld1 = u16::decode(buf, pos + 32);
        let fld2 = u16::decode(buf, pos + 34);
        let fld3 = u16::decode(buf, pos + 36);
        let fld4 = u16::decode(buf, pos + 38);
        let fld5 = u32::decode(buf, pos + 40);
        let fld6 = u16::decode(buf, pos + 44);
        let fld7 = u8::decode(buf, pos + 46);
        let fld8 = u8::decode(buf, pos + 47);
        let fld9 = u32::decode(buf, pos + 48);
        let fld10 = u16::decode(buf, pos + 52);
        let fld11 = u16::decode(buf, pos + 54);
        let fld12 = u32::decode(buf, pos + 56);
        let fld13 = u16::decode(buf, pos + 60);
        let fld14 = u16::decode(buf, pos + 62);
        let fld15 = u32::decode(buf, pos + 64);
        let fld16 = u32::decode(buf, pos + 68);
        let fld17 = Resref::decode(buf, pos + 72);
        let fld18 = Resref::decode(buf, pos + 80);
        let fld19 = Resref::decode(buf, pos + 88);
        let fld20 = Resref::decode(buf, pos + 96);
        let fld21 = Resref::decode(buf, pos + 104);
        let fld22 = Resref::decode(buf, pos + 112);
        let fld23 = Resref::decode(buf, pos + 120);
        let fld24 = Resref::decode(buf, pos + 128);
        let fld25 = u32::decode(buf, pos + 136);
        let fld26 = u32::decode(buf, pos + 140);
        let fld27 = decode_vec::<u8>(buf, pos + 144, 128);
        let v = Actor {
            name: fld0,
            current_x_coordinate: fld1,
            current_y_coordinate: fld2,
            destination_x_coordinate: fld3,
            destination_y_coordinate: fld4,
            flags: fld5,
            has_been_spawned: fld6,
            first_letter_of_cre_resref: fld7,
            _unused_1: fld8,
            actor_animation: fld9,
            actor_orientation: fld10,
            _unused: fld11,
            actor_removal_timer: fld12,
            movement_restriction_distance: fld13,
            movement_restriction_distance_move_to_object: fld14,
            actor_appearence_schedule: fld15,
            num_times_talked_to: fld16,
            dialog: fld17,
            script_override: fld18,
            script_general: fld19,
            script_class: fld20,
            script_race: fld21,
            script_default: fld22,
            script_specific: fld23,
            cre_file: fld24,
            offset_to_cre_structure: fld25,
            size_of_stored_cre_structure: fld26,
            _unused_2: fld27,
        };
        proof {
            lemma_subrange_concat(buf@, pos + 0, pos + 62, pos + 272);
            lemma_subrange_concat(buf@, pos + 0, pos + 46, pos + 62);
            lemma_subrange_concat(buf@, pos + 0, pos + 36, pos + 46);
            lemma_subrange_concat(buf@, pos + 0, pos + 32, pos + 36);
            lemma_subrange_concat(buf@, pos + 32, pos + 34, pos + 36);
            lemma_subrange_concat(buf@, pos + 36, pos + 40, pos + 46);
            lemma_subrange_concat(buf@, pos + 36, pos + 38, pos + 40);
            lemma_subrange_concat(buf@, pos + 40, pos + 44, pos + 46);
            lemma_subrange_concat(buf@, pos + 46, pos + 52, pos + 62);
            lemma_subrange_concat(buf@, pos + 46, pos + 47, pos + 52);
            lemma_subrange_concat(buf@, pos + 47, pos + 48, pos + 52);
            lemma_subrange_concat(buf@, pos + 52, pos + 56, pos + 62);
            lemma_subrange_concat(buf@, pos + 52, pos + 54, pos + 56);
            lemma_subrange_concat(buf@, pos + 56, pos + 60, pos + 62);
            lemma_subrange_concat(buf@, pos + 62, pos + 104, pos + 272);
            lemma_subrange_concat(buf@, pos + 62, pos + 72, pos + 104);
            lemma_subrange_concat(buf@, pos + 62, pos + 64, pos + 72);
            lemma_subrange_concat(buf@, pos + 64, pos + 68, pos + 72);
            lemma_subrange_concat(buf@, pos + 72, pos + 88, pos + 104);
            lemma_subrange_concat(buf@, pos + 72, pos + 80, pos + 88);
            lemma_subrange_concat(buf@, pos + 88, pos + 96, pos + 104);
            lemma_subrange_concat(buf@, pos + 104, pos + 128, pos + 272);
            lemma_subrange_concat(buf@, pos + 104, pos + 112, pos + 128);
            lemma_subrange_concat(buf@, pos + 112, pos + 120, pos + 128);
            lemma_subrange_concat(buf@, pos + 128, pos + 140, pos + 272);
            lemma_subrange_concat(buf@, pos + 128, pos + 136, pos + 140);
            lemma_subrange_concat(buf@, pos + 140, pos + 144, pos + 272);
        }
        v
    }

    fn encode(&self, out: &mut Vec<u8>) {
        let mut b0 = encoded(&self.name);
        let mut b1 = encoded(&self.current_x_coordinate);
        let mut b2 = encoded(&self.current_y_coordinate);
        let mut b3 = encoded(&self.destination_x_coordinate);
        let mut b4 = encoded(&self.destination_y_coordinate);
        let mut b5 = encoded(&self.flags);
        let mut b6 = encoded(&self.has_been_spawned);
        let mut b7 = encoded(&self.first_letter_of_cre_resref);
        let mut b8 = encoded(&self._unused_1);
        let mut b9 = encoded(&self.actor_animation);
        let mut b10 = encoded(&self.actor_orientation);
        let mut b11 = encoded(&self._unused);
        let mut b12 = encoded(&self.actor_removal_timer);
        let mut b13 = encoded(&self.movement_restriction_distance);
        let mut b14 = encoded(&self.movement_restriction_distance_move_to_object);
        let mut b15 = encoded(&self.actor_appearence_schedule);
        let mut b16 = encoded(&self.num_times_talked_to);
        let mut b17 = encoded(&self.dialog);
        let mut b18 = encoded(&self.script_override);
        let mut b19 = encoded(&self.script_general);
        let mut b20 = encoded(&self.script_class);
        let mut b21 = encoded(&self.script_race);
        let mut b22 = encoded(&self.script_default);
        let mut b23 = encoded(&self.script_specific);
        let mut b24 = encoded(&self.cre_file);
        let mut b25 = encoded(&self.offset_to_cre_structure);
        let mut b26 = encoded(&self.size_of_stored_cre_structure);
        let mut b27 = encoded_slice(self._unused_2.as_slice());
        b26.append(&mut b27);
        b24.append(&mut b25);
        b24.append(&mut b26);
        b22.append(&mut b23);
        b21.append(&mut b22);
        b21.append(&mut b24);
        b19.append(&mut b20);
        b17.append(&mut b18);
        b17.append(&mut b19);
        b15.append(&mut b16);
        b14.append(&mut b15);
        b14.append(&mut b17);
        b14.append(&mut b21);
        b12.append(&mut b13);
        b10.append(&mut b11);
        b10.append(&mut b12);
        b8.append(&mut b9);
        b7.append(&mut b8);
        b7.append(&mut b10);
        b5.append(&mut b6);
        b3.append(&mut b4);
        b3.append(&mut b5);
        b1.append(&mut b2);
        b0.append(&mut b1);
        b0.append(&mut b3);
        b0.append(&mut b7);
        b0.append(&mut b14);
        out.append(&mut b0);
    }
}

/// https://gibberlings3.github.io/iesdp/file_formats/ie_formats/are_v1.htm#formAREAV1_0_Info
#[derive(Debug, Clone, PartialEq)]
pub struct Region {
    pub name: CharArray<32>,
    pub region_type: u16,
    pub minimum_bounding_box_of_this_point: [u16; 4],
    pub count_of_vertices_composing_the_perimeter: u16,
    pub index_to_first_vertex: u32,
    pub trigger_value: u32,
    pub cursor_index: u32,
    /// for travel regions
    pub destination_area: Resref,
    /// for travel regions
    pub entrance_name_in_destination_area: CharArray<32>,
    pub flags: u32,
    /// for info points
    pub information_text: Strref,
    pub trap_detection_difficulty_percent: u16,
    pub trap_removal_difficulty_percent: u16,
    /// 0=no, 1=yes
    pub region_is_trapped: u16,
    /// 0=no, 1=yes
    pub trap_detected: u16,
    pub trap_launch_location: [u16; 2],
    pub key_item: Resref,
    pub region_script: Resref,
    pub alternative_use_point_x_coordinate: u16,
    pub alternative_use_point_y_coordinate: u16,
    pub _unknown_1: u32,
    pub _unknown_2: Vec<u8>,
    /// PST, PSTEE fields
    pub sound: Resref,
    pub talk_location_point_x: u16,
    pub talk_location_point_y: u16,
    pub speaker_name: Strref,
    pub dialog_file: Resref,
}

impl Region {
    /// Encoding of the fields 0 to 26, in order.
    pub open spec fn bytes_0_27(&self) -> Seq<u8> {
        self.bytes_0_13() + self.bytes_13_27()
    }

    /// Encoding of the fields 0 to 12, in order.
    pub open spec fn bytes_0_13(&self) -> Seq<u8> {
        self.bytes_0_6() + self.bytes_6_13()
    }

    /// Encoding of the fields 0 to 5, in order.
    pub open spec fn bytes_0_6(&self) -> Seq<u8> {
        self.bytes_0_3() + self.bytes_3_6()
    }

    /// Encoding of the fields 0 to 2, in order.
    pub open spec fn bytes_0_3(&self) -> Seq<u8> {
        self.name.enc() + self.bytes_1_3()
    }

    /// Encoding of the fields 1 to 2, in order.
    pub open spec fn bytes_1_3(&self) -> Seq<u8> {
        self.region_type.enc() + enc_seq(self.minimum_bounding_box_of_this_point@)
    }

    /// Encoding of the fields 3 to 5, in order.
    pub open spec fn bytes_3_6(&self) -> Seq<u8> {
        self.count_of_vertices_composing_the_perimeter.enc() + self.bytes_4_6()
    }

    /// Encoding of the fields 4 to 5, in order.
    pub open spec fn bytes_4_6(&self) -> Seq<u8> {
        self.index_to_first_vertex.enc() + self.trigger_value.enc()
    }

    /// Encoding of the fields 6 to 12, in order.
    pub open spec fn bytes_6_13(&self) -> Seq<u8> {
        self.bytes_6_9() + self.bytes_9_13()
    }

    /// Encoding of the fields 6 to 8, in order.
    pub open spec fn bytes_6_9(&self) -> Seq<u8> {
        self.cursor_index.enc() + self.bytes_7_9()
    }

    /// Encoding of the fields 7 to 8, in order.
    pub open spec fn bytes_7_9(&self) -> Seq<u8> {
        self.destination_area.enc() + self.entrance_name_in_destination_area.enc()
    }

    /// Encoding of the fields 9 to 12, in order.
    pub open spec fn bytes_9_13(&self) -> Seq<u8> {
        self.bytes_9_11() + self.bytes_11_13()
    }

    /// Encoding of the fields 9 to 10, in order.
    pub open spec fn bytes_9_11(&self) -> Seq<u8> {
        self.flags.enc() + self.information_text.enc()
    }

    /// Encoding of the fields 11 to 12, in order.
    pub open spec fn bytes_11_13(&self) -> Seq<u8> {
        self.trap_detection_difficulty_percent.enc() + self.trap_removal_difficulty_percent.enc()
    }

    /// Encoding of the fields 13 to 26, in order.
    pub open spec fn bytes_13_27(&self) -> Seq<u8> {
        self.bytes_13_20() + self.bytes_20_27()
    }

    /// Encoding of the fields 13 to 19, in order.
    pub open spec fn bytes_13_20(&self) -> Seq<u8> {
        self.bytes_13_16() + self.bytes_16_20()
    }

    /// Encoding of the fields 13 to 15, in order.
    pub open spec fn bytes_13_16(&self) -> Seq<u8> {
        self.region_is_trapped.enc() + self.bytes_14_16()
    }

    /// Encoding of the fields 14 to 15, in order.
    pub open spec fn bytes_14_16(&self) -> Seq<u8> {
        self.trap_detected.enc() + enc_seq(self.trap_launch_location@)
    }

    /// Encoding of the fields 16 to 19, in order.
    pub open spec fn bytes_16_20(&self) -> Seq<u8> {
        self.bytes_16_18() + self.bytes_18_20()
    }

    /// Encoding of the fields 16 to 17, in order.
    pub open spec fn bytes_16_18(&self) -> Seq<u8> {
        self.key_item.enc() + self.region_script.enc()
    }

    /// Encoding of the fields 18 to 19, in order.
    pub open spec fn bytes_18_20(&self) -> Seq<u8> {
        self.alternative_use_point_x_coordinate.enc() + self.alternative_use_point_y_coordinate.enc()
    }

    /// Encoding of the fields 20 to 26, in order.
    pub open spec fn bytes_20_27(&self) -> Seq<u8> {
        self.bytes_20_23() + self.bytes_23_27()
    }

    /// Encoding of the fields 20 to 22, in order.
    pub open spec fn bytes_20_23(&self) -> Seq<u8> {
        self._unknown_1.enc() + self.bytes_21_23()
    }

    /// Encoding of the fields 21 to 22, in order.
    pub open spec fn bytes_21_23(&self) -> Seq<u8> {
        enc_seq(self._unknown_2@) + self.sound.enc()
    }

    /// Encoding of the fields 23 to 26, in order.
    pub open spec fn bytes_23_27(&self) -> Seq<u8> {
        self.bytes_23_25() + self.bytes_25_27()
    }

    /// Encoding of the fields 23 to 24, in order.
    pub open spec fn bytes_23_25(&self) -> Seq<u8> {
        self.talk_location_point_x.enc() + self.talk_location_point_y.enc()
    }

    /// Encoding of the fields 25 to 26, in order.
    pub open spec fn bytes_25_27(&self) -> Seq<u8> {
        self.speaker_name.enc() + self.dialog_file.enc()
    }
}

impl Codec for Region {
    open spec fn width() -> nat {
        196
    }

    open spec fn enc(&self) -> Seq<u8> {
        self.bytes_0_27()
    }

    open spec fn wf(&self) -> bool {
        &&& all_wf(self.minimum_bounding_box_of_this_point@)
        &&& all_wf(self.trap_launch_location@)
        &&& self._unknown_2@.len() == 32
        &&& all_wf(self._unknown_2@)
    }

    open spec fn same(&self, other: &Self) -> bool {
        &&& self.name.same(&other.name)
        &&& self.region_type == other.region_type
        &&& seq_same(self.minimum_bounding_box_of_this_point@, other.minimum_bounding_box_of_this_point@)
        &&& self.count_of_vertices_composing_the_perimeter == other.count_of_vertices_composing_the_perimeter
        &&& self.index_to_first_vertex == other.index_to_first_vertex
        &&& self.trigger_value == other.trigger_value
        &&& self.cursor_index == other.cursor_index
        &&& self.destination_area.same(&other.destination_area)
        &&& self.entrance_name_in_destination_area.same(&other.entrance_name_in_destination_area)
        &&& self.flags == other.flags
        &&& self.information_text.same(&other.information_text)
        &&& self.trap_detection_difficulty_percent == other.trap_detection_difficulty_percent
        &&& self.trap_removal_difficulty_percent == other.trap_removal_difficulty_percent
        &&& self.region_is_trapped == other.region_is_trapped
        &&& self.trap_detected == other.trap_detected
        &&& seq_same(self.trap_launch_location@, other.trap_launch_location@)
        &&& self.key_item.same(&other.key_item)
        &&& self.region_script.same(&other.region_script)
        &&& self.alternative_use_point_x_coordinate == other.alternative_use_point_x_coordinate
        &&& self.alternative_use_point_y_coordinate == other.alternative_use_point_y_coordinate
        &&& self._unknown_1 == other._unknown_1
        &&& seq_same(self._unknown_2@, other._unknown_2@)
        &&& self.sound.same(&other.sound)
        &&& self.talk_location_point_x == other.talk_location_point_x
        &&& self.talk_location_point_y == other.talk_location_point_y
        &&& self.speaker_name.same(&other.speaker_name)
        &&& self.dialog_file.same(&other.dialog_file)
    }

    fn byte_width() -> (n: usize) {
        196
    }

    fn check_wf(&self) -> (b: bool) {
        check_all_wf(self.minimum_bounding_box_of_this_point.as_slice()) && check_all_wf(self.trap_launch_location.as_slice()) && self._unknown_2.len() == 32 && check_all_wf(self._unknown_2.as_slice())
    }

    proof fn lemma_enc_len(&self) {
        self.name.lemma_enc_len();
        self.region_type.lemma_enc_len();
        lemma_enc_seq_len(self.minimum_bounding_box_of_this_point@);
        self.count_of_vertices_composing_the_perimeter.lemma_enc_len();
        self.index_to_first_vertex.lemma_enc_len();
        self.trigger_value.lemma_enc_len();
        self.cursor_index.lemma_enc_len();
        self.destination_area.lemma_enc_len();
        self.entrance_name_in_destination_area.lemma_enc_len();
        self.flags.lemma_enc_len();
        self.information_text.lemma_enc_len();
        self.trap_detection_difficulty_percent.lemma_enc_len();
        self.trap_removal_difficulty_percent.lemma_enc_len();
        self.region_is_trapped.lemma_enc_len();
        self.trap_detected.lemma_enc_len();
        lemma_enc_seq_len(self.trap_launch_location@);
        self.key_item.lemma_enc_len();
        self.region_script.lemma_enc_len();
        self.alternative_use_point_x_coordinate.lemma_enc_len();
        self.alternative_use_point_y_coordinate.lemma_enc_len();
        self._unknown_1.lemma_enc_len();
        lemma_enc_seq_len(self._unknown_2@);
        self.sound.lemma_enc_len();
        self.talk_location_point_x.lemma_enc_len();
        self.talk_location_point_y.lemma_enc_len();
        self.speaker_name.lemma_enc_len();
        self.dialog_file.lemma_enc_len();
    }

    proof fn lemma_enc_injective(&self, other: &Self) {
        self.name.lemma_enc_len();
        self.region_type.lemma_enc_len();
        lemma_enc_seq_len(self.minimum_bounding_box_of_this_point@);
        self.count_of_vertices_composing_the_perimeter.lemma_enc_len();
        self.index_to_first_vertex.lemma_enc_len();
        self.trigger_value.lemma_enc_len();
        self.cursor_index.lemma_enc_len();
        self.destination_area.lemma_enc_len();
        self.entrance_name_in_destination_area.lemma_enc_len();
        self.flags.lemma_enc_len();
        self.information_text.lemma_enc_len();
        self.trap_detection_difficulty_percent.lemma_enc_len();
        self.trap_removal_difficulty_percent.lemma_enc_len();
        self.region_is_trapped.lemma_enc_len();
        self.trap_detected.lemma_enc_len();
        lemma_enc_seq_len(self.trap_launch_location@);
        self.key_item.lemma_enc_len();
        self.region_script.lemma_enc_len();
        self.alternative_use_point_x_coordinate.lemma_enc_len();
        self.alternative_use_point_y_coordinate.lemma_enc_len();
        self._unknown_1.lemma_enc_len();
        lemma_enc_seq_len(self._unknown_2@);
        self.sound.lemma_enc_len();
        self.talk_location_point_x.lemma_enc_len();
        self.talk_location_point_y.lemma_enc_len();
        self.speaker_name.lemma_enc_len();
        self.dialog_file.lemma_enc_len();
        other.name.lemma_enc_len();
        other.region_type.lemma_enc_len();
        lemma_enc_seq_len(other.minimum_bounding_box_of_this_point@);
        other.count_of_vertices_composing_the_perimeter.lemma_enc_len();
        other.index_to_first_vertex.lemma_enc_len();
        other.trigger_value.lemma_enc_len();
        other.cursor_index.lemma_enc_len();
        other.destination_area.lemma_enc_len();
        other.entrance_name_in_destination_area.lemma_enc_len();
        other.flags.lemma_enc_len();
        other.information_text.lemma_enc_len();
        other.trap_detection_difficulty_percent.lemma_enc_len();
        other.trap_removal_difficulty_percent.lemma_enc_len();
        other.region_is_trapped.lemma_enc_len();
        other.trap_detected.lemma_enc_len();
        lemma_enc_seq_len(other.trap_launch_location@);
        other.key_item.lemma_enc_len();
        other.region_script.lemma_enc_len();
        other.alternative_use_point_x_coordinate.lemma_enc_len();
        other.alternative_use_point_y_coordinate.lemma_enc_len();
        other._unknown_1.lemma_enc_len();
        lemma_enc_seq_len(other._unknown_2@);
        other.sound.lemma_enc_len();
        other.talk_location_point_x.lemma_enc_len();
        other.talk_location_point_y.lemma_enc_len();
        other.speaker_name.lemma_enc_len();
        other.dialog_file.lemma_enc_len();
        lemma_concat_peel(self.bytes_0_13(), self.bytes_13_27(), other.bytes_0_13(), other.bytes_13_27());
        lemma_concat_peel(self.bytes_0_6(), self.bytes_6_13(), other.bytes_0_6(), other.bytes_6_13());
        lemma_concat_peel(self.bytes_0_3(), self.bytes_3_6(), other.bytes_0_3(), other.bytes_3_6());
        lemma_concat_peel(self.name.enc(), self.bytes_1_3(), other.name.enc(), other.bytes_1_3());
        lemma_concat_peel(self.region_type.enc(), enc_seq(self.minimum_bounding_box_of_this_point@), other.region_type.enc(), enc_seq(other.minimum_bounding_box_of_this_point@));
        lemma_concat_peel(self.count_of_vertices_composing_the_perimeter.enc(), self.bytes_4_6(), other.count_of_vertices_composing_the_perimeter.enc(), other.bytes_4_6());
        lemma_concat_peel(self.index_to_first_vertex.enc(), self.trigger_value.enc(), other.index_to_first_vertex.enc(), other.trigger_value.enc());
        lemma_concat_peel(self.bytes_6_9(), self.bytes_9_13(), other.bytes_6_9(), other.bytes_9_13());
        lemma_concat_peel(self.cursor_index.enc(), self.bytes_7_9(), other.cursor_index.enc(), other.bytes_7_9());
        lemma_concat_peel(self.destination_area.enc(), self.entrance_name_in_destination_area.enc(), other.destination_area.enc(), other.entrance_name_in_destination_area.enc());
        lemma_concat_peel(self.bytes_9_11(), self.bytes_11_13(), other.bytes_9_11(), other.bytes_11_13());
        lemma_concat_peel(self.flags.enc(), self.information_text.enc(), other.flags.enc(), other.information_text.enc());
        lemma_concat_peel(self.trap_detection_difficulty_percent.enc(), self.trap_removal_difficulty_percent.enc(), other.trap_detection_difficulty_percent.enc(), other.trap_removal_difficulty_percent.enc());
        lemma_concat_peel(self.bytes_13_20(), self.bytes_20_27(), other.bytes_13_20(), other.bytes_20_27());
        lemma_concat_peel(self.bytes_13_16(), self.bytes_16_20(), other.bytes_13_16(), other.bytes_16_20());
        lemma_concat_peel(self.region_is_trapped.enc(), self.bytes_14_16(), other.region_is_trapped.enc(), other.bytes_14_16());
        lemma_concat_peel(self.trap_detected.enc(), enc_seq(self.trap_launch_location@), other.trap_detected.enc(), enc_seq(other.trap_launch_location@));
        lemma_concat_peel(self.bytes_16_18(), self.bytes_18_20(), other.bytes_16_18(), other.bytes_18_20());
        lemma_concat_peel(self.key_item.enc(), self.region_script.enc(), other.key_item.enc(), other.region_script.enc());
        lemma_concat_peel(self.alternative_use_point_x_coordinate.enc(), self.alternative_use_point_y_coordinate.enc(), other.alternative_use_point_x_coordinate.enc(), other.alternative_use_point_y_coordinate.enc());
        lemma_concat_peel(self.bytes_20_23(), self.bytes_23_27(), other.bytes_20_23(), other.bytes_23_27());
        lemma_concat_peel(self._unknown_1.enc(), self.bytes_21_23(), other._unknown_1.enc(), other.bytes_21_23());
        lemma_concat_peel(enc_seq(self._unknown_2@), self.sound.enc(), enc_seq(other._unknown_2@), other.sound.enc());
        lemma_concat_peel(self.bytes_23_25(), self.bytes_25_27(), other.bytes_23_25(), other.bytes_25_27());
        lemma_concat_peel(self.talk_location_point_x.enc(), self.talk_location_point_y.enc(), other.talk_location_point_x.enc(), other.talk_location_point_y.enc());
        lemma_concat_peel(self.speaker_name.enc(), self.dialog_file.enc(), other.speaker_name.enc(), other.dialog_file.enc());
        self.name.lemma_enc_injective(&other.name);
        self.region_type.lemma_enc_injective(&other.region_type);
        lemma_enc_seq_injective(self.minimum_bounding_box_of_this_point@, other.minimum_bounding_box_of_this_point@);
        self.count_of_vertices_composing_the_perimeter.lemma_enc_injective(&other.count_of_vertices_composing_the_perimeter);
        self.index_to_first_vertex.lemma_enc_injective(&other.index_to_first_vertex);
        self.trigger_value.lemma_enc_injective(&other.trigger_value);
        self.cursor_index.lemma_enc_injective(&other.cursor_index);
        self.destination_area.lemma_enc_injective(&other.destination_area);
        self.entrance_name_in_destination_area.lemma_enc_injective(&other.entrance_name_in_destination_area);
        self.flags.lemma_enc_injective(&other.flags);
        self.information_text.lemma_enc_injective(&other.information_text);
        self.trap_detection_difficulty_percent.lemma_enc_injective(&other.trap_detection_difficulty_percent);
        self.trap_removal_difficulty_percent.lemma_enc_injective(&other.trap_removal_difficulty_percent);
        self.region_is_trapped.lemma_enc_injective(&other.region_is_trapped);
        self.trap_detected.lemma_enc_injective(&other.trap_detected);
        lemma_enc_seq_injective(self.trap_launch_location@, other.trap_launch_location@);
        self.key_item.lemma_enc_injective(&other.key_item);
        self.region_script.lemma_enc_injective(&other.region_script);
        self.alternative_use_point_x_coordinate.lemma_enc_injective(&other.alternative_use_point_x_coordinate);
        self.alternative_use_point_y_coordinate.lemma_enc_injective(&other.alternative_use_point_y_coordinate);
        self._unknown_1.lemma_enc_injective(&other._unknown_1);
        lemma_enc_seq_injective(self._unknown_2@, other._unknown_2@);
        self.sound.lemma_enc_injective(&other.sound);
        self.talk_location_point_x.lemma_enc_injective(&other.talk_location_point_x);
        self.talk_location_point_y.lemma_enc_injective(&other.talk_location_point_y);
        self.speaker_name.lemma_enc_injective(&other.speaker_name);
        self.dialog_file.lemma_enc_injective(&other.dialog_file);
    }

    fn decode(buf: &[u8], pos: usize) -> (v: Self) {
        let len = buf.len();
        let fld0 = <CharArray<32>>::decode(buf, pos + 0);
        let fld1 = u16::decode(buf, pos + 32);
        let fld2: [u16; 4] = decode_array(buf, pos + 34, 0u16);
        let fld3 = u16::decode(buf, pos + 42);
        let fld4 = u32::decode(buf, pos + 44);
        let fld5 = u32::decode(buf, pos + 48);
        let fld6 = u32::decode(buf, pos + 52);
        let fld7 = Resref::decode(buf, pos + 56);
        let fld8 = <CharArray<32>>::decode(buf, pos + 64);
        let fld9 = u32::decode(buf, pos + 96);
        let fld10 = Strref::decode(buf, pos + 100);
        let fld11 = u16::decode(buf, pos + 104);
        let fld12 = u16::decode(buf, pos + 106);
        let fld13 = u16::decode(buf, pos + 108);
        let fld14 = u16::decode(buf, pos + 110);
        let fld15: [u16; 2] = decode_array(buf, pos + 112, 0u16);
        let fld16 = Resref::decode(buf, pos + 116);
        let fld17 = Resref::decode(buf, pos + 124);
        let fld18 = u16::decode(buf, pos + 132);
        let fld19 = u16::decode(buf, pos + 134);
        let fld20 = u32::decode(buf, pos + 136);
        let fld21 = decode_vec::<u8>(buf, pos + 140, 32);
        let fld22 = Resref::decode(buf, pos + 172);
        let fld23 = u16::decode(buf, pos + 180);
        let fld24 = u16::decode(buf, pos + 182);
        let fld25 = Strref::decode(buf, pos + 184);
        let fld26 = Resref::decode(buf, pos + 188);
        let v = Region {
            name: fld0,
            region_type: fld1,
            minimum_bounding_box_of_this_point: fld2,
            count_of_vertices_composing_the_perimeter: fld3,
            index_to_first_vertex: fld4,
            trigger_value: fld5,
            cursor_index: fld6,
            destination_area: fld7,
            entrance_name_in_destination_area: fld8,
            flags: fld9,
            information_text: fld10,
            trap_detection_difficulty_percent: fld11,
            trap_removal_difficulty_percent: fld12,
            region_is_trapped: fld13,
            trap_detected: fld14,
            trap_launch_location: fld15,
            key_item: fld16,
            region_script: fld17,
            alternative_use_point_x_coordinate: fld18,
            alternative_use_point_y_coordinate: fld19,
            _unknown_1: fld20,
            _unknown_2: fld21,
            sound: fld22,
            talk_location_point_x: fld23,
            talk_location_point_y: fld24,
            speaker_name: fld25,
            dialog_file: fld26,
        };
        proof {
            lemma_subrange_concat(buf@, pos + 0, pos + 108, pos + 196);
            lemma_subrange_concat(buf@, pos + 0, pos + 52, pos + 108);
            lemma_subrange_concat(buf@, pos + 0, pos + 42, pos + 52);
            lemma_subrange_concat(buf@, pos + 0, pos + 32, pos + 42);
            lemma_subrange_concat(buf@, pos + 32, pos + 34, pos + 42);
            lemma_subrange_concat(buf@, pos + 42, pos + 44, pos + 52);
            lemma_subrange_concat(buf@, pos + 44, pos + 48, pos + 52);
            lemma_subrange_concat(buf@, pos + 52, pos + 96, pos + 108);
            lemma_subrange_concat(buf@, pos + 52, pos + 56, pos + 96);
            lemma_subrange_concat(buf@, pos + 56, pos + 64, pos + 96);
            lemma_subrange_concat(buf@, pos + 96, pos + 104, pos + 108);
            lemma_subrange_concat(buf@, pos + 96, pos + 100, pos + 104);
            lemma_subrange_concat(buf@, pos + 104, pos + 106, pos + 108);
            lemma_subrange_concat(buf@, pos + 108, pos + 136, pos + 196);
            lemma_subrange_concat(buf@, pos + 108, pos + 116, pos + 136);
            lemma_subrange_concat(buf@, pos + 108, pos + 110, pos + 116);
            lemma_subrange_concat(buf@, pos + 110, pos + 112, pos + 116);
            lemma_subrange_concat(buf@, pos + 116, pos + 132, pos + 136);
            lemma_subrange_concat(buf@, pos + 116, pos + 124, pos + 132);
            lemma_subrange_concat(buf@, pos + 132, pos + 134, pos + 136);
            lemma_subrange_concat(buf@, pos + 136, pos + 180, pos + 196);
            lemma_subrange_concat(buf@, pos + 136, pos + 140, pos + 180);
            lemma_subrange_concat(buf@, pos + 140, pos + 172, pos + 180);
            lemma_subrange_concat(buf@, pos + 180, pos + 184, pos + 196);
            lemma_subrange_concat(buf@, pos + 180, pos + 182, pos + 184);
            lemma_subrange_concat(buf@, pos + 184, pos + 188, pos + 196);
        }
        v
    }

    fn encode(&self, out: &mut Vec<u8>) {
        let mut b0 = encoded(&self.name);
        let mut b1 = encoded(&self.region_type);
        let mut b2 = encoded_slice(self.minimum_bounding_box_of_this_point.as_slice());
        let mut b3 = encoded(&self.count_of_vertices_composing_the_perimeter);
        let mut b4 = encoded(&self.index_to_first_vertex);
        let mut b5 = encoded(&self.trigger_value);
        let mut b6 = encoded(&self.cursor_index);
        let mut b7 = encoded(&self.destination_area);
        let mut b8 = encoded(&self.entrance_name_in_destination_area);
        let mut b9 = encoded(&self.flags);
        let mut b10 = encoded(&self.information_text);
        let mut b11 = encoded(&self.trap_detection_difficulty_percent);
        let mut b12 = encoded(&self.trap_removal_difficulty_percent);
        let mut b13 = encoded(&self.region_is_trapped);
        let mut b14 = encoded(&self.trap_detected);
        let mut b15 = encoded_slice(self.trap_launch_location.as_slice());
        let mut b16 = encoded(&self.key_item);
        let mut b17 = encoded(&self.region_script);
        let mut b18 = encoded(&self.alternative_use_point_x_coordinate);
        let mut b19 = encoded(&self.alternative_use_point_y_coordinate);
        let mut b20 = encoded(&self._unknown_1);
        let mut b21 = encoded_slice(self._unknown_2.as_slice());
        let mut b22 = encoded(&self.sound);
        let mut b23 = encoded(&self.talk_location_point_x);
        let mut b24 = encoded(&self.talk_location_point_y);
        let mut b25 = encoded(&self.speaker_name);
        let mut b26 = encoded(&self.dialog_file);
        b25.append(&mut b26);
        b23.append(&mut b24);
        b23.append(&mut b25);
        b21.append(&mut b22);
        b20.append(&mut b21);
        b20.append(&mut b23);
        b18.append(&mut b19);
        b16.append(&mut b17);
        b16.append(&mut b18);
        b14.append(&mut b15);
        b13.append(&mut b14);
        b13.append(&mut b16);
        b13.append(&mut b20);
        b11.append(&mut b12);
        b9.append(&mut b10);
        b9.append(&mut b11);
        b7.append(&mut b8);
        b6.append(&mut b7);
        b6.append(&mut b9);
        b4.append(&mut b5);
        b3.append(&mut b4);
        b1.append(&mut b2);
        b0.append(&mut b1);
        b0.append(&mut b3);
        b0.append(&mut b6);
        b0.append(&mut b13);
        out.append(&mut b0);
    }
}

/// https://gibberlings3.github.io/iesdp/file_formats/ie_formats/are_v1.htm#formAREAV1_0_Spawn
#[derive(Debug, Clone, PartialEq)]
pub struct SpawnPoint {
    pub name: CharArray<32>,
    pub x_coordinate: u16,
    pub y_coordinate: u16,
    pub resref_of_creature_to_spawn_1st: Resref,
    pub resref_of_creature_to_spawn_2nd: Resref,
    pub resref_of_creature_to_spawn_3rd: Resref,
    pub resref_of_creature_to_spawn_4th: Resref,
    pub resref_of_creature_to_spawn_5th: Resref,
    pub resref_of_creature_to_spawn_6th: Resref,
    pub resref_of_creature_to_spawn_7th: Resref,
    pub resref_of_creature_to_spawn_8th: Resref,
    pub resref_of_creature_to_spawn_9th: Resref,
    pub resref_of_creature_to_spawn_10th: Resref,
    pub count_of_spawn_creatures: u16,
    pub base_creature_number_to_spawn: u16,
    pub frequency: u16,
    pub spawn_method: u16,
    pub actor_removal_timer: u32,
    pub movement_restriction_distance: u16,
    pub movement_restriction_distance_move_to_object: u16,
    pub maximum_creatures_to_spawn: u16,
    /// 0=Inactive, 1=Active
    pub spawn_point_enabled: u16,
    pub spawn_point_appearence_schedule: u32,
    pub probability_day: u16,
    pub probability_night: u16,
    /// BGEE only
    pub spawn_frequency: u32,
    pub countdown: u32,
    /// Offset 0x0024
    pub spawn_weight_of_1st_creature_slot: u8,
    /// Offset 0x002c
    pub spawn_weight_of_2nd_creature_slot: u8,
    /// Offset 0x0034
    pub spawn_weight_of_3rd_creature_slot: u8,
    /// Offset 0x003c
    pub spawn_weight_of_4th_creature_slot: u8,
    /// Offset 0x0044
    pub spawn_weight_of_5th_creature_slot: u8,
    /// Offset 0x004c
    pub spawn_weight_of_6th_creature_slot: u8,
    /// Offset 0x0054
    pub spawn_weight_of_7th_creature_slot: u8,
    /// Offset 0x005c
    pub spawn_weight_of_8th_creature_slot: u8,
    /// Offset 0x0064
    pub spawn_weight_of_9th_creature_slot: u8,
    /// Offset 0x006c
    pub spawn_weight_of_10th_creature_slot: u8,
    pub _unused: Vec<u8>,
}

impl SpawnPoint {
    /// Encoding of the fields 0 to 37, in order.
    pub open spec fn bytes_0_38(&self) -> Seq<u8> {
        self.bytes_0_19() + self.bytes_19_38()
    }

    /// Encoding of the fields 0 to 18, in order.
    pub open spec fn bytes_0_19(&self) -> Seq<u8> {
        self.bytes_0_9() + self.bytes_9_19()
    }

    /// Encoding of the fields 0 to 8, in order.
    pub open spec fn bytes_0_9(&self) -> Seq<u8> {
        self.bytes_0_4() + self.bytes_4_9()
    }

    /// Encoding of the fields 0 to 3, in order.
    pub open spec fn bytes_0_4(&self) -> Seq<u8> {
        self.bytes_0_2() + self.bytes_2_4()
    }

    /// Encoding of the fields 0 to 1, in order.
    pub open spec fn bytes_0_2(&self) -> Seq<u8> {
        self.name.enc() + self.x_coordinate.enc()
    }

    /// Encoding of the fields 2 to 3, in order.
    pub open spec fn bytes_2_4(&self) -> Seq<u8> {
        self.y_coordinate.enc() + self.resref_of_creature_to_spawn_1st.enc()
    }

    /// Encoding of the fields 4 to 8, in order.
    pub open spec fn bytes_4_9(&self) -> Seq<u8> {
        self.bytes_4_6() + self.bytes_6_9()
    }

    /// Encoding of the fields 4 to 5, in order.
    pub open spec fn bytes_4_6(&self) -> Seq<u8> {
        self.resref_of_creature_to_spawn_2nd.enc() + self.resref_of_creature_to_spawn_3rd.enc()
    }

    /// Encoding of the fields 6 to 8, in order.
    pub open spec fn bytes_6_9(&self) -> Seq<u8> {
        self.resref_of_creature_to_spawn_4th.enc() + self.bytes_7_9()
    }

    /// Encoding of the fields 7 to 8, in order.
    pub open spec fn bytes_7_9(&self) -> Seq<u8> {
        self.resref_of_creature_to_spawn_5th.enc() + self.resref_of_creature_to_spawn_6th.enc()
    }

    /// Encoding of the fields 9 to 18, in order.
    pub open spec fn bytes_9_19(&self) -> Seq<u8> {
        self.bytes_9_14() + self.bytes_14_19()
    }

    /// Encoding of the fields 9 to 13, in order.
    pub open spec fn bytes_9_14(&self) -> Seq<u8> {
        self.bytes_9_11() + self.bytes_11_14()
    }

    /// Encoding of the fields 9 to 10, in order.
    pub open spec fn bytes_9_11(&self) -> Seq<u8> {
        self.resref_of_creature_to_spawn_7th.enc() + self.resref_of_creature_to_spawn_8th.enc()
    }

    /// Encoding of the fields 11 to 13, in order.
    pub open spec fn bytes_11_14(&self) -> Seq<u8> {
        self.resref_of_creature_to_spawn_9th.enc() + self.bytes_12_14()
    }

    /// Encoding of the fields 12 to 13, in order.
    pub open spec fn bytes_12_14(&self) -> Seq<u8> {
        self.resref_of_creature_to_spawn_10th.enc() + self.count_of_spawn_creatures.enc()
    }

    /// Encoding of the fields 14 to 18, in order.
    pub open spec fn bytes_14_19(&self) -> Seq<u8> {
        self.bytes_14_16() + self.bytes_16_19()
    }

    /// Encoding of the fields 14 to 15, in order.
    pub open spec fn bytes_14_16(&self) -> Seq<u8> {
        self.base_creature_number_to_spawn.enc() + self.frequency.enc()
    }

    /// Encoding of the fields 16 to 18, in order.
    pub open spec fn bytes_16_19(&self) -> Seq<u8> {
        self.spawn_method.enc() + self.bytes_17_19()
    }

    /// Encoding of the fields 17 to 18, in order.
    pub open spec fn bytes_17_19(&self) -> Seq<u8> {
        self.actor_removal_timer.enc() + self.movement_restriction_distance.enc()
    }

    /// Encoding of the fields 19 to 37, in order.
    pub open spec fn bytes_19_38(&self) -> Seq<u8> {
        self.bytes_19_28() + self.bytes_28_38()
    }

    /// Encoding of the fields 19 to 27, in order.
    pub open spec fn bytes_19_28(&self) -> Seq<u8> {
        self.bytes_19_23() + self.bytes_23_28()
    }

    /// Encoding of the fields 19 to 22, in order.
    pub open spec fn bytes_19_23(&self) -> Seq<u8> {
        self.bytes_19_21() + self.bytes_21_23()
    }

    /// Encoding of the fields 19 to 20, in order.
    pub open spec fn bytes_19_21(&self) -> Seq<u8> {
        self.movement_restriction_distance_move_to_object.enc() + self.maximum_creatures_to_spawn.enc()
    }

    /// Encoding of the fields 21 to 22, in order.
    pub open spec fn bytes_21_23(&self) -> Seq<u8> {
        self.spawn_point_enabled.enc() + self.spawn_point_appearence_schedule.enc()
    }

    /// Encoding of the fields 23 to 27, in order.
    pub open spec fn bytes_23_28(&self) -> Seq<u8> {
        self.bytes_23_25() + self.bytes_25_28()
    }

    /// Encoding of the fields 23 to 24, in order.
    pub open spec fn bytes_23_25(&self) -> Seq<u8> {
        self.probability_day.enc() + self.probability_night.enc()
    }

    /// Encoding of the fields 25 to 27, in order.
    pub open spec fn bytes_25_28(&self) -> Seq<u8> {
        self.spawn_frequency.enc() + self.bytes_26_28()
    }

    /// Encoding of the fields 26 to 27, in order.
    pub open spec fn bytes_26_28(&self) -> Seq<u8> {
        self.countdown.enc() + self.spawn_weight_of_1st_creature_slot.enc()
    }

    /// Encoding of the fields 28 to 37, in order.
    pub open spec fn bytes_28_38(&self) -> Seq<u8> {
        self.bytes_28_33() + self.bytes_33_38()
    }

    /// Encoding of the fields 28 to 32, in order.
    pub open spec fn bytes_28_33(&self) -> Seq<u8> {
        self.bytes_28_30() + self.bytes_30_33()
    }

    /// Encoding of the fields 28 to 29, in order.
    pub open spec fn bytes_28_30(&self) -> Seq<u8> {
        self.spawn_weight_of_2nd_creature_slot.enc() + self.spawn_weight_of_3rd_creature_slot.enc()
    }

    /// Encoding of the fields 30 to 32, in order.
    pub open spec fn bytes_30_33(&self) -> Seq<u8> {
        self.spawn_weight_of_4th_creature_slot.enc() + self.bytes_31_33()
    }

    /// Encoding of the fields 31 to 32, in order.
    pub open spec fn bytes_31_33(&self) -> Seq<u8> {
        self.spawn_weight_of_5th_creature_slot.enc() + self.spawn_weight_of_6th_creature_slot.enc()
    }

    /// Encoding of the fields 33 to 37, in order.
    pub open spec fn bytes_33_38(&self) -> Seq<u8> {
        self.bytes_33_35() + self.bytes_35_38()
    }

    /// Encoding of the fields 33 to 34, in order.
    pub open spec fn bytes_33_35(&self) -> Seq<u8> {
        self.spawn_weight_of_7th_creature_slot.enc() + self.spawn_weight_of_8th_creature_slot.enc()
    }

    /// Encoding of the fields 35 to 37, in order.
    pub open spec fn bytes_35_38(&self) -> Seq<u8> {
        self.spawn_weight_of_9th_creature_slot.enc() + self.bytes_36_38()
    }

    /// Encoding of the fields 36 to 37, in order.
    pub open spec fn bytes_36_38(&self) -> Seq<u8> {
        self.spawn_weight_of_10th_creature_slot.enc() + enc_seq(self._unused@)
    }
}

impl Codec for SpawnPoint {
    open spec fn width() -> nat {
        200
    }

    open spec fn enc(&self) -> Seq<u8> {
        self.bytes_0_38()
    }

    open spec fn wf(&self) -> bool {
        &&& self._unused@.len() == 38
        &&& all_wf(self._unused@)
    }

    open spec fn same(&self, other: &Self) -> bool {
        &&& self.name.same(&other.name)
        &&& self.x_coordinate == other.x_coordinate
        &&& self.y_coordinate == other.y_coordinate
        &&& self.resref_of_creature_to_spawn_1st.same(&other.resref_of_creature_to_spawn_1st)
        &&& self.resref_of_creature_to_spawn_2nd.same(&other.resref_of_creature_to_spawn_2nd)
        &&& self.resref_of_creature_to_spawn_3rd.same(&other.resref_of_creature_to_spawn_3rd)
        &&& self.resref_of_creature_to_spawn_4th.same(&other.resref_of_creature_to_spawn_4th)
        &&& self.resref_of_creature_to_spawn_5th.same(&other.resref_of_creature_to_spawn_5th)
        &&& self.resref_of_creature_to_spawn_6th.same(&other.resref_of_creature_to_spawn_6th)
        &&& self.resref_of_creature_to_spawn_7th.same(&other.resref_of_creature_to_spawn_7th)
        &&& self.resref_of_creature_to_spawn_8th.same(&other.resref_of_creature_to_spawn_8th)
        &&& self.resref_of_creature_to_spawn_9th.same(&other.resref_of_creature_to_spawn_9th)
        &&& self.resref_of_creature_to_spawn_10th.same(&other.resref_of_creature_to_spawn_10th)
        &&& self.count_of_spawn_creatures == other.count_of_spawn_creatures
        &&& self.base_creature_number_to_spawn == other.base_creature_number_to_spawn
        &&& self.frequency == other.frequency
        &&& self.spawn_method == other.spawn_method
        &&& self.actor_removal_timer == other.actor_removal_timer
        &&& self.movement_restriction_distance == other.movement_restriction_distance
        &&& self.movement_restriction_distance_move_to_object == other.movement_restriction_distance_move_to_object
        &&& self.maximum_creatures_to_spawn == other.maximum_creatures_to_spawn
        &&& self.spawn_point_enabled == other.spawn_point_enabled
        &&& self.spawn_point_appearence_schedule == other.spawn_point_appearence_schedule
        &&& self.probability_day == other.probability_day
        &&& self.probability_night == other.probability_night
        &&& self.spawn_frequency == other.spawn_frequency
        &&& self.countdown == other.countdown
        &&& self.spawn_weight_of_1st_creature_slot == other.spawn_weight_of_1st_creature_slot
        &&& self.spawn_weight_of_2nd_creature_slot == other.spawn_weight_of_2nd_creature_slot
        &&& self.spawn_weight_of_3rd_creature_slot == other.spawn_weight_of_3rd_creature_slot
        &&& self.spawn_weight_of_4th_creature_slot == other.spawn_weight_of_4th_creature_slot
        &&& self.spawn_weight_of_5th_creature_slot == other.spawn_weight_of_5th_creature_slot
        &&& self.spawn_weight_of_6th_creature_slot == other.spawn_weight_of_6th_creature_slot
        &&& self.spawn_weight_of_7th_creature_slot == other.spawn_weight_of_7th_creature_slot
        &&& self.spawn_weight_of_8th_creature_slot == other.spawn_weight_of_8th_creature_slot
        &&& self.spawn_weight_of_9th_creature_slot == other.spawn_weight_of_9th_creature_slot
        &&& self.spawn_weight_of_10th_creature_slot == other.spawn_weight_of_10th_creature_slot
        &&& seq_same(self._unused@, other._unused@)
    }

    fn byte_width() -> (n: usize) {
        200
    }

    fn check_wf(&self) -> (b: bool) {
        self._unused.len() == 38 && check_all_wf(self._unused.as_slice())
    }

    proof fn lemma_enc_len(&self) {
        self.name.lemma_enc_len();
        self.x_coordinate.lemma_enc_len();
        self.y_coordinate.lemma_enc_len();
        self.resref_of_creature_to_spawn_1st.lemma_enc_len();
        self.resref_of_creature_to_spawn_2nd.lemma_enc_len();
        self.resref_of_creature_to_spawn_3rd.lemma_enc_len();
        self.resref_of_creature_to_spawn_4th.lemma_enc_len();
        self.resref_of_creature_to_spawn_5th.lemma_enc_len();
        self.resref_of_creature_to_spawn_6th.lemma_enc_len();
        self.resref_of_creature_to_spawn_7th.lemma_enc_len();
        self.resref_of_creature_to_spawn_8th.lemma_enc_len();
        self.resref_of_creature_to_spawn_9th.lemma_enc_len();
        self.resref_of_creature_to_spawn_10th.lemma_enc_len();
        self.count_of_spawn_creatures.lemma_enc_len();
        self.base_creature_number_to_spawn.lemma_enc_len();
        self.frequency.lemma_enc_len();
        self.spawn_method.lemma_enc_len();
        self.actor_removal_timer.lemma_enc_len();
        self.movement_restriction_distance.lemma_enc_len();
        self.movement_restriction_distance_move_to_object.lemma_enc_len();
        self.maximum_creatures_to_spawn.lemma_enc_len();
        self.spawn_point_enabled.lemma_enc_len();
        self.spawn_point_appearence_schedule.lemma_enc_len();
        self.probability_day.lemma_enc_len();
        self.probability_night.lemma_enc_len();
        self.spawn_frequency.lemma_enc_len();
        self.countdown.lemma_enc_len();
        self.spawn_weight_of_1st_creature_slot.lemma_enc_len();
        self.spawn_weight_of_2nd_creature_slot.lemma_enc_len();
        self.spawn_weight_of_3rd_creature_slot.lemma_enc_len();
        self.spawn_weight_of_4th_creature_slot.lemma_enc_len();
        self.spawn_weight_of_5th_creature_slot.lemma_enc_len();
        self.spawn_weight_of_6th_creature_slot.lemma_enc_len();
        self.spawn_weight_of_7th_creature_slot.lemma_enc_len();
        self.spawn_weight_of_8th_creature_slot.lemma_enc_len();
        self.spawn_weight_of_9th_creature_slot.lemma_enc_len();
        self.spawn_weight_of_10th_creature_slot.lemma_enc_len();
        lemma_enc_seq_len(self._unused@);
    }

    proof fn lemma_enc_injective(&self, other: &Self) {
        self.name.lemma_enc_len();
        self.x_coordinate.lemma_enc_len();
        self.y_coordinate.lemma_enc_len();
        self.resref_of_creature_to_spawn_1st.lemma_enc_len();
        self.resref_of_creature_to_spawn_2nd.lemma_enc_len();
        self.resref_of_creature_to_spawn_3rd.lemma_enc_len();
        self.resref_of_creature_to_spawn_4th.lemma_enc_len();
        self.resref_of_creature_to_spawn_5th.lemma_enc_len();
        self.resref_of_creature_to_spawn_6th.lemma_enc_len();
        self.resref_of_creature_to_spawn_7th.lemma_enc_len();
        self.resref_of_creature_to_spawn_8th.lemma_enc_len();
        self.resref_of_creature_to_spawn_9th.lemma_enc_len();
        self.resref_of_creature_to_spawn_10th.lemma_enc_len();
        self.count_of_spawn_creatures.lemma_enc_len();
        self.base_creature_number_to_spawn.lemma_enc_len();
        self.frequency.lemma_enc_len();
        self.spawn_method.lemma_enc_len();
        self.actor_removal_timer.lemma_enc_len();
        self.movement_restriction_distance.lemma_enc_len();
        self.movement_restriction_distance_move_to_object.lemma_enc_len();
        self.maximum_creatures_to_spawn.lemma_enc_len();
        self.spawn_point_enabled.lemma_enc_len();
        self.spawn_point_appearence_schedule.lemma_enc_len();
        self.probability_day.lemma_enc_len();
        self.probability_night.lemma_enc_len();
        self.spawn_frequency.lemma_enc_len();
        self.countdown.lemma_enc_len();
        self.spawn_weight_of_1st_creature_slot.lemma_enc_len();
        self.spawn_weight_of_2nd_creature_slot.lemma_enc_len();
        self.spawn_weight_of_3rd_creature_slot.lemma_enc_len();
        self.spawn_weight_of_4th_creature_slot.lemma_enc_len();
        self.spawn_weight_of_5th_creature_slot.lemma_enc_len();
        self.spawn_weight_of_6th_creature_slot.lemma_enc_len();
        self.spawn_weight_of_7th_creature_slot.lemma_enc_len();
        self.spawn_weight_of_8th_creature_slot.lemma_enc_len();
        self.spawn_weight_of_9th_creature_slot.lemma_enc_len();
        self.spawn_weight_of_10th_creature_slot.lemma_enc_len();
        lemma_enc_seq_len(self._unused@);
        other.name.lemma_enc_len();
        other.x_coordinate.lemma_enc_len();
        other.y_coordinate.lemma_enc_len();
        other.resref_of_creature_to_spawn_1st.lemma_enc_len();
        other.resref_of_creature_to_spawn_2nd.lemma_enc_len();
        other.resref_of_creature_to_spawn_3rd.lemma_enc_len();
        other.resref_of_creature_to_spawn_4th.lemma_enc_len();
        other.resref_of_creature_to_spawn_5th.lemma_enc_len();
        other.resref_of_creature_to_spawn_6th.lemma_enc_len();
        other.resref_of_creature_to_spawn_7th.lemma_enc_len();
        other.resref_of_creature_to_spawn_8th.lemma_enc_len();
        other.resref_of_creature_to_spawn_9th.lemma_enc_len();
        other.resref_of_creature_to_spawn_10th.lemma_enc_len();
        other.count_of_spawn_creatures.lemma_enc_len();
        other.base_creature_number_to_spawn.lemma_enc_len();
        other.frequency.lemma_enc_len();
        other.spawn_method.lemma_enc_len();
        other.actor_removal_timer.lemma_enc_len();
        other.movement_restriction_distance.lemma_enc_len();
        other.movement_restriction_distance_move_to_object.lemma_enc_len();
        other.maximum_creatures_to_spawn.lemma_enc_len();
        other.spawn_point_enabled.lemma_enc_len();
        other.spawn_point_appearence_schedule.lemma_enc_len();
        other.probability_day.lemma_enc_len();
        other.probability_night.lemma_enc_len();
        other.spawn_frequency.lemma_enc_len();
        other.countdown.lemma_enc_len();
        other.spawn_weight_of_1st_creature_slot.lemma_enc_len();
        other.spawn_weight_of_2nd_creature_slot.lemma_enc_len();
        other.spawn_weight_of_3rd_creature_slot.lemma_enc_len();
        other.spawn_weight_of_4th_creature_slot.lemma_enc_len();
        other.spawn_weight_of_5th_creature_slot.lemma_enc_len();
        other.spawn_weight_of_6th_creature_slot.lemma_enc_len();
        other.spawn_weight_of_7th_creature_slot.lemma_enc_len();
        other.spawn_weight_of_8th_creature_slot.lemma_enc_len();
        other.spawn_weight_of_9th_creature_slot.lemma_enc_len();
        other.spawn_weight_of_10th_creature_slot.lemma_enc_len();
        lemma_enc_seq_len(other._unused@);
        lemma_concat_peel(self.bytes_0_19(), self.bytes_19_38(), other.bytes_0_19(), other.bytes_19_38());
        lemma_concat_peel(self.bytes_0_9(), self.bytes_9_19(), other.bytes_0_9(), other.bytes_9_19());
        lemma_concat_peel(self.bytes_0_4(), self.bytes_4_9(), other.bytes_0_4(), other.bytes_4_9());
        lemma_concat_peel(self.bytes_0_2(), self.bytes_2_4(), other.bytes_0_2(), other.bytes_2_4());
        lemma_concat_peel(self.name.enc(), self.x_coordinate.enc(), other.name.enc(), other.x_coordinate.enc());
        lemma_concat_peel(self.y_coordinate.enc(), self.resref_of_creature_to_spawn_1st.enc(), other.y_coordinate.enc(), other.resref_of_creature_to_spawn_1st.enc());
        lemma_concat_peel(self.bytes_4_6(), self.bytes_6_9(), other.bytes_4_6(), other.bytes_6_9());
        lemma_concat_peel(self.resref_of_creature_to_spawn_2nd.enc(), self.resref_of_creature_to_spawn_3rd.enc(), other.resref_of_creature_to_spawn_2nd.enc(), other.resref_of_creature_to_spawn_3rd.enc());
        lemma_concat_peel(self.resref_of_creature_to_spawn_4th.enc(), self.bytes_7_9(), other.resref_of_creature_to_spawn_4th.enc(), other.bytes_7_9());
        lemma_concat_peel(self.resref_of_creature_to_spawn_5th.enc(), self.resref_of_creature_to_spawn_6th.enc(), other.resref_of_creature_to_spawn_5th.enc(), other.resref_of_creature_to_spawn_6th.enc());
        lemma_concat_peel(self.bytes_9_14(), self.bytes_14_19(), other.bytes_9_14(), other.bytes_14_19());
        lemma_concat_peel(self.bytes_9_11(), self.bytes_11_14(), other.bytes_9_11(), other.bytes_11_14());
        lemma_concat_peel(self.resref_of_creature_to_spawn_7th.enc(), self.resref_of_creature_to_spawn_8th.enc(), other.resref_of_creature_to_spawn_7th.enc(), other.resref_of_creature_to_spawn_8th.enc());
        lemma_concat_peel(self.resref_of_creature_to_spawn_9th.enc(), self.bytes_12_14(), other.resref_of_creature_to_spawn_9th.enc(), other.bytes_12_14());
        lemma_concat_peel(self.resref_of_creature_to_spawn_10th.enc(), self.count_of_spawn_creatures.enc(), other.resref_of_creature_to_spawn_10th.enc(), other.count_of_spawn_creatures.enc());
        lemma_concat_peel(self.bytes_14_16(), self.bytes_16_19(), other.bytes_14_16(), other.bytes_16_19());
        lemma_concat_peel(self.base_creature_number_to_spawn.enc(), self.frequency.enc(), other.base_creature_number_to_spawn.enc(), other.frequency.enc());
        lemma_concat_peel(self.spawn_method.enc(), self.bytes_17_19(), other.spawn_method.enc(), other.bytes_17_19());
        lemma_concat_peel(self.actor_removal_timer.enc(), self.movement_restriction_distance.enc(), other.actor_removal_timer.enc(), other.movement_restriction_distance.enc());
        lemma_concat_peel(self.bytes_19_28(), self.bytes_28_38(), other.bytes_19_28(), other.bytes_28_38());
        lemma_concat_peel(self.bytes_19_23(), self.bytes_23_28(), other.bytes_19_23(), other.bytes_23_28());
        lemma_concat_peel(self.bytes_19_21(), self.bytes_21_23(), other.bytes_19_21(), other.bytes_21_23());
        lemma_concat_peel(self.movement_restriction_distance_move_to_object.enc(), self.maximum_creatures_to_spawn.enc(), other.movement_restriction_distance_move_to_object.enc(), other.maximum_creatures_to_spawn.enc());
        lemma_concat_peel(self.spawn_point_enabled.enc(), self.spawn_point_appearence_schedule.enc(), other.spawn_point_enabled.enc(), other.spawn_point_appearence_schedule.enc());
        lemma_concat_peel(self.bytes_23_25(), self.bytes_25_28(), other.bytes_23_25(), other.bytes_25_28());
        lemma_concat_peel(self.probability_day.enc(), self.probability_night.enc(), other.probability_day.enc(), other.probability_night.enc());
        lemma_concat_peel(self.spawn_frequency.enc(), self.bytes_26_28(), other.spawn_frequency.enc(), other.bytes_26_28());
        lemma_concat_peel(self.countdown.enc(), self.spawn_weight_of_1st_creature_slot.enc(), other.countdown.enc(), other.spawn_weight_of_1st_creature_slot.enc());
        lemma_concat_peel(self.bytes_28_33(), self.bytes_33_38(), other.bytes_28_33(), other.bytes_33_38());
        lemma_concat_peel(self.bytes_28_30(), self.bytes_30_33(), other.bytes_28_30(), other.bytes_30_33());
        lemma_concat_peel(self.spawn_weight_of_2nd_creature_slot.enc(), self.spawn_weight_of_3rd_creature_slot.enc(), other.spawn_weight_of_2nd_creature_slot.enc(), other.spawn_weight_of_3rd_creature_slot.enc());
        lemma_concat_peel(self.spawn_weight_of_4th_creature_slot.enc(), self.bytes_31_33(), other.spawn_weight_of_4th_creature_slot.enc(), other.bytes_31_33());
        lemma_concat_peel(self.spawn_weight_of_5th_creature_slot.enc(), self.spawn_weight_of_6th_creature_slot.enc(), other.spawn_weight_of_5th_creature_slot.enc(), other.spawn_weight_of_6th_creature_slot.enc());
        lemma_concat_peel(self.bytes_33_35(), self.bytes_35_38(), other.bytes_33_35(), other.bytes_35_38());
        lemma_concat_peel(self.spawn_weight_of_7th_creature_slot.enc(), self.spawn_weight_of_8th_creature_slot.enc(), other.spawn_weight_of_7th_creature_slot.enc(), other.spawn_weight_of_8th_creature_slot.enc());
        lemma_concat_peel(self.spawn_weight_of_9th_creature_slot.enc(), self.bytes_36_38(), other.spawn_weight_of_9th_creature_slot.enc(), other.bytes_36_38());
        lemma_concat_peel(self.spawn_weight_of_10th_creature_slot.enc(), enc_seq(self._unused@), other.spawn_weight_of_10th_creature_slot.enc(), enc_seq(other._unused@));
        self.name.lemma_enc_injective(&other.name);
        self.x_coordinate.lemma_enc_injective(&other.x_coordinate);
        self.y_coordinate.lemma_enc_injective(&other.y_coordinate);
        self.resref_of_creature_to_spawn_1st.lemma_enc_injective(&other.resref_of_creature_to_spawn_1st);
        self.resref_of_creature_to_spawn_2nd.lemma_enc_injective(&other.resref_of_creature_to_spawn_2nd);
        self.resref_of_creature_to_spawn_3rd.lemma_enc_injective(&other.resref_of_creature_to_spawn_3rd);
        self.resref_of_creature_to_spawn_4th.lemma_enc_injective(&other.resref_of_creature_to_spawn_4th);
        self.resref_of_creature_to_spawn_5th.lemma_enc_injective(&other.resref_of_creature_to_spawn_5th);
        self.resref_of_creature_to_spawn_6th.lemma_enc_injective(&other.resref_of_creature_to_spawn_6th);
        self.resref_of_creature_to_spawn_7th.lemma_enc_injective(&other.resref_of_creature_to_spawn_7th);
        self.resref_of_creature_to_spawn_8th.lemma_enc_injective(&other.resref_of_creature_to_spawn_8th);
        self.resref_of_creature_to_spawn_9th.lemma_enc_injective(&other.resref_of_creature_to_spawn_9th);
        self.resref_of_creature_to_spawn_10th.lemma_enc_injective(&other.resref_of_creature_to_spawn_10th);
        self.count_of_spawn_creatures.lemma_enc_injective(&other.count_of_spawn_creatures);
        self.base_creature_number_to_spawn.lemma_enc_injective(&other.base_creature_number_to_spawn);
        self.frequency.lemma_enc_injective(&other.frequency);
        self.spawn_method.lemma_enc_injective(&other.spawn_method);
        self.actor_removal_timer.lemma_enc_injective(&other.actor_removal_timer);
        self.movement_restriction_distance.lemma_enc_injective(&other.movement_restriction_distance);
        self.movement_restriction_distance_move_to_object.lemma_enc_injective(&other.movement_restriction_distance_move_to_object);
        self.maximum_creatures_to_spawn.lemma_enc_injective(&other.maximum_creatures_to_spawn);
        self.spawn_point_enabled.lemma_enc_injective(&other.spawn_point_enabled);
        self.spawn_point_appearence_schedule.lemma_enc_injective(&other.spawn_point_appearence_schedule);
        self.probability_day.lemma_enc_injective(&other.probability_day);
        self.probability_night.lemma_enc_injective(&other.probability_night);
        self.spawn_frequency.lemma_enc_injective(&other.spawn_frequency);
        self.countdown.lemma_enc_injective(&other.countdown);
        self.spawn_weight_of_1st_creature_slot.lemma_enc_injective(&other.spawn_weight_of_1st_creature_slot);
        self.spawn_weight_of_2nd_creature_slot.lemma_enc_injective(&other.spawn_weight_of_2nd_creature_slot);
        self.spawn_weight_of_3rd_creature_slot.lemma_enc_injective(&other.spawn_weight_of_3rd_creature_slot);
        self.spawn_weight_of_4th_creature_slot.lemma_enc_injective(&other.spawn_weight_of_4th_creature_slot);
        self.spawn_weight_of_5th_creature_slot.lemma_enc_injective(&other.spawn_weight_of_5th_creature_slot);
        self.spawn_weight_of_6th_creature_slot.lemma_enc_injective(&other.spawn_weight_of_6th_creature_slot);
        self.spawn_weight_of_7th_creature_slot.lemma_enc_injective(&other.spawn_weight_of_7th_creature_slot);
        self.spawn_weight_of_8th_creature_slot.lemma_enc_injective(&other.spawn_weight_of_8th_creature_slot);
        self.spawn_weight_of_9th_creature_slot.lemma_enc_injective(&other.spawn_weight_of_9th_creature_slot);
        self.spawn_weight_of_10th_creature_slot.lemma_enc_injective(&other.spawn_weight_of_10th_creature_slot);
        lemma_enc_seq_injective(self._unused@, other._unused@);
    }

    #[verifier::rlimit(100)]
    #[verifier::spinoff_prover]
    fn decode(buf: &[u8], pos: usize) -> (v: Self) {
        let len = buf.len();
        let fld0 = <CharArray<32>>::decode(buf, pos + 0);
        let fld1 = u16::decode(buf, pos + 32);
        let fld2 = u16::decode(buf, pos + 34);
        let fld3 = Resref::decode(buf, pos + 36);
        let fld4 = Resref::decode(buf, pos + 44);
        let fld5 = Resref::decode(buf, pos + 52);
        let fld6 = Resref::decode(buf, pos + 60);
        let fld7 = Resref::decode(buf, pos + 68);
        let fld8 = Resref::decode(buf, pos + 76);
        let fld9 = Resref::decode(buf, pos + 84);
        let fld10 = Resref::decode(buf, pos + 92);
        let fld11 = Resref::decode(buf, pos + 100);
        let fld12 = Resref::decode(buf, pos + 108);
        let fld13 = u16::decode(buf, pos + 116);
        let fld14 = u16::decode(buf, pos + 118);
        let fld15 = u16::decode(buf, pos + 120);
        let fld16 = u16::decode(buf, pos + 122);
        let fld17 = u32::decode(buf, pos + 124);
        let fld18 = u16::decode(buf, pos + 128);
        let fld19 = u16::decode(buf, pos + 130);
        let fld20 = u16::decode(buf, pos + 132);
        let fld21 = u16::decode(buf, pos + 134);
        let fld22 = u32::decode(buf, pos + 136);
        let fld23 = u16::decode(buf, pos + 140);
        let fld24 = u16::decode(buf, pos + 142);
        let fld25 = u32::decode(buf, pos + 144);
        let fld26 = u32::decode(buf, pos + 148);
        let fld27 = u8::decode(buf, pos + 152);
        let fld28 = u8::decode(buf, pos + 153);
        let fld29 = u8::decode(buf, pos + 154);
        let fld30 = u8::decode(buf, pos + 155);
        let fld31 = u8::decode(buf, pos + 156);
        let fld32 = u8::decode(buf, pos + 157);
        let fld33 = u8::decode(buf, pos + 158);
        let fld34 = u8::decode(buf, pos + 159);
        let fld35 = u8::decode(buf, pos + 160);
        let fld36 = u8::decode(buf, pos + 161);
        let fld37 = decode_vec::<u8>(buf, pos + 162, 38);
        let v = SpawnPoint {
            name: fld0,
            x_coordinate: fld1,
            y_coordinate: fld2,
            resref_of_creature_to_spawn_1st: fld3,
            resref_of_creature_to_spawn_2nd: fld4,
            resref_of_creature_to_spawn_3rd: fld5,
            resref_of_creature_to_spawn_4th: fld6,
            resref_of_creature_to_spawn_5th: fld7,
            resref_of_creature_to_spawn_6th: fld8,
            resref_of_creature_to_spawn_7th: fld9,
            resref_of_creature_to_spawn_8th: fld10,
            resref_of_creature_to_spawn_9th: fld11,
            resref_of_creature_to_spawn_10th: fld12,
            count_of_spawn_creatures: fld13,
            base_creature_number_to_spawn: fld14,
            frequency: fld15,
            spawn_method: fld16,
            actor_removal_timer: fld17,
            movement_restriction_distance: fld18,
            movement_restriction_distance_move_to_object: fld19,
            maximum_creatures_to_spawn: fld20,
            spawn_point_enabled: fld21,
            spawn_point_appearence_schedule: fld22,
            probability_day: fld23,
            probability_night: fld24,
            spawn_frequency: fld25,
            countdown: fld26,
            spawn_weight_of_1st_creature_slot: fld27,
            spawn_weight_of_2nd_creature_slot: fld28,
            spawn_weight_of_3rd_creature_slot: fld29,
            spawn_weight_of_4th_creature_slot: fld30,
            spawn_weight_of_5th_creature_slot: fld31,
            spawn_weight_of_6th_creature_slot: fld32,
            spawn_weight_of_7th_creature_slot: fld33,
            spawn_weight_of_8th_creature_slot: fld34,
            spawn_weight_of_9th_creature_slot: fld35,
            spawn_weight_of_10th_creature_slot: fld36,
            _unused: fld37,
        };
        proof {
            lemma_subrange_concat(buf@, pos + 0, pos + 130, pos + 200);
            lemma_subrange_concat(buf@, pos + 0, pos + 84, pos + 130);
            lemma_subrange_concat(buf@, pos + 0, pos + 44, pos + 84);
            lemma_subrange_concat(buf@, pos + 0, pos + 34, pos + 44);
            lemma_subrange_concat(buf@, pos + 0, pos + 32, pos + 34);
            lemma_subrange_concat(buf@, pos + 34, pos + 36, pos + 44);
            lemma_subrange_concat(buf@, pos + 44, pos + 60, pos + 84);
            lemma_subrange_concat(buf@, pos + 44, pos + 52, pos + 60);
            lemma_subrange_concat(buf@, pos + 60, pos + 68, pos + 84);
            lemma_subrange_concat(buf@, pos + 68, pos + 76, pos + 84);
            lemma_subrange_concat(buf@, pos + 84, pos + 118, pos + 130);
            lemma_subrange_concat(buf@, pos + 84, pos + 100, pos + 118);
            lemma_subrange_concat(buf@, pos + 84, pos + 92, pos + 100);
            lemma_subrange_concat(buf@, pos + 100, pos + 108, pos + 118);
            lemma_subrange_concat(buf@, pos + 108, pos + 116, pos + 118);
            lemma_subrange_concat(buf@, pos + 118, pos + 122, pos + 130);
            lemma_subrange_concat(buf@, pos + 118, pos + 120, pos + 122);
            lemma_subrange_concat(buf@, pos + 122, pos + 124, pos + 130);
            lemma_subrange_concat(buf@, pos + 124, pos + 128, pos + 130);
            lemma_subrange_concat(buf@, pos + 130, pos + 153, pos + 200);
            lemma_subrange_concat(buf@, pos + 130, pos + 140, pos + 153);
            lemma_subrange_concat(buf@, pos + 130, pos + 134, pos + 140);
            lemma_subrange_concat(buf@, pos + 130, pos + 132, pos + 134);
            lemma_subrange_concat(buf@, pos + 134, pos + 136, pos + 140);
            lemma_subrange_concat(buf@, pos + 140, pos + 144, pos + 153);
            lemma_subrange_concat(buf@, pos + 140, pos + 142, pos + 144);
            lemma_subrange_concat(buf@, pos + 144, pos + 148, pos + 153);
            lemma_subrange_concat(buf@, pos + 148, pos + 152, pos + 153);
            lemma_subrange_concat(buf@, pos + 153, pos + 158, pos + 200);
            lemma_subrange_concat(buf@, pos + 153, pos + 155, pos + 158);
            lemma_subrange_concat(buf@, pos + 153, pos + 154, pos + 155);
            lemma_subrange_concat(buf@, pos + 155, pos + 156, pos + 158);
            lemma_subrange_concat(buf@, pos + 156, pos + 157, pos + 158);
            lemma_subrange_concat(buf@, pos + 158, pos + 160, pos + 200);
            lemma_subrange_concat(buf@, pos + 158, pos + 159, pos + 160);
            lemma_subrange_concat(buf@, pos + 160, pos + 161, pos + 200);
            lemma_subrange_concat(buf@, pos + 161, pos + 162, pos + 200);
        }
        v
    }

    fn encode(&self, out: &mut Vec<u8>) {
        let mut b0 = encoded(&self.name);
        let mut b1 = encoded(&self.x_coordinate);
        let mut b2 = encoded(&self.y_coordinate);
        let mut b3 = encoded(&self.resref_of_creature_to_spawn_1st);
        let mut b4 = encoded(&self.resref_of_creature_to_spawn_2nd);
        let mut b5 = encoded(&self.resref_of_creature_to_spawn_3rd);
        let mut b6 = encoded(&self.resref_of_creature_to_spawn_4th);
        let mut b7 = encoded(&self.resref_of_creature_to_spawn_5th);
        let mut b8 = encoded(&self.resref_of_creature_to_spawn_6th);
        let mut b9 = encoded(&self.resref_of_creature_to_spawn_7th);
        let mut b10 = encoded(&self.resref_of_creature_to_spawn_8th);
        let mut b11 = encoded(&self.resref_of_creature_to_spawn_9th);
        let mut b12 = encoded(&self.resref_of_creature_to_spawn_10th);
        let mut b13 = encoded(&self.count_of_spawn_creatures);
        let mut b14 = encoded(&self.base_creature_number_to_spawn);
        let mut b15 = encoded(&self.frequency);
        let mut b16 = encoded(&self.spawn_method);
        let mut b17 = encoded(&self.actor_removal_timer);
        let mut b18 = encoded(&self.movement_restriction_distance);
        let mut b19 = encoded(&self.movement_restriction_distance_move_to_object);
        let mut b20 = encoded(&self.maximum_creatures_to_spawn);
        let mut b21 = encoded(&self.spawn_point_enabled);
        let mut b22 = encoded(&self.spawn_point_appearence_schedule);
        let mut b23 = encoded(&self.probability_day);
        let mut b24 = encoded(&self.probability_night);
        let mut b25 = encoded(&self.spawn_frequency);
        let mut b26 = encoded(&self.countdown);
        let mut b27 = encoded(&self.spawn_weight_of_1st_creature_slot);
        let mut b28 = encoded(&self.spawn_weight_of_2nd_creature_slot);
        let mut b29 = encoded(&self.spawn_weight_of_3rd_creature_slot);
        let mut b30 = encoded(&self.spawn_weight_of_4th_creature_slot);
        let mut b31 = encoded(&self.spawn_weight_of_5th_creature_slot);
        let mut b32 = encoded(&self.spawn_weight_of_6th_creature_slot);
        let mut b33 = encoded(&self.spawn_weight_of_7th_creature_slot);
        let mut b34 = encoded(&self.spawn_weight_of_8th_creature_slot);
        let mut b35 = encoded(&self.spawn_weight_of_9th_creature_slot);
        let mut b36 = encoded(&self.spawn_weight_of_10th_creature_slot);
        let mut b37 = encoded_slice(self._unused.as_slice());
        b36.append(&mut b37);
        b35.append(&mut b36);
        b33.append(&mut b34);
        b33.append(&mut b35);
        b31.append(&mut b32);
        b30.append(&mut b31);
        b28.append(&mut b29);
        b28.append(&mut b30);
        b28.append(&mut b33);
        b26.append(&mut b27);
        b25.append(&mut b26);
        b23.append(&mut b24);
        b23.append(&mut b25);
        b21.append(&mut b22);
        b19.append(&mut b20);
        b19.append(&mut b21);
        b19.append(&mut b23);
        b19.append(&mut b28);
        b17.append(&mut b18);
        b16.append(&mut b17);
        b14.append(&mut b15);
        b14.append(&mut b16);
        b12.append(&mut b13);
        b11.append(&mut b12);
        b9.append(&mut b10);
        b9.append(&mut b11);
        b9.append(&mut b14);
        b7.append(&mut b8);
        b6.append(&mut b7);
        b4.append(&mut b5);
        b4.append(&mut b6);
        b2.append(&mut b3);
        b0.append(&mut b1);
        b0.append(&mut b2);
        b0.append(&mut b4);
        b0.append(&mut b9);
        b0.append(&mut b19);
        out.append(&mut b0);
    }
}

/// https://gibberlings3.github.io/iesdp/file_formats/ie_formats/are_v1.htm#formAREAV1_0_Entrance
#[derive(Debug, Clone, PartialEq)]
pub struct Entrance {
    pub name: CharArray<32>,
    pub x_coordinate: u16,
    pub y_coordinate: u16,
    pub orientation: u16,
    pub _unused: Vec<u8>,
}

impl Entrance {
    /// Encoding of the fields 0 to 4, in order.
    pub open spec fn bytes_0_5(&self) -> Seq<u8> {
        self.bytes_0_2() + self.bytes_2_5()
    }

    /// Encoding of the fields 0 to 1, in order.
    pub open spec fn bytes_0_2(&self) -> Seq<u8> {
        self.name.enc() + self.x_coordinate.enc()
    }

    /// Encoding of the fields 2 to 4, in order.
    pub open spec fn bytes_2_5(&self) -> Seq<u8> {
        self.y_coordinate.enc() + self.bytes_3_5()
    }

    /// Encoding of the fields 3 to 4, in order.
    pub open spec fn bytes_3_5(&self) -> Seq<u8> {
        self.orientation.enc() + enc_seq(self._unused@)
    }
}

impl Codec for Entrance {
    open spec fn width() -> nat {
        104
    }

    open spec fn enc(&self) -> Seq<u8> {
        self.bytes_0_5()
    }

    open spec fn wf(&self) -> bool {
        &&& self._unused@.len() == 66
        &&& all_wf(self._unused@)
    }

    open spec fn same(&self, other: &Self) -> bool {
        &&& self.name.same(&other.name)
        &&& self.x_coordinate == other.x_coordinate
        &&& self.y_coordinate == other.y_coordinate
        &&& self.orientation == other.orientation
        &&& seq_same(self._unused@, other._unused@)
    }

    fn byte_width() -> (n: usize) {
        104
    }

    fn check_wf(&self) -> (b: bool) {
        self._unused.len() == 66 && check_all_wf(self._unused.as_slice())
    }

    proof fn lemma_enc_len(&self) {
        self.name.lemma_enc_len();
        self.x_coordinate.lemma_enc_len();
        self.y_coordinate.lemma_enc_len();
        self.orientation.lemma_enc_len();
        lemma_enc_seq_len(self._unused@);
    }

    proof fn lemma_enc_injective(&self, other: &Self) {
        self.name.lemma_enc_len();
        self.x_coordinate.lemma_enc_len();
        self.y_coordinate.lemma_enc_len();
        self.orientation.lemma_enc_len();
        lemma_enc_seq_len(self._unused@);
        other.name.lemma_enc_len();
        other.x_coordinate.lemma_enc_len();
        other.y_coordinate.lemma_enc_len();
        other.orientation.lemma_enc_len();
        lemma_enc_seq_len(other._unused@);
        lemma_concat_peel(self.bytes_0_2(), self.bytes_2_5(), other.bytes_0_2(), other.bytes_2_5());
        lemma_concat_peel(self.name.enc(), self.x_coordinate.enc(), other.name.enc(), other.x_coordinate.enc());
        lemma_concat_peel(self.y_coordinate.enc(), self.bytes_3_5(), other.y_coordinate.enc(), other.bytes_3_5());
        lemma_concat_peel(self.orientation.enc(), enc_seq(self._unused@), other.orientation.enc(), enc_seq(other._unused@));
        self.name.lemma_enc_injective(&other.name);
        self.x_coordinate.lemma_enc_injective(&other.x_coordinate);
        self.y_coordinate.lemma_enc_injective(&other.y_coordinate);
        self.orientation.lemma_enc_injective(&other.orientation);
        lemma_enc_seq_injective(self._unused@, other._unused@);
    }

    fn decode(buf: &[u8], pos: usize) -> (v: Self) {
        let len = buf.len();
        let fld0 = <CharArray<32>>::decode(buf, pos + 0);
        let fld1 = u16::decode(buf, pos + 32);
        let fld2 = u16::decode(buf, pos + 34);
        let fld3 = u16::decode(buf, pos + 36);
        let fld4 = decode_vec::<u8>(buf, pos + 38, 66);
        let v = Entrance {
            name: fld0,
            x_coordinate: fld1,
            y_coordinate: fld2,
            orientation: fld3,
            _unused: fld4,
        };
        proof {
            lemma_subrange_concat(buf@, pos + 0, pos + 34, pos + 104);
            lemma_subrange_concat(buf@, pos + 0, pos + 32, pos + 34);
            lemma_subrange_concat(buf@, pos + 34, pos + 36, pos + 104);
            lemma_subrange_concat(buf@, pos + 36, pos + 38, pos + 104);
        }
        v
    }

    fn encode(&self, out: &mut Vec<u8>) {
        let mut b0 = encoded(&self.name);
        let mut b1 = encoded(&self.x_coordinate);
        let mut b2 = encoded(&self.y_coordinate);
        let mut b3 = encoded(&self.orientation);
        let mut b4 = encoded_slice(self._unused.as_slice());
        b3.append(&mut b4);
        b2.append(&mut b3);
        b0.append(&mut b1);
        b0.append(&mut b2);
        out.append(&mut b0);
    }
}

/// https://gibberlings3.github.io/iesdp/file_formats/ie_formats/are_v1.htm#formAREAV1_0_Container
#[derive(Debug, Clone, PartialEq)]
pub struct Container {
    pub name: CharArray<32>,
    pub x_coordinate: u16,
    pub y_coordinate: u16,
    pub container_type: u16,
    pub lock_difficulty: u16,
    pub flags: u32,
    pub trap_detection_difficulty: u16,
    pub trap_removal_difficulty: u16,
    /// 0=no, 1=yes
    pub container_is_trapped: u16,
    /// 0=no, 1=yes
    pub trap_detected: u16,
    pub trap_launch_x_coordinate: u16,
    pub trap_launch_y_coordinate: u16,
    pub left_bounding_box_of_container_polygon: u16,
    pub top_bounding_box_of_container_polygon: u16,
    pub right_bounding_box_of_container_polygon: u16,
    pub bottom_bounding_box_of_container_polygon: u16,
    pub index_to_first_item_in_this_container: u32,
    pub count_of_items_in_this_container: u32,
    pub trap_script: Resref,
    pub index_to_first_vertex_of_the_outline: u32,
    pub count_of_vertices_making_up_the_outline: u16,
    pub trigger_range: u16,
    pub owner_script_name: CharArray<32>,
    pub key_item: Resref,
    pub break_difficulty: u32,
    pub lockpick_string: Strref,
    pub _unused: Vec<u8>,
}

impl Container {
    /// Encoding of the fields 0 to 26, in order.
    pub open spec fn bytes_0_27(&self) -> Seq<u8> {
        self.bytes_0_13() + self.bytes_13_27()
    }

    /// Encoding of the fields 0 to 12, in order.
    pub open spec fn bytes_0_13(&self) -> Seq<u8> {
        self.bytes_0_6() + self.bytes_6_13()
    }

    /// Encoding of the fields 0 to 5, in order.
    pub open spec fn bytes_0_6(&self) -> Seq<u8> {
        self.bytes_0_3() + self.bytes_3_6()
    }

    /// Encoding of the fields 0 to 2, in order.
    pub open spec fn bytes_0_3(&self) -> Seq<u8> {
        self.name.enc() + self.bytes_1_3()
    }

    /// Encoding of the fields 1 to 2, in order.
    pub open spec fn bytes_1_3(&self) -> Seq<u8> {
        self.x_coordinate.enc() + self.y_coordinate.enc()
    }

    /// Encoding of the fields 3 to 5, in order.
    pub open spec fn bytes_3_6(&self) -> Seq<u8> {
        self.container_type.enc() + self.bytes_4_6()
    }

    /// Encoding of the fields 4 to 5, in order.
    pub open spec fn bytes_4_6(&self) -> Seq<u8> {
        self.lock_difficulty.enc() + self.flags.enc()
    }

    /// Encoding of the fields 6 to 12, in order.
    pub open spec fn bytes_6_13(&self) -> Seq<u8> {
        self.bytes_6_9() + self.bytes_9_13()
    }

    /// Encoding of the fields 6 to 8, in order.
    pub open spec fn bytes_6_9(&self) -> Seq<u8> {
        self.trap_detection_difficulty.enc() + self.bytes_7_9()
    }

    /// Encoding of the fields 7 to 8, in order.
    pub open spec fn bytes_7_9(&self) -> Seq<u8> {
        self.trap_removal_difficulty.enc() + self.container_is_trapped.enc()
    }

    /// Encoding of the fields 9 to 12, in order.
    pub open spec fn bytes_9_13(&self) -> Seq<u8> {
        self.bytes_9_11() + self.bytes_11_13()
    }

    /// Encoding of the fields 9 to 10, in order.
    pub open spec fn bytes_9_11(&self) -> Seq<u8> {
        self.trap_detected.enc() + self.trap_launch_x_coordinate.enc()
    }

    /// Encoding of the fields 11 to 12, in order.
    pub open spec fn bytes_11_13(&self) -> Seq<u8> {
        self.trap_launch_y_coordinate.enc() + self.left_bounding_box_of_container_polygon.enc()
    }

    /// Encoding of the fields 13 to 26, in order.
    pub open spec fn bytes_13_27(&self) -> Seq<u8> {
        self.bytes_13_20() + self.bytes_20_27()
    }

    /// Encoding of the fields 13 to 19, in order.
    pub open spec fn bytes_13_20(&self) -> Seq<u8> {
        self.bytes_13_16() + self.bytes_16_20()
    }

    /// Encoding of the fields 13 to 15, in order.
    pub open spec fn bytes_13_16(&self) -> Seq<u8> {
        self.top_bounding_box_of_container_polygon.enc() + self.bytes_14_16()
    }

    /// Encoding of the fields 14 to 15, in order.
    pub open spec fn bytes_14_16(&self) -> Seq<u8> {
        self.right_bounding_box_of_container_polygon.enc() + self.bottom_bounding_box_of_container_polygon.enc()
    }

    /// Encoding of the fields 16 to 19, in order.
    pub open spec fn bytes_16_20(&self) -> Seq<u8> {
        self.bytes_16_18() + self.bytes_18_20()
    }

    /// Encoding of the fields 16 to 17, in order.
    pub open spec fn bytes_16_18(&self) -> Seq<u8> {
        self.index_to_first_item_in_this_container.enc() + self.count_of_items_in_this_container.enc()
    }

    /// Encoding of the fields 18 to 19, in order.
    pub open spec fn bytes_18_20(&self) -> Seq<u8> {
        self.trap_script.enc() + self.index_to_first_vertex_of_the_outline.enc()
    }

    /// Encoding of the fields 20 to 26, in order.
    pub open spec fn bytes_20_27(&self) -> Seq<u8> {
        self.bytes_20_23() + self.bytes_23_27()
    }

    /// Encoding of the fields 20 to 22, in order.
    pub open spec fn bytes_20_23(&self) -> Seq<u8> {
        self.count_of_vertices_making_up_the_outline.enc() + self.bytes_21_23()
    }

    /// Encoding of the fields 21 to 22, in order.
    pub open spec fn bytes_21_23(&self) -> Seq<u8> {
        self.trigger_range.enc() + self.owner_script_name.enc()
    }

    /// Encoding of the fields 23 to 26, in order.
    pub open spec fn bytes_23_27(&self) -> Seq<u8> {
        self.bytes_23_25() + self.bytes_25_27()
    }

    /// Encoding of the fields 23 to 24, in order.
    pub open spec fn bytes_23_25(&self) -> Seq<u8> {
        self.key_item.enc() + self.break_difficulty.enc()
    }

    /// Encoding of the fields 25 to 26, in order.
    pub open spec fn bytes_25_27(&self) -> Seq<u8> {
        self.lockpick_string.enc() + enc_seq(self._unused@)
    }
}

impl Codec for Container {
    open spec fn width() -> nat {
        192
    }

    open spec fn enc(&self) -> Seq<u8> {
        self.bytes_0_27()
    }

    open spec fn wf(&self) -> bool {
        &&& self._unused@.len() == 56
        &&& all_wf(self._unused@)
    }

    open spec fn same(&self, other: &Self) -> bool {
        &&& self.name.same(&other.name)
        &&& self.x_coordinate == other.x_coordinate
        &&& self.y_coordinate == other.y_coordinate
        &&& self.container_type == other.container_type
        &&& self.lock_difficulty == other.lock_difficulty
        &&& self.flags == other.flags
        &&& self.trap_detection_difficulty == other.trap_detection_difficulty
        &&& self.trap_removal_difficulty == other.trap_removal_difficulty
        &&& self.container_is_trapped == other.container_is_trapped
        &&& self.trap_detected == other.trap_detected
        &&& self.trap_launch_x_coordinate == other.trap_launch_x_coordinate
        &&& self.trap_launch_y_coordinate == other.trap_launch_y_coordinate
        &&& self.left_bounding_box_of_container_polygon == other.left_bounding_box_of_container_polygon
        &&& self.top_bounding_box_of_container_polygon == other.top_bounding_box_of_container_polygon
        &&& self.right_bounding_box_of_container_polygon == other.right_bounding_box_of_container_polygon
        &&& self.bottom_bounding_box_of_container_polygon == other.bottom_bounding_box_of_container_polygon
        &&& self.index_to_first_item_in_this_container == other.index_to_first_item_in_this_container
        &&& self.count_of_items_in_this_container == other.count_of_items_in_this_container
        &&& self.trap_script.same(&other.trap_script)
        &&& self.index_to_first_vertex_of_the_outline == other.index_to_first_vertex_of_the_outline
        &&& self.count_of_vertices_making_up_the_outline == other.count_of_vertices_making_up_the_outline
        &&& self.trigger_range == other.trigger_range
        &&& self.owner_script_name.same(&other.owner_script_name)
        &&& self.key_item.same(&other.key_item)
        &&& self.break_difficulty == other.break_difficulty
        &&& self.lockpick_string.same(&other.lockpick_string)
        &&& seq_same(self._unused@, other._unused@)
    }

    fn byte_width() -> (n: usize) {
        192
    }

    fn check_wf(&self) -> (b: bool) {
        self._unused.len() == 56 && check_all_wf(self._unused.as_slice())
    }

    proof fn lemma_enc_len(&self) {
        self.name.lemma_enc_len();
        self.x_coordinate.lemma_enc_len();
        self.y_coordinate.lemma_enc_len();
        self.container_type.lemma_enc_len();
        self.lock_difficulty.lemma_enc_len();
        self.flags.lemma_enc_len();
        self.trap_detection_difficulty.lemma_enc_len();
        self.trap_removal_difficulty.lemma_enc_len();
        self.container_is_trapped.lemma_enc_len();
        self.trap_detected.lemma_enc_len();
        self.trap_launch_x_coordinate.lemma_enc_len();
        self.trap_launch_y_coordinate.lemma_enc_len();
        self.left_bounding_box_of_container_polygon.lemma_enc_len();
        self.top_bounding_box_of_container_polygon.lemma_enc_len();
        self.right_bounding_box_of_container_polygon.lemma_enc_len();
        self.bottom_bounding_box_of_container_polygon.lemma_enc_len();
        self.index_to_first_item_in_this_container.lemma_enc_len();
        self.count_of_items_in_this_container.lemma_enc_len();
        self.trap_script.lemma_enc_len();
        self.index_to_first_vertex_of_the_outline.lemma_enc_len();
        self.count_of_vertices_making_up_the_outline.lemma_enc_len();
        self.trigger_range.lemma_enc_len();
        self.owner_script_name.lemma_enc_len();
        self.key_item.lemma_enc_len();
        self.break_difficulty.lemma_enc_len();
        self.lockpick_string.lemma_enc_len();
        lemma_enc_seq_len(self._unused@);
    }

    proof fn lemma_enc_injective(&self, other: &Self) {
        self.name.lemma_enc_len();
        self.x_coordinate.lemma_enc_len();
        self.y_coordinate.lemma_enc_len();
        self.container_type.lemma_enc_len();
        self.lock_difficulty.lemma_enc_len();
        self.flags.lemma_enc_len();
        self.trap_detection_difficulty.lemma_enc_len();
        self.trap_removal_difficulty.lemma_enc_len();
        self.container_is_trapped.lemma_enc_len();
        self.trap_detected.lemma_enc_len();
        self.trap_launch_x_coordinate.lemma_enc_len();
        self.trap_launch_y_coordinate.lemma_enc_len();
        self.left_bounding_box_of_container_polygon.lemma_enc_len();
        self.top_bounding_box_of_container_polygon.lemma_enc_len();
        self.right_bounding_box_of_container_polygon.lemma_enc_len();
        self.bottom_bounding_box_of_container_polygon.lemma_enc_len();
        self.index_to_first_item_in_this_container.lemma_enc_len();
        self.count_of_items_in_this_container.lemma_enc_len();
        self.trap_script.lemma_enc_len();
        self.index_to_first_vertex_of_the_outline.lemma_enc_len();
        self.count_of_vertices_making_up_the_outline.lemma_enc_len();
        self.trigger_range.lemma_enc_len();
        self.owner_script_name.lemma_enc_len();
        self.key_item.lemma_enc_len();
        self.break_difficulty.lemma_enc_len();
        self.lockpick_string.lemma_enc_len();
        lemma_enc_seq_len(self._unused@);
        other.name.lemma_enc_len();
        other.x_coordinate.lemma_enc_len();
        other.y_coordinate.lemma_enc_len();
        other.container_type.lemma_enc_len();
        other.lock_difficulty.lemma_enc_len();
        other.flags.lemma_enc_len();
        other.trap_detection_difficulty.lemma_enc_len();
        other.trap_removal_difficulty.lemma_enc_len();
        other.container_is_trapped.lemma_enc_len();
        other.trap_detected.lemma_enc_len();
        other.trap_launch_x_coordinate.lemma_enc_len();
        other.trap_launch_y_coordinate.lemma_enc_len();
        other.left_bounding_box_of_container_polygon.lemma_enc_len();
        other.top_bounding_box_of_container_polygon.lemma_enc_len();
        other.right_bounding_box_of_container_polygon.lemma_enc_len();
        other.bottom_bounding_box_of_container_polygon.lemma_enc_len();
        other.index_to_first_item_in_this_container.lemma_enc_len();
        other.count_of_items_in_this_container.lemma_enc_len();
        other.trap_script.lemma_enc_len();
        other.index_to_first_vertex_of_the_outline.lemma_enc_len();
        other.count_of_vertices_making_up_the_outline.lemma_enc_len();
        other.trigger_range.lemma_enc_len();
        other.owner_script_name.lemma_enc_len();
        other.key_item.lemma_enc_len();
        other.break_difficulty.lemma_enc_len();
        other.lockpick_string.lemma_enc_len();
        lemma_enc_seq_len(other._unused@);
        lemma_concat_peel(self.bytes_0_13(), self.bytes_13_27(), other.bytes_0_13(), other.bytes_13_27());
        lemma_concat_peel(self.bytes_0_6(), self.bytes_6_13(), other.bytes_0_6(), other.bytes_6_13());
        lemma_concat_peel(self.bytes_0_3(), self.bytes_3_6(), other.bytes_0_3(), other.bytes_3_6());
        lemma_concat_peel(self.name.enc(), self.bytes_1_3(), other.name.enc(), other.bytes_1_3());
        lemma_concat_peel(self.x_coordinate.enc(), self.y_coordinate.enc(), other.x_coordinate.enc(), other.y_coordinate.enc());
        lemma_concat_peel(self.container_type.enc(), self.bytes_4_6(), other.container_type.enc(), other.bytes_4_6());
        lemma_concat_peel(self.lock_difficulty.enc(), self.flags.enc(), other.lock_difficulty.enc(), other.flags.enc());
        lemma_concat_peel(self.bytes_6_9(), self.bytes_9_13(), other.bytes_6_9(), other.bytes_9_13());
        lemma_concat_peel(self.trap_detection_difficulty.enc(), self.bytes_7_9(), other.trap_detection_difficulty.enc(), other.bytes_7_9());
        lemma_concat_peel(self.trap_removal_difficulty.enc(), self.container_is_trapped.enc(), other.trap_removal_difficulty.enc(), other.container_is_trapped.enc());
        lemma_concat_peel(self.bytes_9_11(), self.bytes_11_13(), other.bytes_9_11(), other.bytes_11_13());
        lemma_concat_peel(self.trap_detected.enc(), self.trap_launch_x_coordinate.enc(), other.trap_detected.enc(), other.trap_launch_x_coordinate.enc());
        lemma_concat_peel(self.trap_launch_y_coordinate.enc(), self.left_bounding_box_of_container_polygon.enc(), other.trap_launch_y_coordinate.enc(), other.left_bounding_box_of_container_polygon.enc());
        lemma_concat_peel(self.bytes_13_20(), self.bytes_20_27(), other.bytes_13_20(), other.bytes_20_27());
        lemma_concat_peel(self.bytes_13_16(), self.bytes_16_20(), other.bytes_13_16(), other.bytes_16_20());
        lemma_concat_peel(self.top_bounding_box_of_container_polygon.enc(), self.bytes_14_16(), other.top_bounding_box_of_container_polygon.enc(), other.bytes_14_16());
        lemma_concat_peel(self.right_bounding_box_of_container_polygon.enc(), self.bottom_bounding_box_of_container_polygon.enc(), other.right_bounding_box_of_container_polygon.enc(), other.bottom_bounding_box_of_container_polygon.enc());
        lemma_concat_peel(self.bytes_16_18(), self.bytes_18_20(), other.bytes_16_18(), other.bytes_18_20());
        lemma_concat_peel(self.index_to_first_item_in_this_container.enc(), self.count_of_items_in_this_container.enc(), other.index_to_first_item_in_this_container.enc(), other.count_of_items_in_this_container.enc());
        lemma_concat_peel(self.trap_script.enc(), self.index_to_first_vertex_of_the_outline.enc(), other.trap_script.enc(), other.index_to_first_vertex_of_the_outline.enc());
        lemma_concat_peel(self.bytes_20_23(), self.bytes_23_27(), other.bytes_20_23(), other.bytes_23_27());
        lemma_concat_peel(self.count_of_vertices_making_up_the_outline.enc(), self.bytes_21_23(), other.count_of_vertices_making_up_the_outline.enc(), other.bytes_21_23());
        lemma_concat_peel(self.trigger_range.enc(), self.owner_script_name.enc(), other.trigger_range.enc(), other.owner_script_name.enc());
        lemma_concat_peel(self.bytes_23_25(), self.bytes_25_27(), other.bytes_23_25(), other.bytes_25_27());
        lemma_concat_peel(self.key_item.enc(), self.break_difficulty.enc(), other.key_item.enc(), other.break_difficulty.enc());
        lemma_concat_peel(self.lockpick_string.enc(), enc_seq(self._unused@), other.lockpick_string.enc(), enc_seq(other._unused@));
        self.name.lemma_enc_injective(&other.name);
        self.x_coordinate.lemma_enc_injective(&other.x_coordinate);
        self.y_coordinate.lemma_enc_injective(&other.y_coordinate);
        self.container_type.lemma_enc_injective(&other.container_type);
        self.lock_difficulty.lemma_enc_injective(&other.lock_difficulty);
        self.flags.lemma_enc_injective(&other.flags);
        self.trap_detection_difficulty.lemma_enc_injective(&other.trap_detection_difficulty);
        self.trap_removal_difficulty.lemma_enc_injective(&other.trap_removal_difficulty);
        self.container_is_trapped.lemma_enc_injective(&other.container_is_trapped);
        self.trap_detected.lemma_enc_injective(&other.trap_detected);
        self.trap_launch_x_coordinate.lemma_enc_injective(&other.trap_launch_x_coordinate);
        self.trap_launch_y_coordinate.lemma_enc_injective(&other.trap_launch_y_coordinate);
        self.left_bounding_box_of_container_polygon.lemma_enc_injective(&other.left_bounding_box_of_container_polygon);
        self.top_bounding_box_of_container_polygon.lemma_enc_injective(&other.top_bounding_box_of_container_polygon);
        self.right_bounding_box_of_container_polygon.lemma_enc_injective(&other.right_bounding_box_of_container_polygon);
        self.bottom_bounding_box_of_container_polygon.lemma_enc_injective(&other.bottom_bounding_box_of_container_polygon);
        self.index_to_first_item_in_this_container.lemma_enc_injective(&other.index_to_first_item_in_this_container);
        self.count_of_items_in_this_container.lemma_enc_injective(&other.count_of_items_in_this_container);
        self.trap_script.lemma_enc_injective(&other.trap_script);
        self.index_to_first_vertex_of_the_outline.lemma_enc_injective(&other.index_to_first_vertex_of_the_outline);
        self.count_of_vertices_making_up_the_outline.lemma_enc_injective(&other.count_of_vertices_making_up_the_outline);
        self.trigger_range.lemma_enc_injective(&other.trigger_range);
        self.owner_script_name.lemma_enc_injective(&other.owner_script_name);
        self.key_item.lemma_enc_injective(&other.key_item);
        self.break_difficulty.lemma_enc_injective(&other.break_difficulty);
        self.lockpick_string.lemma_enc_injective(&other.lockpick_string);
        lemma_enc_seq_injective(self._unused@, other._unused@);
    }

    fn decode(buf: &[u8], pos: usize) -> (v: Self) {
        let len = buf.len();
        let fld0 = <CharArray<32>>::decode(buf, pos + 0);
        let fld1 = u16::decode(buf, pos + 32);
        let fld2 = u16::decode(buf, pos + 34);
        let fld3 = u16::decode(buf, pos + 36);
        let fld4 = u16::decode(buf, pos + 38);
        let fld5 = u32::decode(buf, pos + 40);
        let fld6 = u16::decode(buf, pos + 44);
        let fld7 = u16::decode(buf, pos + 46);
        let fld8 = u16::decode(buf, pos + 48);
        let fld9 = u16::decode(buf, pos + 50);
        let fld10 = u16::decode(buf, pos + 52);
        let fld11 = u16::decode(buf, pos + 54);
        let fld12 = u16::decode(buf, pos + 56);
        let fld13 = u16::decode(buf, pos + 58);
        let fld14 = u16::decode(buf, pos + 60);
        let fld15 = u16::decode(buf, pos + 62);
        let fld16 = u32::decode(buf, pos + 64);
        let fld17 = u32::decode(buf, pos + 68);
        let fld18 = Resref::decode(buf, pos + 72);
        let fld19 = u32::decode(buf, pos + 80);
        let fld20 = u16::decode(buf, pos + 84);
        let fld21 = u16::decode(buf, pos + 86);
        let fld22 = <CharArray<32>>::decode(buf, pos + 88);
        let fld23 = Resref::decode(buf, pos + 120);
        let fld24 = u32::decode(buf, pos + 128);
        let fld25 = Strref::decode(buf, pos + 132);
        let fld26 = decode_vec::<u8>(buf, pos + 136, 56);
        let v = Container {
            name: fld0,
            x_coordinate: fld1,
            y_coordinate: fld2,
            container_type: fld3,
            lock_difficulty: fld4,
            flags: fld5,
            trap_detection_difficulty: fld6,
            trap_removal_difficulty: fld7,
            container_is_trapped: fld8,
            trap_detected: fld9,
            trap_launch_x_coordinate: fld10,
            trap_launch_y_coordinate: fld11,
            left_bounding_box_of_container_polygon: fld12,
            top_bounding_box_of_container_polygon: fld13,
            right_bounding_box_of_container_polygon: fld14,
            bottom_bounding_box_of_container_polygon: fld15,
            index_to_first_item_in_this_container: fld16,
            count_of_items_in_this_container: fld17,
            trap_script: fld18,
            index_to_first_vertex_of_the_outline: fld19,
            count_of_vertices_making_up_the_outline: fld20,
            trigger_range: fld21,
            owner_script_name: fld22,
            key_item: fld23,
            break_difficulty: fld24,
            lockpick_string: fld25,
            _unused: fld26,
        };
        proof {
            lemma_subrange_concat(buf@, pos + 0, pos + 58, pos + 192);
            lemma_subrange_concat(buf@, pos + 0, pos + 44, pos + 58);
            lemma_subrange_concat(buf@, pos + 0, pos + 36, pos + 44);
            lemma_subrange_concat(buf@, pos + 0, pos + 32, pos + 36);
            lemma_subrange_concat(buf@, pos + 32, pos + 34, pos + 36);
            lemma_subrange_concat(buf@, pos + 36, pos + 38, pos + 44);
            lemma_subrange_concat(buf@, pos + 38, pos + 40, pos + 44);
            lemma_subrange_concat(buf@, pos + 44, pos + 50, pos + 58);
            lemma_subrange_concat(buf@, pos + 44, pos + 46, pos + 50);
            lemma_subrange_concat(buf@, pos + 46, pos + 48, pos + 50);
            lemma_subrange_concat(buf@, pos + 50, pos + 54, pos + 58);
            lemma_subrange_concat(buf@, pos + 50, pos + 52, pos + 54);
            lemma_subrange_concat(buf@, pos + 54, pos + 56, pos + 58);
            lemma_subrange_concat(buf@, pos + 58, pos + 84, pos + 192);
            lemma_subrange_concat(buf@, pos + 58, pos + 64, pos + 84);
            lemma_subrange_concat(buf@, pos + 58, pos + 60, pos + 64);
            lemma_subrange_concat(buf@, pos + 60, pos + 62, pos + 64);
            lemma_subrange_concat(buf@, pos + 64, pos + 72, pos + 84);
            lemma_subrange_concat(buf@, pos + 64, pos + 68, pos + 72);
            lemma_subrange_concat(buf@, pos + 72, pos + 80, pos + 84);
            lemma_subrange_concat(buf@, pos + 84, pos + 120, pos + 192);
            lemma_subrange_concat(buf@, pos + 84, pos + 86, pos + 120);
            lemma_subrange_concat(buf@, pos + 86, pos + 88, pos + 120);
            lemma_subrange_concat(buf@, pos + 120, pos + 132, pos + 192);
            lemma_subrange_concat(buf@, pos + 120, pos + 128, pos + 132);
            lemma_subrange_concat(buf@, pos + 132, pos + 136, pos + 192);
        }
        v
    }

    fn encode(&self, out: &mut Vec<u8>) {
        let mut b0 = encoded(&self.name);
        let mut b1 = encoded(&self.x_coordinate);
        let mut b2 = encoded(&self.y_coordinate);
        let mut b3 = encoded(&self.container_type);
        let mut b4 = encoded(&self.lock_difficulty);
        let mut b5 = encoded(&self.flags);
        let mut b6 = encoded(&self.trap_detection_difficulty);
        let mut b7 = encoded(&self.trap_removal_difficulty);
        let mut b8 = encoded(&self.container_is_trapped);
        let mut b9 = encoded(&self.trap_detected);
        let mut b10 = encoded(&self.trap_launch_x_coordinate);
        let mut b11 = encoded(&self.trap_launch_y_coordinate);
        let mut b12 = encoded(&self.left_bounding_box_of_container_polygon);
        let mut b13 = encoded(&self.top_bounding_box_of_container_polygon);
        let mut b14 = encoded(&self.right_bounding_box_of_container_polygon);
        let mut b15 = encoded(&self.bottom_bounding_box_of_container_polygon);
        let mut b16 = encoded(&self.index_to_first_item_in_this_container);
        let mut b17 = encoded(&self.count_of_items_in_this_container);
        let mut b18 = encoded(&self.trap_script);
        let mut b19 = encoded(&self.index_to_first_vertex_of_the_outline);
        let mut b20 = encoded(&self.count_of_vertices_making_up_the_outline);
        let mut b21 = encoded(&self.trigger_range);
        let mut b22 = encoded(&self.owner_script_name);
        let mut b23 = encoded(&self.key_item);
        let mut b24 = encoded(&self.break_difficulty);
        let mut b25 = encoded(&self.lockpick_string);
        let mut b26 = encoded_slice(self._unused.as_slice());
        b25.append(&mut b26);
        b23.append(&mut b24);
        b23.append(&mut b25);
        b21.append(&mut b22);
        b20.append(&mut b21);
        b20.append(&mut b23);
        b18.append(&mut b19);
        b16.append(&mut b17);
        b16.append(&mut b18);
        b14.append(&mut b15);
        b13.append(&mut b14);
        b13.append(&mut b16);
        b13.append(&mut b20);
        b11.append(&mut b12);
        b9.append(&mut b10);
        b9.append(&mut b11);
        b7.append(&mut b8);
        b6.append(&mut b7);
        b6.append(&mut b9);
        b4.append(&mut b5);
        b3.append(&mut b4);
        b1.append(&mut b2);
        b0.append(&mut b1);
        b0.append(&mut b3);
        b0.append(&mut b6);
        b0.append(&mut b13);
        out.append(&mut b0);
    }
}

/// https://gibberlings3.github.io/iesdp/file_formats/ie_formats/are_v1.htm#formAREAV1_0_Item
#[derive(Debug, Clone, PartialEq)]
pub struct Item {
    pub item_resref: Resref,
    pub item_expiration_time: u16,
    pub quantity_1: u16,
    pub quantity_2: u16,
    pub quantity_3: u16,
    pub flags: u32,
}

impl Item {
    /// Encoding of the fields 0 to 5, in order.
    pub open spec fn bytes_0_6(&self) -> Seq<u8> {
        self.bytes_0_3() + self.bytes_3_6()
    }

    /// Encoding of the fields 0 to 2, in order.
    pub open spec fn bytes_0_3(&self) -> Seq<u8> {
        self.item_resref.enc() + self.bytes_1_3()
    }

    /// Encoding of the fields 1 to 2, in order.
    pub open spec fn bytes_1_3(&self) -> Seq<u8> {
        self.item_expiration_time.enc() + self.quantity_1.enc()
    }

    /// Encoding of the fields 3 to 5, in order.
    pub open spec fn bytes_3_6(&self) -> Seq<u8> {
        self.quantity_2.enc() + self.bytes_4_6()
    }

    /// Encoding of the fields 4 to 5, in order.
    pub open spec fn bytes_4_6(&self) -> Seq<u8> {
        self.quantity_3.enc() + self.flags.enc()
    }
}

impl Codec for Item {
    open spec fn width() -> nat {
        20
    }

    open spec fn enc(&self) -> Seq<u8> {
        self.bytes_0_6()
    }

    open spec fn wf(&self) -> bool {
        true
    }

    open spec fn same(&self, other: &Self) -> bool {
        &&& self.item_resref.same(&other.item_resref)
        &&& self.item_expiration_time == other.item_expiration_time
        &&& self.quantity_1 == other.quantity_1
        &&& self.quantity_2 == other.quantity_2
        &&& self.quantity_3 == other.quantity_3
        &&& self.flags == other.flags
    }

    fn byte_width() -> (n: usize) {
        20
    }

    fn check_wf(&self) -> (b: bool) {
        true
    }

    proof fn lemma_enc_len(&self) {
        self.item_resref.lemma_enc_len();
        self.item_expiration_time.lemma_enc_len();
        self.quantity_1.lemma_enc_len();
        self.quantity_2.lemma_enc_len();
        self.quantity_3.lemma_enc_len();
        self.flags.lemma_enc_len();
    }

    proof fn lemma_enc_injective(&self, other: &Self) {
        self.item_resref.lemma_enc_len();
        self.item_expiration_time.lemma_enc_len();
        self.quantity_1.lemma_enc_len();
        self.quantity_2.lemma_enc_len();
        self.quantity_3.lemma_enc_len();
        self.flags.lemma_enc_len();
        other.item_resref.lemma_enc_len();
        other.item_expiration_time.lemma_enc_len();
        other.quantity_1.lemma_enc_len();
        other.quantity_2.lemma_enc_len();
        other.quantity_3.lemma_enc_len();
        other.flags.lemma_enc_len();
        lemma_concat_peel(self.bytes_0_3(), self.bytes_3_6(), other.bytes_0_3(), other.bytes_3_6());
        lemma_concat_peel(self.item_resref.enc(), self.bytes_1_3(), other.item_resref.enc(), other.bytes_1_3());
        lemma_concat_peel(self.item_expiration_time.enc(), self.quantity_1.enc(), other.item_expiration_time.enc(), other.quantity_1.enc());
        lemma_concat_peel(self.quantity_2.enc(), self.bytes_4_6(), other.quantity_2.enc(), other.bytes_4_6());
        lemma_concat_peel(self.quantity_3.enc(), self.flags.enc(), other.quantity_3.enc(), other.flags.enc());
        self.item_resref.lemma_enc_injective(&other.item_resref);
        self.item_expiration_time.lemma_enc_injective(&other.item_expiration_time);
        self.quantity_1.lemma_enc_injective(&other.quantity_1);
        self.quantity_2.lemma_enc_injective(&other.quantity_2);
        self.quantity_3.lemma_enc_injective(&other.quantity_3);
        self.flags.lemma_enc_injective(&other.flags);
    }

    fn decode(buf: &[u8], pos: usize) -> (v: Self) {
        let len = buf.len();
        let fld0 = Resref::decode(buf, pos + 0);
        let fld1 = u16::decode(buf, pos + 8);
        let fld2 = u16::decode(buf, pos + 10);
        let fld3 = u16::decode(buf, pos + 12);
        let fld4 = u16::decode(buf, pos + 14);
        let fld5 = u32::decode(buf, pos + 16);
        let v = Item {
            item_resref: fld0,
            item_expiration_time: fld1,
            quantity_1: fld2,
            quantity_2: fld3,
            quantity_3: fld4,
            flags: fld5,
        };
        proof {
            lemma_subrange_concat(buf@, pos + 0, pos + 12, pos + 20);
            lemma_subrange_concat(buf@, pos + 0, pos + 8, pos + 12);
            lemma_subrange_concat(buf@, pos + 8, pos + 10, pos + 12);
            lemma_subrange_concat(buf@, pos + 12, pos + 14, pos + 20);
            lemma_subrange_concat(buf@, pos + 14, pos + 16, pos + 20);
        }
        v
    }

    fn encode(&self, out: &mut Vec<u8>) {
        let mut b0 = encoded(&self.item_resref);
        let mut b1 = encoded(&self.item_expiration_time);
        let mut b2 = encoded(&self.quantity_1);
        let mut b3 = encoded(&self.quantity_2);
        let mut b4 = encoded(&self.quantity_3);
        let mut b5 = encoded(&self.flags);
        b4.append(&mut b5);
        b3.append(&mut b4);
        b1.append(&mut b2);
        b0.append(&mut b1);
        b0.append(&mut b3);
        out.append(&mut b0);
    }
}

/// An array of points used to create the outlines of regions and containers. Elements are 16-bit words stored x0, y0, x1, y1 etc.
#[derive(Debug, Clone, PartialEq)]
pub struct Vertice(pub [u16; 2]);

impl Codec for Vertice {
    open spec fn width() -> nat {
        4
    }

    open spec fn enc(&self) -> Seq<u8> {
        enc_seq(self.0@)
    }

    open spec fn wf(&self) -> bool {
        all_wf(self.0@)
    }

    open spec fn same(&self, other: &Self) -> bool {
        seq_same(self.0@, other.0@)
    }

    fn byte_width() -> (n: usize) {
        4
    }

    fn check_wf(&self) -> (b: bool) {
        check_all_wf(self.0.as_slice())
    }

    proof fn lemma_enc_len(&self) {
        lemma_enc_seq_len(self.0@);
    }

    proof fn lemma_enc_injective(&self, other: &Self) {
        lemma_enc_seq_len(self.0@);
        lemma_enc_seq_len(other.0@);
        lemma_enc_seq_injective(self.0@, other.0@);
    }

    fn decode(buf: &[u8], pos: usize) -> (v: Self) {
        let len = buf.len();
        let fld0: [u16; 2] = decode_array(buf, pos + 0, 0u16);
        let v = Vertice(fld0);
        v
    }

    fn encode(&self, out: &mut Vec<u8>) {
        let mut b0 = encoded_slice(self.0.as_slice());
        out.append(&mut b0);
    }
}

/// https://gibberlings3.github.io/iesdp/file_formats/ie_formats/are_v1.htm#formAREAV1_0_Ambient
#[derive(Debug, Clone, PartialEq)]
pub struct Ambient {
    pub name: CharArray<32>,
    pub x_coordinate: u16,
    pub y_coordinate: u16,
    pub radius: u16,
    pub height: u16,
    pub pitch_variance: u32,
    pub volume_variance: u16,
    pub volume_percentage: u16,
    pub resref_of_sound_1: Resref,
    pub resref_of_sound_2: Resref,
    pub resref_of_sound_3: Resref,
    pub resref_of_sound_4: Resref,
    pub resref_of_sound_5: Resref,
    pub resref_of_sound_6: Resref,
    pub resref_of_sound_7: Resref,
    pub resref_of_sound_8: Resref,
    pub resref_of_sound_9: Resref,
    pub resref_of_sound_10: Resref,
    pub count_of_sounds: u16,
    pub _unused_1: u16,
    pub base_time_interval: u32,
    pub base_time_deviation: u32,
    pub ambient_appearence_schedule: u32,
    pub flags: u32,
    pub _unused_2: Vec<u8>,
}

impl Ambient {
    /// Encoding of the fields 0 to 24, in order.
    pub open spec fn bytes_0_25(&self) -> Seq<u8> {
        self.bytes_0_12() + self.bytes_12_25()
    }

    /// Encoding of the fields 0 to 11, in order.
    pub open spec fn bytes_0_12(&self) -> Seq<u8> {
        self.bytes_0_6() + self.bytes_6_12()
    }

    /// Encoding of the fields 0 to 5, in order.
    pub open spec fn bytes_0_6(&self) -> Seq<u8> {
        self.bytes_0_3() + self.bytes_3_6()
    }

    /// Encoding of the fields 0 to 2, in order.
    pub open spec fn bytes_0_3(&self) -> Seq<u8> {
        self.name.enc() + self.bytes_1_3()
    }

    /// Encoding of the fields 1 to 2, in order.
    pub open spec fn bytes_1_3(&self) -> Seq<u8> {
        self.x_coordinate.enc() + self.y_coordinate.enc()
    }

    /// Encoding of the fields 3 to 5, in order.
    pub open spec fn bytes_3_6(&self) -> Seq<u8> {
        self.radius.enc() + self.bytes_4_6()
    }

    /// Encoding of the fields 4 to 5, in order.
    pub open spec fn bytes_4_6(&self) -> Seq<u8> {
        self.height.enc() + self.pitch_variance.enc()
    }

    /// Encoding of the fields 6 to 11, in order.
    pub open spec fn bytes_6_12(&self) -> Seq<u8> {
        self.bytes_6_9() + self.bytes_9_12()
    }

    /// Encoding of the fields 6 to 8, in order.
    pub open spec fn bytes_6_9(&self) -> Seq<u8> {
        self.volume_variance.enc() + self.bytes_7_9()
    }

    /// Encoding of the fields 7 to 8, in order.
    pub open spec fn bytes_7_9(&self) -> Seq<u8> {
        self.volume_percentage.enc() + self.resref_of_sound_1.enc()
    }

    /// Encoding of the fields 9 to 11, in order.
    pub open spec fn bytes_9_12(&self) -> Seq<u8> {
        self.resref_of_sound_2.enc() + self.bytes_10_12()
    }

    /// Encoding of the fields 10 to 11, in order.
    pub open spec fn bytes_10_12(&self) -> Seq<u8> {
        self.resref_of_sound_3.enc() + self.resref_of_sound_4.enc()
    }

    /// Encoding of the fields 12 to 24, in order.
    pub open spec fn bytes_12_25(&self) -> Seq<u8> {
        self.bytes_12_18() + self.bytes_18_25()
    }

    /// Encoding of the fields 12 to 17, in order.
    pub open spec fn bytes_12_18(&self) -> Seq<u8> {
        self.bytes_12_15() + self.bytes_15_18()
    }

    /// Encoding of the fields 12 to 14, in order.
    pub open spec fn bytes_12_15(&self) -> Seq<u8> {
        self.resref_of_sound_5.enc() + self.bytes_13_15()
    }

    /// Encoding of the fields 13 to 14, in order.
    pub open spec fn bytes_13_15(&self) -> Seq<u8> {
        self.resref_of_sound_6.enc() + self.resref_of_sound_7.enc()
    }

    /// Encoding of the fields 15 to 17, in order.
    pub open spec fn bytes_15_18(&self) -> Seq<u8> {
        self.resref_of_sound_8.enc() + self.bytes_16_18()
    }

    /// Encoding of the fields 16 to 17, in order.
    pub open spec fn bytes_16_18(&self) -> Seq<u8> {
        self.resref_of_sound_9.enc() + self.resref_of_sound_10.enc()
    }

    /// Encoding of the fields 18 to 24, in order.
    pub open spec fn bytes_18_25(&self) -> Seq<u8> {
        self.bytes_18_21() + self.bytes_21_25()
    }

    /// Encoding of the fields 18 to 20, in order.
    pub open spec fn bytes_18_21(&self) -> Seq<u8> {
        self.count_of_sounds.enc() + self.bytes_19_21()
    }

    /// Encoding of the fields 19 to 20, in order.
    pub open spec fn bytes_19_21(&self) -> Seq<u8> {
        self._unused_1.enc() + self.base_time_interval.enc()
    }

    /// Encoding of the fields 21 to 24, in order.
    pub open spec fn bytes_21_25(&self) -> Seq<u8> {
        self.bytes_21_23() + self.bytes_23_25()
    }

    /// Encoding of the fields 21 to 22, in order.
    pub open spec fn bytes_21_23(&self) -> Seq<u8> {
        self.base_time_deviation.enc() + self.ambient_appearence_schedule.enc()
    }

    /// Encoding of the fields 23 to 24, in order.
    pub open spec fn bytes_23_25(&self) -> Seq<u8> {
        self.flags.enc() + enc_seq(self._unused_2@)
    }
}

impl Codec for Ambient {
    open spec fn width() -> nat {
        212
    }

    open spec fn enc(&self) -> Seq<u8> {
        self.bytes_0_25()
    }

    open spec fn wf(&self) -> bool {
        &&& self._unused_2@.len() == 64
        &&& all_wf(self._unused_2@)
    }

    open spec fn same(&self, other: &Self) -> bool {
        &&& self.name.same(&other.name)
        &&& self.x_coordinate == other.x_coordinate
        &&& self.y_coordinate == other.y_coordinate
        &&& self.radius == other.radius
        &&& self.height == other.height
        &&& self.pitch_variance == other.pitch_variance
        &&& self.volume_variance == other.volume_variance
        &&& self.volume_percentage == other.volume_percentage
        &&& self.resref_of_sound_1.same(&other.resref_of_sound_1)
        &&& self.resref_of_sound_2.same(&other.resref_of_sound_2)
        &&& self.resref_of_sound_3.same(&other.resref_of_sound_3)
        &&& self.resref_of_sound_4.same(&other.resref_of_sound_4)
        &&& self.resref_of_sound_5.same(&other.resref_of_sound_5)
        &&& self.resref_of_sound_6.same(&other.resref_of_sound_6)
        &&& self.resref_of_sound_7.same(&other.resref_of_sound_7)
        &&& self.resref_of_sound_8.same(&other.resref_of_sound_8)
        &&& self.resref_of_sound_9.same(&other.resref_of_sound_9)
        &&& self.resref_of_sound_10.same(&other.resref_of_sound_10)
        &&& self.count_of_sounds == other.count_of_sounds
        &&& self._unused_1 == other._unused_1
        &&& self.base_time_interval == other.base_time_interval
        &&& self.base_time_deviation == other.base_time_deviation
        &&& self.ambient_appearence_schedule == other.ambient_appearence_schedule
        &&& self.flags == other.flags
        &&& seq_same(self._unused_2@, other._unused_2@)
    }

    fn byte_width() -> (n: usize) {
        212
    }

    fn check_wf(&self) -> (b: bool) {
        self._unused_2.len() == 64 && check_all_wf(self._unused_2.as_slice())
    }

    proof fn lemma_enc_len(&self) {
        self.name.lemma_enc_len();
        self.x_coordinate.lemma_enc_len();
        self.y_coordinate.lemma_enc_len();
        self.radius.lemma_enc_len();
        self.height.lemma_enc_len();
        self.pitch_variance.lemma_enc_len();
        self.volume_variance.lemma_enc_len();
        self.volume_percentage.lemma_enc_len();
        self.resref_of_sound_1.lemma_enc_len();
        self.resref_of_sound_2.lemma_enc_len();
        self.resref_of_sound_3.lemma_enc_len();
        self.resref_of_sound_4.lemma_enc_len();
        self.resref_of_sound_5.lemma_enc_len();
        self.resref_of_sound_6.lemma_enc_len();
        self.resref_of_sound_7.lemma_enc_len();
        self.resref_of_sound_8.lemma_enc_len();
        self.resref_of_sound_9.lemma_enc_len();
        self.resref_of_sound_10.lemma_enc_len();
        self.count_of_sounds.lemma_enc_len();
        self._unused_1.lemma_enc_len();
        self.base_time_interval.lemma_enc_len();
        self.base_time_deviation.lemma_enc_len();
        self.ambient_appearence_schedule.lemma_enc_len();
        self.flags.lemma_enc_len();
        lemma_enc_seq_len(self._unused_2@);
    }

    proof fn lemma_enc_injective(&self, other: &Self) {
        self.name.lemma_enc_len();
        self.x_coordinate.lemma_enc_len();
        self.y_coordinate.lemma_enc_len();
        self.radius.lemma_enc_len();
        self.height.lemma_enc_len();
        self.pitch_variance.lemma_enc_len();
        self.volume_variance.lemma_enc_len();
        self.volume_percentage.lemma_enc_len();
        self.resref_of_sound_1.lemma_enc_len();
        self.resref_of_sound_2.lemma_enc_len();
        self.resref_of_sound_3.lemma_enc_len();
        self.resref_of_sound_4.lemma_enc_len();
        self.resref_of_sound_5.lemma_enc_len();
        self.resref_of_sound_6.lemma_enc_len();
        self.resref_of_sound_7.lemma_enc_len();
        self.resref_of_sound_8.lemma_enc_len();
        self.resref_of_sound_9.lemma_enc_len();
        self.resref_of_sound_10.lemma_enc_len();
        self.count_of_sounds.lemma_enc_len();
        self._unused_1.lemma_enc_len();
        self.base_time_interval.lemma_enc_len();
        self.base_time_deviation.lemma_enc_len();
        self.ambient_appearence_schedule.lemma_enc_len();
        self.flags.lemma_enc_len();
        lemma_enc_seq_len(self._unused_2@);
        other.name.lemma_enc_len();
        other.x_coordinate.lemma_enc_len();
        other.y_coordinate.lemma_enc_len();
        other.radius.lemma_enc_len();
        other.height.lemma_enc_len();
        other.pitch_variance.lemma_enc_len();
        other.volume_variance.lemma_enc_len();
        other.volume_percentage.lemma_enc_len();
        other.resref_of_sound_1.lemma_enc_len();
        other.resref_of_sound_2.lemma_enc_len();
        other.resref_of_sound_3.lemma_enc_len();
        other.resref_of_sound_4.lemma_enc_len();
        other.resref_of_sound_5.lemma_enc_len();
        other.resref_of_sound_6.lemma_enc_len();
        other.resref_of_sound_7.lemma_enc_len();
        other.resref_of_sound_8.lemma_enc_len();
        other.resref_of_sound_9.lemma_enc_len();
        other.resref_of_sound_10.lemma_enc_len();
        other.count_of_sounds.lemma_enc_len();
        other._unused_1.lemma_enc_len();
        other.base_time_interval.lemma_enc_len();
        other.base_time_deviation.lemma_enc_len();
        other.ambient_appearence_schedule.lemma_enc_len();
        other.flags.lemma_enc_len();
        lemma_enc_seq_len(other._unused_2@);
        lemma_concat_peel(self.bytes_0_12(), self.bytes_12_25(), other.bytes_0_12(), other.bytes_12_25());
        lemma_concat_peel(self.bytes_0_6(), self.bytes_6_12(), other.bytes_0_6(), other.bytes_6_12());
        lemma_concat_peel(self.bytes_0_3(), self.bytes_3_6(), other.bytes_0_3(), other.bytes_3_6());
        lemma_concat_peel(self.name.enc(), self.bytes_1_3(), other.name.enc(), other.bytes_1_3());
        lemma_concat_peel(self.x_coordinate.enc(), self.y_coordinate.enc(), other.x_coordinate.enc(), other.y_coordinate.enc());
        lemma_concat_peel(self.radius.enc(), self.bytes_4_6(), other.radius.enc(), other.bytes_4_6());
        lemma_concat_peel(self.height.enc(), self.pitch_variance.enc(), other.height.enc(), other.pitch_variance.enc());
        lemma_concat_peel(self.bytes_6_9(), self.bytes_9_12(), other.bytes_6_9(), other.bytes_9_12());
        lemma_concat_peel(self.volume_variance.enc(), self.bytes_7_9(), other.volume_variance.enc(), other.bytes_7_9());
        lemma_concat_peel(self.volume_percentage.enc(), self.resref_of_sound_1.enc(), other.volume_percentage.enc(), other.resref_of_sound_1.enc());
        lemma_concat_peel(self.resref_of_sound_2.enc(), self.bytes_10_12(), other.resref_of_sound_2.enc(), other.bytes_10_12());
        lemma_concat_peel(self.resref_of_sound_3.enc(), self.resref_of_sound_4.enc(), other.resref_of_sound_3.enc(), other.resref_of_sound_4.enc());
        lemma_concat_peel(self.bytes_12_18(), self.bytes_18_25(), other.bytes_12_18(), other.bytes_18_25());
        lemma_concat_peel(self.bytes_12_15(), self.bytes_15_18(), other.bytes_12_15(), other.bytes_15_18());
        lemma_concat_peel(self.resref_of_sound_5.enc(), self.bytes_13_15(), other.resref_of_sound_5.enc(), other.bytes_13_15());
        lemma_concat_peel(self.resref_of_sound_6.enc(), self.resref_of_sound_7.enc(), other.resref_of_sound_6.enc(), other.resref_of_sound_7.enc());
        lemma_concat_peel(self.resref_of_sound_8.enc(), self.bytes_16_18(), other.resref_of_sound_8.enc(), other.bytes_16_18());
        lemma_concat_peel(self.resref_of_sound_9.enc(), self.resref_of_sound_10.enc(), other.resref_of_sound_9.enc(), other.resref_of_sound_10.enc());
        lemma_concat_peel(self.bytes_18_21(), self.bytes_21_25(), other.bytes_18_21(), other.bytes_21_25());
        lemma_concat_peel(self.count_of_sounds.enc(), self.bytes_19_21(), other.count_of_sounds.enc(), other.bytes_19_21());
        lemma_concat_peel(self._unused_1.enc(), self.base_time_interval.enc(), other._unused_1.enc(), other.base_time_interval.enc());
        lemma_concat_peel(self.bytes_21_23(), self.bytes_23_25(), other.bytes_21_23(), other.bytes_23_25());
        lemma_concat_peel(self.base_time_deviation.enc(), self.ambient_appearence_schedule.enc(), other.base_time_deviation.enc(), other.ambient_appearence_schedule.enc());
        lemma_concat_peel(self.flags.enc(), enc_seq(self._unused_2@), other.flags.enc(), enc_seq(other._unused_2@));
        self.name.lemma_enc_injective(&other.name);
        self.x_coordinate.lemma_enc_injective(&other.x_coordinate);
        self.y_coordinate.lemma_enc_injective(&other.y_coordinate);
        self.radius.lemma_enc_injective(&other.radius);
        self.height.lemma_enc_injective(&other.height);
        self.pitch_variance.lemma_enc_injective(&other.pitch_variance);
        self.volume_variance.lemma_enc_injective(&other.volume_variance);
        self.volume_percentage.lemma_enc_injective(&other.volume_percentage);
        self.resref_of_sound_1.lemma_enc_injective(&other.resref_of_sound_1);
        self.resref_of_sound_2.lemma_enc_injective(&other.resref_of_sound_2);
        self.resref_of_sound_3.lemma_enc_injective(&other.resref_of_sound_3);
        self.resref_of_sound_4.lemma_enc_injective(&other.resref_of_sound_4);
        self.resref_of_sound_5.lemma_enc_injective(&other.resref_of_sound_5);
        self.resref_of_sound_6.lemma_enc_injective(&other.resref_of_sound_6);
        self.resref_of_sound_7.lemma_enc_injective(&other.resref_of_sound_7);
        self.resref_of_sound_8.lemma_enc_injective(&other.resref_of_sound_8);
        self.resref_of_sound_9.lemma_enc_injective(&other.resref_of_sound_9);
        self.resref_of_sound_10.lemma_enc_injective(&other.resref_of_sound_10);
        self.count_of_sounds.lemma_enc_injective(&other.count_of_sounds);
        self._unused_1.lemma_enc_injective(&other._unused_1);
        self.base_time_interval.lemma_enc_injective(&other.base_time_interval);
        self.base_time_deviation.lemma_enc_injective(&other.base_time_deviation);
        self.ambient_appearence_schedule.lemma_enc_injective(&other.ambient_appearence_schedule);
        self.flags.lemma_enc_injective(&other.flags);
        lemma_enc_seq_injective(self._unused_2@, other._unused_2@);
    }

    fn decode(buf: &[u8], pos: usize) -> (v: Self) {
        let len = buf.len();
        let fld0 = <CharArray<32>>::decode(buf, pos + 0);
        let fld1 = u16::decode(buf, pos + 32);
        let fld2 = u16::decode(buf, pos + 34);
        let fld3 = u16::decode(buf, pos + 36);
        let fld4 = u16::decode(buf, pos + 38);
        let fld5 = u32::decode(buf, pos + 40);
        let fld6 = u16::decode(buf, pos + 44);
        let fld7 = u16::decode(buf, pos + 46);
        let fld8 = Resref::decode(buf, pos + 48);
        let fld9 = Resref::decode(buf, pos + 56);
        let fld10 = Resref::decode(buf, pos + 64);
        let fld11 = Resref::decode(buf, pos + 72);
        let fld12 = Resref::decode(buf, pos + 80);
        let fld13 = Resref::decode(buf, pos + 88);
        let fld14 = Resref::decode(buf, pos + 96);
        let fld15 = Resref::decode(buf, pos + 104);
        let fld16 = Resref::decode(buf, pos + 112);
        let fld17 = Resref::decode(buf, pos + 120);
        let fld18 = u16::decode(buf, pos + 128);
        let fld19 = u16::decode(buf, pos + 130);
        let fld20 = u32::decode(buf, pos + 132);
        let fld21 = u32::decode(buf, pos + 136);
        let fld22 = u32::decode(buf, pos + 140);
        let fld23 = u32::decode(buf, pos + 144);
        let fld24 = decode_vec::<u8>(buf, pos + 148, 64);
        let v = Ambient {
            name: fld0,
            x_coordinate: fld1,
            y_coordinate: fld2,
            radius: fld3,
            height: fld4,
            pitch_variance: fld5,
            volume_variance: fld6,
            volume_percentage: fld7,
            resref_of_sound_1: fld8,
            resref_of_sound_2: fld9,
            resref_of_sound_3: fld10,
            resref_of_sound_4: fld11,
            resref_of_sound_5: fld12,
            resref_of_sound_6: fld13,
            resref_of_sound_7: fld14,
            resref_of_sound_8: fld15,
            resref_of_sound_9: fld16,
            resref_of_sound_10: fld17,
            count_of_sounds: fld18,
            _unused_1: fld19,
            base_time_interval: fld20,
            base_time_deviation: fld21,
            ambient_appearence_schedule: fld22,
            flags: fld23,
            _unused_2: fld24,
        };
        proof {
            lemma_subrange_concat(buf@, pos + 0, pos + 80, pos + 212);
            lemma_subrange_concat(buf@, pos + 0, pos + 44, pos + 80);
            lemma_subrange_concat(buf@, pos + 0, pos + 36, pos + 44);
            lemma_subrange_concat(buf@, pos + 0, pos + 32, pos + 36);
            lemma_subrange_concat(buf@, pos + 32, pos + 34, pos + 36);
            lemma_subrange_concat(buf@, pos + 36, pos + 38, pos + 44);
            lemma_subrange_concat(buf@, pos + 38, pos + 40, pos + 44);
            lemma_subrange_concat(buf@, pos + 44, pos + 56, pos + 80);
            lemma_subrange_concat(buf@, pos + 44, pos + 46, pos + 56);
            lemma_subrange_concat(buf@, pos + 46, pos + 48, pos + 56);
            lemma_subrange_concat(buf@, pos + 56, pos + 64, pos + 80);
            lemma_subrange_concat(buf@, pos + 64, pos + 72, pos + 80);
            lemma_subrange_concat(buf@, pos + 80, pos + 128, pos + 212);
            lemma_subrange_concat(buf@, pos + 80, pos + 104, pos + 128);
            lemma_subrange_concat(buf@, pos + 80, pos + 88, pos + 104);
            lemma_subrange_concat(buf@, pos + 88, pos + 96, pos + 104);
            lemma_subrange_concat(buf@, pos + 104, pos + 112, pos + 128);
            lemma_subrange_concat(buf@, pos + 112, pos + 120, pos + 128);
            lemma_subrange_concat(buf@, pos + 128, pos + 136, pos + 212);
            lemma_subrange_concat(buf@, pos + 128, pos + 130, pos + 136);
            lemma_subrange_concat(buf@, pos + 130, pos + 132, pos + 136);
            lemma_subrange_concat(buf@, pos + 136, pos + 144, pos + 212);
            lemma_subrange_concat(buf@, pos + 136, pos + 140, pos + 144);
            lemma_subrange_concat(buf@, pos + 144, pos + 148, pos + 212);
        }
        v
    }

    fn encode(&self, out: &mut Vec<u8>) {
        let mut b0 = encoded(&self.name);
        let mut b1 = encoded(&self.x_coordinate);
        let mut b2 = encoded(&self.y_coordinate);
        let mut b3 = encoded(&self.radius);
        let mut b4 = encoded(&self.height);
        let mut b5 = encoded(&self.pitch_variance);
        let mut b6 = encoded(&self.volume_variance);
        let mut b7 = encoded(&self.volume_percentage);
        let mut b8 = encoded(&self.resref_of_sound_1);
        let mut b9 = encoded(&self.resref_of_sound_2);
        let mut b10 = encoded(&self.resref_of_sound_3);
        let mut b11 = encoded(&self.resref_of_sound_4);
        let mut b12 = encoded(&self.resref_of_sound_5);
        let mut b13 = encoded(&self.resref_of_sound_6);
        let mut b14 = encoded(&self.resref_of_sound_7);
        let mut b15 = encoded(&self.resref_of_sound_8);
        let mut b16 = encoded(&self.resref_of_sound_9);
        let mut b17 = encoded(&self.resref_of_sound_10);
        let mut b18 = encoded(&self.count_of_sounds);
        let mut b19 = encoded(&self._unused_1);
        let mut b20 = encoded(&self.base_time_interval);
        let mut b21 = encoded(&self.base_time_deviation);
        let mut b22 = encoded(&self.ambient_appearence_schedule);
        let mut b23 = encoded(&self.flags);
        let mut b24 = encoded_slice(self._unused_2.as_slice());
        b23.append(&mut b24);
        b21.append(&mut b22);
        b21.append(&mut b23);
        b19.append(&mut b20);
        b18.append(&mut b19);
        b18.append(&mut b21);
        b16.append(&mut b17);
        b15.append(&mut b16);
        b13.append(&mut b14);
        b12.append(&mut b13);
        b12.append(&mut b15);
        b12.append(&mut b18);
        b10.append(&mut b11);
        b9.append(&mut b10);
        b7.append(&mut b8);
        b6.append(&mut b7);
        b6.append(&mut b9);
        b4.append(&mut b5);
        b3.append(&mut b4);
        b1.append(&mut b2);
        b0.append(&mut b1);
        b0.append(&mut b3);
        b0.append(&mut b6);
        b0.append(&mut b12);
        out.append(&mut b0);
    }
}

/// https://gibberlings3.github.io/iesdp/file_formats/ie_formats/are_v1.htm#formAREAV1_0_Variable
#[derive(Debug, Clone, PartialEq)]
pub struct Variable {
    pub name: CharArray<32>,
    /// bit 0: int
    /// bit 1: float
    /// bit 2: script name
    /// bit 3: resref
    /// bit 4: strref
    /// bit 5: dword
    pub variable_type: u16,
    pub resource_value: u16,
    pub dword_value: u32,
    pub int_value: u32,
    pub double_value: i64,
    pub script_name_value: CharArray<32>,
}

impl Variable {
    /// Encoding of the fields 0 to 6, in order.
    pub open spec fn bytes_0_7(&self) -> Seq<u8> {
        self.bytes_0_3() + self.bytes_3_7()
    }

    /// Encoding of the fields 0 to 2, in order.
    pub open spec fn bytes_0_3(&self) -> Seq<u8> {
        self.name.enc() + self.bytes_1_3()
    }

    /// Encoding of the fields 1 to 2, in order.
    pub open spec fn bytes_1_3(&self) -> Seq<u8> {
        self.variable_type.enc() + self.resource_value.enc()
    }

    /// Encoding of the fields 3 to 6, in order.
    pub open spec fn bytes_3_7(&self) -> Seq<u8> {
        self.bytes_3_5() + self.bytes_5_7()
    }

    /// Encoding of the fields 3 to 4, in order.
    pub open spec fn bytes_3_5(&self) -> Seq<u8> {
        self.dword_value.enc() + self.int_value.enc()
    }

    /// Encoding of the fields 5 to 6, in order.
    pub open spec fn bytes_5_7(&self) -> Seq<u8> {
        self.double_value.enc() + self.script_name_value.enc()
    }
}

impl Codec for Variable {
    open spec fn width() -> nat {
        84
    }

    open spec fn enc(&self) -> Seq<u8> {
        self.bytes_0_7()
    }

    open spec fn wf(&self) -> bool {
        true
    }

    open spec fn same(&self, other: &Self) -> bool {
        &&& self.name.same(&other.name)
        &&& self.variable_type == other.variable_type
        &&& self.resource_value == other.resource_value
        &&& self.dword_value == other.dword_value
        &&& self.int_value == other.int_value
        &&& self.double_value == other.double_value
        &&& self.script_name_value.same(&other.script_name_value)
    }

    fn byte_width() -> (n: usize) {
        84
    }

    fn check_wf(&self) -> (b: bool) {
        true
    }

    proof fn lemma_enc_len(&self) {
        self.name.lemma_enc_len();
        self.variable_type.lemma_enc_len();
        self.resource_value.lemma_enc_len();
        self.dword_value.lemma_enc_len();
        self.int_value.lemma_enc_len();
        self.double_value.lemma_enc_len();
        self.script_name_value.lemma_enc_len();
    }

    proof fn lemma_enc_injective(&self, other: &Self) {
        self.name.lemma_enc_len();
        self.variable_type.lemma_enc_len();
        self.resource_value.lemma_enc_len();
        self.dword_value.lemma_enc_len();
        self.int_value.lemma_enc_len();
        self.double_value.lemma_enc_len();
        self.script_name_value.lemma_enc_len();
        other.name.lemma_enc_len();
        other.variable_type.lemma_enc_len();
        other.resource_value.lemma_enc_len();
        other.dword_value.lemma_enc_len();
        other.int_value.lemma_enc_len();
        other.double_value.lemma_enc_len();
        other.script_name_value.lemma_enc_len();
        lemma_concat_peel(self.bytes_0_3(), self.bytes_3_7(), other.bytes_0_3(), other.bytes_3_7());
        lemma_concat_peel(self.name.enc(), self.bytes_1_3(), other.name.enc(), other.bytes_1_3());
        lemma_concat_peel(self.variable_type.enc(), self.resource_value.enc(), other.variable_type.enc(), other.resource_value.enc());
        lemma_concat_peel(self.bytes_3_5(), self.bytes_5_7(), other.bytes_3_5(), other.bytes_5_7());
        lemma_concat_peel(self.dword_value.enc(), self.int_value.enc(), other.dword_value.enc(), other.int_value.enc());
        lemma_concat_peel(self.double_value.enc(), self.script_name_value.enc(), other.double_value.enc(), other.script_name_value.enc());
        self.name.lemma_enc_injective(&other.name);
        self.variable_type.lemma_enc_injective(&other.variable_type);
        self.resource_value.lemma_enc_injective(&other.resource_value);
        self.dword_value.lemma_enc_injective(&other.dword_value);
        self.int_value.lemma_enc_injective(&other.int_value);
        self.double_value.lemma_enc_injective(&other.double_value);
        self.script_name_value.lemma_enc_injective(&other.script_name_value);
    }

    fn decode(buf: &[u8], pos: usize) -> (v: Self) {
        let len = buf.len();
        let fld0 = <CharArray<32>>::decode(buf, pos + 0);
        let fld1 = u16::decode(buf, pos + 32);
        let fld2 = u16::decode(buf, pos + 34);
        let fld3 = u32::decode(buf, pos + 36);
        let fld4 = u32::decode(buf, pos + 40);
        let fld5 = i64::decode(buf, pos + 44);
        let fld6 = <CharArray<32>>::decode(buf, pos + 52);
        let v = Variable {
            name: fld0,
            variable_type: fld1,
            resource_value: fld2,
            dword_value: fld3,
            int_value: fld4,
            double_value: fld5,
            script_name_value: fld6,
        };
        proof {
            lemma_subrange_concat(buf@, pos + 0, pos + 36, pos + 84);
            lemma_subrange_concat(buf@, pos + 0, pos + 32, pos + 36);
            lemma_subrange_concat(buf@, pos + 32, pos + 34, pos + 36);
            lemma_subrange_concat(buf@, pos + 36, pos + 44, pos + 84);
            lemma_subrange_concat(buf@, pos + 36, pos + 40, pos + 44);
            lemma_subrange_concat(buf@, pos + 44, pos + 52, pos + 84);
        }
        v
    }

    fn encode(&self, out: &mut Vec<u8>) {
        let mut b0 = encoded(&self.name);
        let mut b1 = encoded(&self.variable_type);
        let mut b2 = encoded(&self.resource_value);
        let mut b3 = encoded(&self.dword_value);
        let mut b4 = encoded(&self.int_value);
        let mut b5 = encoded(&self.double_value);
        let mut b6 = encoded(&self.script_name_value);
        b5.append(&mut b6);
        b3.append(&mut b4);
        b3.append(&mut b5);
        b1.append(&mut b2);
        b0.append(&mut b1);
        b0.append(&mut b3);
        out.append(&mut b0);
    }
}

/// https://gibberlings3.github.io/iesdp/file_formats/ie_formats/are_v1.htm#formAREAV1_0_Explored
#[derive(Debug, Clone, PartialEq)]
pub struct ExploredBitmask(pub u8);

impl Codec for ExploredBitmask {
    open spec fn width() -> nat {
        1
    }

    open spec fn enc(&self) -> Seq<u8> {
        self.0.enc()
    }

    open spec fn wf(&self) -> bool {
        true
    }

    open spec fn same(&self, other: &Self) -> bool {
        self.0 == other.0
    }

    fn byte_width() -> (n: usize) {
        1
    }

    fn check_wf(&self) -> (b: bool) {
        true
    }

    proof fn lemma_enc_len(&self) {
        self.0.lemma_enc_len();
    }

    proof fn lemma_enc_injective(&self, other: &Self) {
        self.0.lemma_enc_len();
        other.0.lemma_enc_len();
        self.0.lemma_enc_injective(&other.0);
    }

    fn decode(buf: &[u8], pos: usize) -> (v: Self) {
        let len = buf.len();
        let fld0 = u8::decode(buf, pos + 0);
        let v = ExploredBitmask(fld0);
        v
    }

    fn encode(&self, out: &mut Vec<u8>) {
        let mut b0 = encoded(&self.0);
        out.append(&mut b0);
    }
}

/// https://gibberlings3.github.io/iesdp/file_formats/ie_formats/are_v1.htm#formAREAV1_0_Door
#[derive(Debug, Clone, PartialEq)]
pub struct Door {
    pub name: CharArray<32>,
    /// Link with WED
    pub door_id: CharArray<8>,
    pub flags: u32,
    pub index_of_first_vertex_of_the_door_outline_when_open: u32,
    pub count_of_vertices_of_the_door_outline_when_open: u16,
    pub count_of_vertices_of_the_door_outline_when_closed: u16,
    pub index_of_first_vertex_of_the_door_outline_when_closed: u32,
    pub minimum_bounding_box_of_the_door_polygon_when_open: [u16; 4],
    pub minimum_bounding_box_of_the_door_polygon_when_closed: [u16; 4],
    pub index_of_first_vertex_in_the_impeded_cell_block_when_open: u32,
    pub count_of_vertices_in_impeded_cell_block_when_open: u16,
    pub count_of_vertices_in_impeded_cell_block_when_closed: u16,
    pub index_of_first_vertex_in_the_impeded_cell_block_when_closed: u32,
    pub hit_points: u16,
    pub armor_class: u16,
    pub door_open_sound: Resref,
    pub door_close_sound: Resref,
    pub cursor_index: u32,
    pub trap_detection_difficulty: u16,
    pub trap_removal_difficulty: u16,
    /// 0=No, 1=Yes
    pub door_is_trapped: u16,
    /// 0=No, 1=Yes
    pub trap_detected: u16,
    pub trap_launch_target_x_coordinate: u16,
    pub trap_launch_target_y_coordinate: u16,
    pub key_item: Resref,
    pub door_script: Resref,
    /// Secret doors
    pub detection_difficulty: u32,
    pub lock_difficulty: u32,
    pub two_points: [u16; 4],
    pub lockpick_string: Strref,
    pub travel_trigger_name: CharArray<24>,
    pub dialog_speaker_name: Strref,
    pub dialog_resref: Resref,
    pub _unknown: Vec<u8>,
}

impl Door {
    /// Encoding of the fields 0 to 33, in order.
    pub open spec fn bytes_0_34(&self) -> Seq<u8> {
        self.bytes_0_17() + self.bytes_17_34()
    }

    /// Encoding of the fields 0 to 16, in order.
    pub open spec fn bytes_0_17(&self) -> Seq<u8> {
        self.bytes_0_8() + self.bytes_8_17()
    }

    /// Encoding of the fields 0 to 7, in order.
    pub open spec fn bytes_0_8(&self) -> Seq<u8> {
        self.bytes_0_4() + self.bytes_4_8()
    }

    /// Encoding of the fields 0 to 3, in order.
    pub open spec fn bytes_0_4(&self) -> Seq<u8> {
        self.bytes_0_2() + self.bytes_2_4()
    }

    /// Encoding of the fields 0 to 1, in order.
    pub open spec fn bytes_0_2(&self) -> Seq<u8> {
        self.name.enc() + self.door_id.enc()
    }

    /// Encoding of the fields 2 to 3, in order.
    pub open spec fn bytes_2_4(&self) -> Seq<u8> {
        self.flags.enc() + self.index_of_first_vertex_of_the_door_outline_when_open.enc()
    }

    /// Encoding of the fields 4 to 7, in order.
    pub open spec fn bytes_4_8(&self) -> Seq<u8> {
        self.bytes_4_6() + self.bytes_6_8()
    }

    /// Encoding of the fields 4 to 5, in order.
    pub open spec fn bytes_4_6(&self) -> Seq<u8> {
        self.count_of_vertices_of_the_door_outline_when_open.enc() + self.count_of_vertices_of_the_door_outline_when_closed.enc()
    }

    /// Encoding of the fields 6 to 7, in order.
    pub open spec fn bytes_6_8(&self) -> Seq<u8> {
        self.index_of_first_vertex_of_the_door_outline_when_closed.enc() + enc_seq(self.minimum_bounding_box_of_the_door_polygon_when_open@)
    }

    /// Encoding of the fields 8 to 16, in order.
    pub open spec fn bytes_8_17(&self) -> Seq<u8> {
        self.bytes_8_12() + self.bytes_12_17()
    }

    /// Encoding of the fields 8 to 11, in order.
    pub open spec fn bytes_8_12(&self) -> Seq<u8> {
        self.bytes_8_10() + self.bytes_10_12()
    }

    /// Encoding of the fields 8 to 9, in order.
    pub open spec fn bytes_8_10(&self) -> Seq<u8> {
        enc_seq(self.minimum_bounding_box_of_the_door_polygon_when_closed@) + self.index_of_first_vertex_in_the_impeded_cell_block_when_open.enc()
    }

    /// Encoding of the fields 10 to 11, in order.
    pub open spec fn bytes_10_12(&self) -> Seq<u8> {
        self.count_of_vertices_in_impeded_cell_block_when_open.enc() + self.count_of_vertices_in_impeded_cell_block_when_closed.enc()
    }

    /// Encoding of the fields 12 to 16, in order.
    pub open spec fn bytes_12_17(&self) -> Seq<u8> {
        self.bytes_12_14() + self.bytes_14_17()
    }

    /// Encoding of the fields 12 to 13, in order.
    pub open spec fn bytes_12_14(&self) -> Seq<u8> {
        self.index_of_first_vertex_in_the_impeded_cell_block_when_closed.enc() + self.hit_points.enc()
    }

    /// Encoding of the fields 14 to 16, in order.
    pub open spec fn bytes_14_17(&self) -> Seq<u8> {
        self.armor_class.enc() + self.bytes_15_17()
    }

    /// Encoding of the fields 15 to 16, in order.
    pub open spec fn bytes_15_17(&self) -> Seq<u8> {
        self.door_open_sound.enc() + self.door_close_sound.enc()
    }

    /// Encoding of the fields 17 to 33, in order.
    pub open spec fn bytes_17_34(&self) -> Seq<u8> {
        self.bytes_17_25() + self.bytes_25_34()
    }

    /// Encoding of the fields 17 to 24, in order.
    pub open spec fn bytes_17_25(&self) -> Seq<u8> {
        self.bytes_17_21() + self.bytes_21_25()
    }

    /// Encoding of the fields 17 to 20, in order.
    pub open spec fn bytes_17_21(&self) -> Seq<u8> {
        self.bytes_17_19() + self.bytes_19_21()
    }

    /// Encoding of the fields 17 to 18, in order.
    pub open spec fn bytes_17_19(&self) -> Seq<u8> {
        self.cursor_index.enc() + self.trap_detection_difficulty.enc()
    }

    /// Encoding of the fields 19 to 20, in order.
    pub open spec fn bytes_19_21(&self) -> Seq<u8> {
        self.trap_removal_difficulty.enc() + self.door_is_trapped.enc()
    }

    /// Encoding of the fields 21 to 24, in order.
    pub open spec fn bytes_21_25(&self) -> Seq<u8> {
        self.bytes_21_23() + self.bytes_23_25()
    }

    /// Encoding of the fields 21 to 22, in order.
    pub open spec fn bytes_21_23(&self) -> Seq<u8> {
        self.trap_detected.enc() + self.trap_launch_target_x_coordinate.enc()
    }

    /// Encoding of the fields 23 to 24, in order.
    pub open spec fn bytes_23_25(&self) -> Seq<u8> {
        self.trap_launch_target_y_coordinate.enc() + self.key_item.enc()
    }

    /// Encoding of the fields 25 to 33, in order.
    pub open spec fn bytes_25_34(&self) -> Seq<u8> {
        self.bytes_25_29() + self.bytes_29_34()
    }

    /// Encoding of the fields 25 to 28, in order.
    pub open spec fn bytes_25_29(&self) -> Seq<u8> {
        self.bytes_25_27() + self.bytes_27_29()
    }

    /// Encoding of the fields 25 to 26, in order.
    pub open spec fn bytes_25_27(&self) -> Seq<u8> {
        self.door_script.enc() + self.detection_difficulty.enc()
    }

    /// Encoding of the fields 27 to 28, in order.
    pub open spec fn bytes_27_29(&self) -> Seq<u8> {
        self.lock_difficulty.enc() + enc_seq(self.two_points@)
    }

    /// Encoding of the fields 29 to 33, in order.
    pub open spec fn bytes_29_34(&self) -> Seq<u8> {
        self.bytes_29_31() + self.bytes_31_34()
    }

    /// Encoding of the fields 29 to 30, in order.
    pub open spec fn bytes_29_31(&self) -> Seq<u8> {
        self.lockpick_string.enc() + self.travel_trigger_name.enc()
    }

    /// Encoding of the fields 31 to 33, in order.
    pub open spec fn bytes_31_34(&self) -> Seq<u8> {
        self.dialog_speaker_name.enc() + self.bytes_32_34()
    }

    /// Encoding of the fields 32 to 33, in order.
    pub open spec fn bytes_32_34(&self) -> Seq<u8> {
        self.dialog_resref.enc() + enc_seq(self._unknown@)
    }
}

impl Codec for Door {
    open spec fn width() -> nat {
        200
    }

    open spec fn enc(&self) -> Seq<u8> {
        self.bytes_0_34()
    }

    open spec fn wf(&self) -> bool {
        &&& all_wf(self.minimum_bounding_box_of_the_door_polygon_when_open@)
        &&& all_wf(self.minimum_bounding_box_of_the_door_polygon_when_closed@)
        &&& all_wf(self.two_points@)
        &&& self._unknown@.len() == 8
        &&& all_wf(self._unknown@)
    }

    open spec fn same(&self, other: &Self) -> bool {
        &&& self.name.same(&other.name)
        &&& self.door_id.same(&other.door_id)
        &&& self.flags == other.flags
        &&& self.index_of_first_vertex_of_the_door_outline_when_open == other.index_of_first_vertex_of_the_door_outline_when_open
        &&& self.count_of_vertices_of_the_door_outline_when_open == other.count_of_vertices_of_the_door_outline_when_open
        &&& self.count_of_vertices_of_the_door_outline_when_closed == other.count_of_vertices_of_the_door_outline_when_closed
        &&& self.index_of_first_vertex_of_the_door_outline_when_closed == other.index_of_first_vertex_of_the_door_outline_when_closed
        &&& seq_same(self.minimum_bounding_box_of_the_door_polygon_when_open@, other.minimum_bounding_box_of_the_door_polygon_when_open@)
        &&& seq_same(self.minimum_bounding_box_of_the_door_polygon_when_closed@, other.minimum_bounding_box_of_the_door_polygon_when_closed@)
        &&& self.index_of_first_vertex_in_the_impeded_cell_block_when_open == other.index_of_first_vertex_in_the_impeded_cell_block_when_open
        &&& self.count_of_vertices_in_impeded_cell_block_when_open == other.count_of_vertices_in_impeded_cell_block_when_open
        &&& self.count_of_vertices_in_impeded_cell_block_when_closed == other.count_of_vertices_in_impeded_cell_block_when_closed
        &&& self.index_of_first_vertex_in_the_impeded_cell_block_when_closed == other.index_of_first_vertex_in_the_impeded_cell_block_when_closed
        &&& self.hit_points == other.hit_points
        &&& self.armor_class == other.armor_class
        &&& self.door_open_sound.same(&other.door_open_sound)
        &&& self.door_close_sound.same(&other.door_close_sound)
        &&& self.cursor_index == other.cursor_index
        &&& self.trap_detection_difficulty == other.trap_detection_difficulty
        &&& self.trap_removal_difficulty == other.trap_removal_difficulty
        &&& self.door_is_trapped == other.door_is_trapped
        &&& self.trap_detected == other.trap_detected
        &&& self.trap_launch_target_x_coordinate == other.trap_launch_target_x_coordinate
        &&& self.trap_launch_target_y_coordinate == other.trap_launch_target_y_coordinate
        &&& self.key_item.same(&other.key_item)
        &&& self.door_script.same(&other.door_script)
        &&& self.detection_difficulty == other.detection_difficulty
        &&& self.lock_difficulty == other.lock_difficulty
        &&& seq_same(self.two_points@, other.two_points@)
        &&& self.lockpick_string.same(&other.lockpick_string)
        &&& self.travel_trigger_name.same(&other.travel_trigger_name)
        &&& self.dialog_speaker_name.same(&other.dialog_speaker_name)
        &&& self.dialog_resref.same(&other.dialog_resref)
        &&& seq_same(self._unknown@, other._unknown@)
    }

    fn byte_width() -> (n: usize) {
        200
    }

    fn check_wf(&self) -> (b: bool) {
        check_all_wf(self.minimum_bounding_box_of_the_door_polygon_when_open.as_slice()) && check_all_wf(self.minimum_bounding_box_of_the_door_polygon_when_closed.as_slice()) && check_all_wf(self.two_points.as_slice()) && self._unknown.len() == 8 && check_all_wf(self._unknown.as_slice())
    }

    proof fn lemma_enc_len(&self) {
        self.name.lemma_enc_len();
        self.door_id.lemma_enc_len();
        self.flags.lemma_enc_len();
        self.index_of_first_vertex_of_the_door_outline_when_open.lemma_enc_len();
        self.count_of_vertices_of_the_door_outline_when_open.lemma_enc_len();
        self.count_of_vertices_of_the_door_outline_when_closed.lemma_enc_len();
        self.index_of_first_vertex_of_the_door_outline_when_closed.lemma_enc_len();
        lemma_enc_seq_len(self.minimum_bounding_box_of_the_door_polygon_when_open@);
        lemma_enc_seq_len(self.minimum_bounding_box_of_the_door_polygon_when_closed@);
        self.index_of_first_vertex_in_the_impeded_cell_block_when_open.lemma_enc_len();
        self.count_of_vertices_in_impeded_cell_block_when_open.lemma_enc_len();
        self.count_of_vertices_in_impeded_cell_block_when_closed.lemma_enc_len();
        self.index_of_first_vertex_in_the_impeded_cell_block_when_closed.lemma_enc_len();
        self.hit_points.lemma_enc_len();
        self.armor_class.lemma_enc_len();
        self.door_open_sound.lemma_enc_len();
        self.door_close_sound.lemma_enc_len();
        self.cursor_index.lemma_enc_len();
        self.trap_detection_difficulty.lemma_enc_len();
        self.trap_removal_difficulty.lemma_enc_len();
        self.door_is_trapped.lemma_enc_len();
        self.trap_detected.lemma_enc_len();
        self.trap_launch_target_x_coordinate.lemma_enc_len();
        self.trap_launch_target_y_coordinate.lemma_enc_len();
        self.key_item.lemma_enc_len();
        self.door_script.lemma_enc_len();
        self.detection_difficulty.lemma_enc_len();
        self.lock_difficulty.lemma_enc_len();
        lemma_enc_seq_len(self.two_points@);
        self.lockpick_string.lemma_enc_len();
        self.travel_trigger_name.lemma_enc_len();
        self.dialog_speaker_name.lemma_enc_len();
        self.dialog_resref.lemma_enc_len();
        lemma_enc_seq_len(self._unknown@);
    }

    proof fn lemma_enc_injective(&self, other: &Self) {
        self.name.lemma_enc_len();
        self.door_id.lemma_enc_len();
        self.flags.lemma_enc_len();
        self.index_of_first_vertex_of_the_door_outline_when_open.lemma_enc_len();
        self.count_of_vertices_of_the_door_outline_when_open.lemma_enc_len();
        self.count_of_vertices_of_the_door_outline_when_closed.lemma_enc_len();
        self.index_of_first_vertex_of_the_door_outline_when_closed.lemma_enc_len();
        lemma_enc_seq_len(self.minimum_bounding_box_of_the_door_polygon_when_open@);
        lemma_enc_seq_len(self.minimum_bounding_box_of_the_door_polygon_when_closed@);
        self.index_of_first_vertex_in_the_impeded_cell_block_when_open.lemma_enc_len();
        self.count_of_vertices_in_impeded_cell_block_when_open.lemma_enc_len();
        self.count_of_vertices_in_impeded_cell_block_when_closed.lemma_enc_len();
        self.index_of_first_vertex_in_the_impeded_cell_block_when_closed.lemma_enc_len();
        self.hit_points.lemma_enc_len();
        self.armor_class.lemma_enc_len();
        self.door_open_sound.lemma_enc_len();
        self.door_close_sound.lemma_enc_len();
        self.cursor_index.lemma_enc_len();
        self.trap_detection_difficulty.lemma_enc_len();
        self.trap_removal_difficulty.lemma_enc_len();
        self.door_is_trapped.lemma_enc_len();
        self.trap_detected.lemma_enc_len();
        self.trap_launch_target_x_coordinate.lemma_enc_len();
        self.trap_launch_target_y_coordinate.lemma_enc_len();
        self.key_item.lemma_enc_len();
        self.door_script.lemma_enc_len();
        self.detection_difficulty.lemma_enc_len();
        self.lock_difficulty.lemma_enc_len();
        lemma_enc_seq_len(self.two_points@);
        self.lockpick_string.lemma_enc_len();
        self.travel_trigger_name.lemma_enc_len();
        self.dialog_speaker_name.lemma_enc_len();
        self.dialog_resref.lemma_enc_len();
        lemma_enc_seq_len(self._unknown@);
        other.name.lemma_enc_len();
        other.door_id.lemma_enc_len();
        other.flags.lemma_enc_len();
        other.index_of_first_vertex_of_the_door_outline_when_open.lemma_enc_len();
        other.count_of_vertices_of_the_door_outline_when_open.lemma_enc_len();
        other.count_of_vertices_of_the_door_outline_when_closed.lemma_enc_len();
        other.index_of_first_vertex_of_the_door_outline_when_closed.lemma_enc_len();
        lemma_enc_seq_len(other.minimum_bounding_box_of_the_door_polygon_when_open@);
        lemma_enc_seq_len(other.minimum_bounding_box_of_the_door_polygon_when_closed@);
        other.index_of_first_vertex_in_the_impeded_cell_block_when_open.lemma_enc_len();
        other.count_of_vertices_in_impeded_cell_block_when_open.lemma_enc_len();
        other.count_of_vertices_in_impeded_cell_block_when_closed.lemma_enc_len();
        other.index_of_first_vertex_in_the_impeded_cell_block_when_closed.lemma_enc_len();
        other.hit_points.lemma_enc_len();
        other.armor_class.lemma_enc_len();
        other.door_open_sound.lemma_enc_len();
        other.door_close_sound.lemma_enc_len();
        other.cursor_index.lemma_enc_len();
        other.trap_detection_difficulty.lemma_enc_len();
        other.trap_removal_difficulty.lemma_enc_len();
        other.door_is_trapped.lemma_enc_len();
        other.trap_detected.lemma_enc_len();
        other.trap_launch_target_x_coordinate.lemma_enc_len();
        other.trap_launch_target_y_coordinate.lemma_enc_len();
        other.key_item.lemma_enc_len();
        other.door_script.lemma_enc_len();
        other.detection_difficulty.lemma_enc_len();
        other.lock_difficulty.lemma_enc_len();
        lemma_enc_seq_len(other.two_points@);
        other.lockpick_string.lemma_enc_len();
        other.travel_trigger_name.lemma_enc_len();
        other.dialog_speaker_name.lemma_enc_len();
        other.dialog_resref.lemma_enc_len();
        lemma_enc_seq_len(other._unknown@);
        lemma_concat_peel(self.bytes_0_17(), self.bytes_17_34(), other.bytes_0_17(), other.bytes_17_34());
        lemma_concat_peel(self.bytes_0_8(), self.bytes_8_17(), other.bytes_0_8(), other.bytes_8_17());
        lemma_concat_peel(self.bytes_0_4(), self.bytes_4_8(), other.bytes_0_4(), other.bytes_4_8());
        lemma_concat_peel(self.bytes_0_2(), self.bytes_2_4(), other.bytes_0_2(), other.bytes_2_4());
        lemma_concat_peel(self.name.enc(), self.door_id.enc(), other.name.enc(), other.door_id.enc());
        lemma_concat_peel(self.flags.enc(), self.index_of_first_vertex_of_the_door_outline_when_open.enc(), other.flags.enc(), other.index_of_first_vertex_of_the_door_outline_when_open.enc());
        lemma_concat_peel(self.bytes_4_6(), self.bytes_6_8(), other.bytes_4_6(), other.bytes_6_8());
        lemma_concat_peel(self.count_of_vertices_of_the_door_outline_when_open.enc(), self.count_of_vertices_of_the_door_outline_when_closed.enc(), other.count_of_vertices_of_the_door_outline_when_open.enc(), other.count_of_vertices_of_the_door_outline_when_closed.enc());
        lemma_concat_peel(self.index_of_first_vertex_of_the_door_outline_when_closed.enc(), enc_seq(self.minimum_bounding_box_of_the_door_polygon_when_open@), other.index_of_first_vertex_of_the_door_outline_when_closed.enc(), enc_seq(other.minimum_bounding_box_of_the_door_polygon_when_open@));
        lemma_concat_peel(self.bytes_8_12(), self.bytes_12_17(), other.bytes_8_12(), other.bytes_12_17());
        lemma_concat_peel(self.bytes_8_10(), self.bytes_10_12(), other.bytes_8_10(), other.bytes_10_12());
        lemma_concat_peel(enc_seq(self.minimum_bounding_box_of_the_door_polygon_when_closed@), self.index_of_first_vertex_in_the_impeded_cell_block_when_open.enc(), enc_seq(other.minimum_bounding_box_of_the_door_polygon_when_closed@), other.index_of_first_vertex_in_the_impeded_cell_block_when_open.enc());
        lemma_concat_peel(self.count_of_vertices_in_impeded_cell_block_when_open.enc(), self.count_of_vertices_in_impeded_cell_block_when_closed.enc(), other.count_of_vertices_in_impeded_cell_block_when_open.enc(), other.count_of_vertices_in_impeded_cell_block_when_closed.enc());
        lemma_concat_peel(self.bytes_12_14(), self.bytes_14_17(), other.bytes_12_14(), other.bytes_14_17());
        lemma_concat_peel(self.index_of_first_vertex_in_the_impeded_cell_block_when_closed.enc(), self.hit_points.enc(), other.index_of_first_vertex_in_the_impeded_cell_block_when_closed.enc(), other.hit_points.enc());
        lemma_concat_peel(self.armor_class.enc(), self.bytes_15_17(), other.armor_class.enc(), other.bytes_15_17());
        lemma_concat_peel(self.door_open_sound.enc(), self.door_close_sound.enc(), other.door_open_sound.enc(), other.door_close_sound.enc());
        lemma_concat_peel(self.bytes_17_25(), self.bytes_25_34(), other.bytes_17_25(), other.bytes_25_34());
        lemma_concat_peel(self.bytes_17_21(), self.bytes_21_25(), other.bytes_17_21(), other.bytes_21_25());
        lemma_concat_peel(self.bytes_17_19(), self.bytes_19_21(), other.bytes_17_19(), other.bytes_19_21());
        lemma_concat_peel(self.cursor_index.enc(), self.trap_detection_difficulty.enc(), other.cursor_index.enc(), other.trap_detection_difficulty.enc());
        lemma_concat_peel(self.trap_removal_difficulty.enc(), self.door_is_trapped.enc(), other.trap_removal_difficulty.enc(), other.door_is_trapped.enc());
        lemma_concat_peel(self.bytes_21_23(), self.bytes_23_25(), other.bytes_21_23(), other.bytes_23_25());
        lemma_concat_peel(self.trap_detected.enc(), self.trap_launch_target_x_coordinate.enc(), other.trap_detected.enc(), other.trap_launch_target_x_coordinate.enc());
        lemma_concat_peel(self.trap_launch_target_y_coordinate.enc(), self.key_item.enc(), other.trap_launch_target_y_coordinate.enc(), other.key_item.enc());
        lemma_concat_peel(self.bytes_25_29(), self.bytes_29_34(), other.bytes_25_29(), other.bytes_29_34());
        lemma_concat_peel(self.bytes_25_27(), self.bytes_27_29(), other.bytes_25_27(), other.bytes_27_29());
        lemma_concat_peel(self.door_script.enc(), self.detection_difficulty.enc(), other.door_script.enc(), other.detection_difficulty.enc());
        lemma_concat_peel(self.lock_difficulty.enc(), enc_seq(self.two_points@), other.lock_difficulty.enc(), enc_seq(other.two_points@));
        lemma_concat_peel(self.bytes_29_31(), self.bytes_31_34(), other.bytes_29_31(), other.bytes_31_34());
        lemma_concat_peel(self.lockpick_string.enc(), self.travel_trigger_name.enc(), other.lockpick_string.enc(), other.travel_trigger_name.enc());
        lemma_concat_peel(self.dialog_speaker_name.enc(), self.bytes_32_34(), other.dialog_speaker_name.enc(), other.bytes_32_34());
        lemma_concat_peel(self.dialog_resref.enc(), enc_seq(self._unknown@), other.dialog_resref.enc(), enc_seq(other._unknown@));
        self.name.lemma_enc_injective(&other.name);
        self.door_id.lemma_enc_injective(&other.door_id);
        self.flags.lemma_enc_injective(&other.flags);
        self.index_of_first_vertex_of_the_door_outline_when_open.lemma_enc_injective(&other.index_of_first_vertex_of_the_door_outline_when_open);
        self.count_of_vertices_of_the_door_outline_when_open.lemma_enc_injective(&other.count_of_vertices_of_the_door_outline_when_open);
        self.count_of_vertices_of_the_door_outline_when_closed.lemma_enc_injective(&other.count_of_vertices_of_the_door_outline_when_closed);
        self.index_of_first_vertex_of_the_door_outline_when_closed.lemma_enc_injective(&other.index_of_first_vertex_of_the_door_outline_when_closed);
        lemma_enc_seq_injective(self.minimum_bounding_box_of_the_door_polygon_when_open@, other.minimum_bounding_box_of_the_door_polygon_when_open@);
        lemma_enc_seq_injective(self.minimum_bounding_box_of_the_door_polygon_when_closed@, other.minimum_bounding_box_of_the_door_polygon_when_closed@);
        self.index_of_first_vertex_in_the_impeded_cell_block_when_open.lemma_enc_injective(&other.index_of_first_vertex_in_the_impeded_cell_block_when_open);
        self.count_of_vertices_in_impeded_cell_block_when_open.lemma_enc_injective(&other.count_of_vertices_in_impeded_cell_block_when_open);
        self.count_of_vertices_in_impeded_cell_block_when_closed.lemma_enc_injective(&other.count_of_vertices_in_impeded_cell_block_when_closed);
        self.index_of_first_vertex_in_the_impeded_cell_block_when_closed.lemma_enc_injective(&other.index_of_first_vertex_in_the_impeded_cell_block_when_closed);
        self.hit_points.lemma_enc_injective(&other.hit_points);
        self.armor_class.lemma_enc_injective(&other.armor_class);
        self.door_open_sound.lemma_enc_injective(&other.door_open_sound);
        self.door_close_sound.lemma_enc_injective(&other.door_close_sound);
        self.cursor_index.lemma_enc_injective(&other.cursor_index);
        self.trap_detection_difficulty.lemma_enc_injective(&other.trap_detection_difficulty);
        self.trap_removal_difficulty.lemma_enc_injective(&other.trap_removal_difficulty);
        self.door_is_trapped.lemma_enc_injective(&other.door_is_trapped);
        self.trap_detected.lemma_enc_injective(&other.trap_detected);
        self.trap_launch_target_x_coordinate.lemma_enc_injective(&other.trap_launch_target_x_coordinate);
        self.trap_launch_target_y_coordinate.lemma_enc_injective(&other.trap_launch_target_y_coordinate);
        self.key_item.lemma_enc_injective(&other.key_item);
        self.door_script.lemma_enc_injective(&other.door_script);
        self.detection_difficulty.lemma_enc_injective(&other.detection_difficulty);
        self.lock_difficulty.lemma_enc_injective(&other.lock_difficulty);
        lemma_enc_seq_injective(self.two_points@, other.two_points@);
        self.lockpick_string.lemma_enc_injective(&other.lockpick_string);
        self.travel_trigger_name.lemma_enc_injective(&other.travel_trigger_name);
        self.dialog_speaker_name.lemma_enc_injective(&other.dialog_speaker_name);
        self.dialog_resref.lemma_enc_injective(&other.dialog_resref);
        lemma_enc_seq_injective(self._unknown@, other._unknown@);
    }

    #[verifier::rlimit(100)]
    #[verifier::spinoff_prover]
    fn decode(buf: &[u8], pos: usize) -> (v: Self) {
        let len = buf.len();
        let fld0 = <CharArray<32>>::decode(buf, pos + 0);
        let fld1 = <CharArray<8>>::decode(buf, pos + 32);
        let fld2 = u32::decode(buf, pos + 40);
        let fld3 = u32::decode(buf, pos + 44);
        let fld4 = u16::decode(buf, pos + 48);
        let fld5 = u16::decode(buf, pos + 50);
        let fld6 = u32::decode(buf, pos + 52);
        let fld7: [u16; 4] = decode_array(buf, pos + 56, 0u16);
        let fld8: [u16; 4] = decode_array(buf, pos + 64, 0u16);
        let fld9 = u32::decode(buf, pos + 72);
        let fld10 = u16::decode(buf, pos + 76);
        let fld11 = u16::decode(buf, pos + 78);
        let fld12 = u32::decode(buf, pos + 80);
        let fld13 = u16::decode(buf, pos + 84);
        let fld14 = u16::decode(buf, pos + 86);
        let fld15 = Resref::decode(buf, pos + 88);
        let fld16 = Resref::decode(buf, pos + 96);
        let fld17 = u32::decode(buf, pos + 104);
        let fld18 = u16::decode(buf, pos + 108);
        let fld19 = u16::decode(buf, pos + 110);
        let fld20 = u16::decode(buf, pos + 112);
        let fld21 = u16::decode(buf, pos + 114);
        let fld22 = u16::decode(buf, pos + 116);
        let fld23 = u16::decode(buf, pos + 118);
        let fld24 = Resref::decode(buf, pos + 120);
        let fld25 = Resref::decode(buf, pos + 128);
        let fld26 = u32::decode(buf, pos + 136);
        let fld27 = u32::decode(buf, pos + 140);
        let fld28: [u16; 4] = decode_array(buf, pos + 144, 0u16);
        let fld29 = Strref::decode(buf, pos + 152);
        let fld30 = <CharArray<24>>::decode(buf, pos + 156);
        let fld31 = Strref::decode(buf, pos + 180);
        let fld32 = Resref::decode(buf, pos + 184);
        let fld33 = decode_vec::<u8>(buf, pos + 192, 8);
        let v = Door {
            name: fld0,
            door_id: fld1,
            flags: fld2,
            index_of_first_vertex_of_the_door_outline_when_open: fld3,
            count_of_vertices_of_the_door_outline_when_open: fld4,
            count_of_vertices_of_the_door_outline_when_closed: fld5,
            index_of_first_vertex_of_the_door_outline_when_closed: fld6,
            minimum_bounding_box_of_the_door_polygon_when_open: fld7,
            minimum_bounding_box_of_the_door_polygon_when_closed: fld8,
            index_of_first_vertex_in_the_impeded_cell_block_when_open: fld9,
            count_of_vertices_in_impeded_cell_block_when_open: fld10,
            count_of_vertices_in_impeded_cell_block_when_closed: fld11,
            index_of_first_vertex_in_the_impeded_cell_block_when_closed: fld12,
            hit_points: fld13,
            armor_class: fld14,
            door_open_sound: fld15,
            door_close_sound: fld16,
            cursor_index: fld17,
            trap_detection_difficulty: fld18,
            trap_removal_difficulty: fld19,
            door_is_trapped: fld20,
            trap_detected: fld21,
            trap_launch_target_x_coordinate: fld22,
            trap_launch_target_y_coordinate: fld23,
            key_item: fld24,
            door_script: fld25,
            detection_difficulty: fld26,
            lock_difficulty: fld27,
            two_points: fld28,
            lockpick_string: fld29,
            travel_trigger_name: fld30,
            dialog_speaker_name: fld31,
            dialog_resref: fld32,
            _unknown: fld33,
        };
        proof {
            lemma_subrange_concat(buf@, pos + 0, pos + 104, pos + 200);
            lemma_subrange_concat(buf@, pos + 0, pos + 64, pos + 104);
            lemma_subrange_concat(buf@, pos + 0, pos + 48, pos + 64);
            lemma_subrange_concat(buf@, pos + 0, pos + 40, pos + 48);
            lemma_subrange_concat(buf@, pos + 0, pos + 32, pos + 40);
            lemma_subrange_concat(buf@, pos + 40, pos + 44, pos + 48);
            lemma_subrange_concat(buf@, pos + 48, pos + 52, pos + 64);
            lemma_subrange_concat(buf@, pos + 48, pos + 50, pos + 52);
            lemma_subrange_concat(buf@, pos + 52, pos + 56, pos + 64);
            lemma_subrange_concat(buf@, pos + 64, pos + 80, pos + 104);
            lemma_subrange_concat(buf@, pos + 64, pos + 76, pos + 80);
            lemma_subrange_concat(buf@, pos + 64, pos + 72, pos + 76);
            lemma_subrange_concat(buf@, pos + 76, pos + 78, pos + 80);
            lemma_subrange_concat(buf@, pos + 80, pos + 86, pos + 104);
            lemma_subrange_concat(buf@, pos + 80, pos + 84, pos + 86);
            lemma_subrange_concat(buf@, pos + 86, pos + 88, pos + 104);
            lemma_subrange_concat(buf@, pos + 88, pos + 96, pos + 104);
            lemma_subrange_concat(buf@, pos + 104, pos + 128, pos + 200);
            lemma_subrange_concat(buf@, pos + 104, pos + 114, pos + 128);
            lemma_subrange_concat(buf@, pos + 104, pos + 110, pos + 114);
            lemma_subrange_concat(buf@, pos + 104, pos + 108, pos + 110);
            lemma_subrange_concat(buf@, pos + 110, pos + 112, pos + 114);
            lemma_subrange_concat(buf@, pos + 114, pos + 118, pos + 128);
            lemma_subrange_concat(buf@, pos + 114, pos + 116, pos + 118);
            lemma_subrange_concat(buf@, pos + 118, pos + 120, pos + 128);
            lemma_subrange_concat(buf@, pos + 128, pos + 152, pos + 200);
            lemma_subrange_concat(buf@, pos + 128, pos + 140, pos + 152);
            lemma_subrange_concat(buf@, pos + 128, pos + 136, pos + 140);
            lemma_subrange_concat(buf@, pos + 140, pos + 144, pos + 152);
            lemma_subrange_concat(buf@, pos + 152, pos + 180, pos + 200);
            lemma_subrange_concat(buf@, pos + 152, pos + 156, pos + 180);
            lemma_subrange_concat(buf@, pos + 180, pos + 184, pos + 200);
            lemma_subrange_concat(buf@, pos + 184, pos + 192, pos + 200);
        }
        v
    }

    fn encode(&self, out: &mut Vec<u8>) {
        let mut b0 = encoded(&self.name);
        let mut b1 = encoded(&self.door_id);
        let mut b2 = encoded(&self.flags);
        let mut b3 = encoded(&self.index_of_first_vertex_of_the_door_outline_when_open);
        let mut b4 = encoded(&self.count_of_vertices_of_the_door_outline_when_open);
        let mut b5 = encoded(&self.count_of_vertices_of_the_door_outline_when_closed);
        let mut b6 = encoded(&self.index_of_first_vertex_of_the_door_outline_when_closed);
        let mut b7 = encoded_slice(self.minimum_bounding_box_of_the_door_polygon_when_open.as_slice());
        let mut b8 = encoded_slice(self.minimum_bounding_box_of_the_door_polygon_when_closed.as_slice());
        let mut b9 = encoded(&self.index_of_first_vertex_in_the_impeded_cell_block_when_open);
        let mut b10 = encoded(&self.count_of_vertices_in_impeded_cell_block_when_open);
        let mut b11 = encoded(&self.count_of_vertices_in_impeded_cell_block_when_closed);
        let mut b12 = encoded(&self.index_of_first_vertex_in_the_impeded_cell_block_when_closed);
        let mut b13 = encoded(&self.hit_points);
        let mut b14 = encoded(&self.armor_class);
        let mut b15 = encoded(&self.door_open_sound);
        let mut b16 = encoded(&self.door_close_sound);
        let mut b17 = encoded(&self.cursor_index);
        let mut b18 = encoded(&self.trap_detection_difficulty);
        let mut b19 = encoded(&self.trap_removal_difficulty);
        let mut b20 = encoded(&self.door_is_trapped);
        let mut b21 = encoded(&self.trap_detected);
        let mut b22 = encoded(&self.trap_launch_target_x_coordinate);
        let mut b23 = encoded(&self.trap_launch_target_y_coordinate);
        let mut b24 = encoded(&self.key_item);
        let mut b25 = encoded(&self.door_script);
        let mut b26 = encoded(&self.detection_difficulty);
        let mut b27 = encoded(&self.lock_difficulty);
        let mut b28 = encoded_slice(self.two_points.as_slice());
        let mut b29 = encoded(&self.lockpick_string);
        let mut b30 = encoded(&self.travel_trigger_name);
        let mut b31 = encoded(&self.dialog_speaker_name);
        let mut b32 = encoded(&self.dialog_resref);
        let mut b33 = encoded_slice(self._unknown.as_slice());
        b32.append(&mut b33);
        b31.append(&mut b32);
        b29.append(&mut b30);
        b29.append(&mut b31);
        b27.append(&mut b28);
        b25.append(&mut b26);
        b25.append(&mut b27);
        b25.append(&mut b29);
        b23.append(&mut b24);
        b21.append(&mut b22);
        b21.append(&mut b23);
        b19.append(&mut b20);
        b17.append(&mut b18);
        b17.append(&mut b19);
        b17.append(&mut b21);
        b17.append(&mut b25);
        b15.append(&mut b16);
        b14.append(&mut b15);
        b12.append(&mut b13);
        b12.append(&mut b14);
        b10.append(&mut b11);
        b8.append(&mut b9);
        b8.append(&mut b10);
        b8.append(&mut b12);
        b6.append(&mut b7);
        b4.append(&mut b5);
        b4.append(&mut b6);
        b2.append(&mut b3);
        b0.append(&mut b1);
        b0.append(&mut b2);
        b0.append(&mut b4);
        b0.append(&mut b8);
        b0.append(&mut b17);
        out.append(&mut b0);
    }
}

/// https://gibberlings3.github.io/iesdp/file_formats/ie_formats/are_v1.htm#formAREAV1_0_Anim
#[derive(Debug, Clone, PartialEq)]
pub struct Animation {
    pub name: CharArray<32>,
    pub x_coordinate: u16,
    pub y_coordinate: u16,
    pub animation_appearence_schedule: u32,
    /// bgee: bam/wbm/pvrz, others: bam
    pub animation_resref: Resref,
    pub bam_sequence_number: u16,
    pub bam_frame_number: u16,
    pub flags: u32,
    pub height: u16,
    pub transparency: u16,
    /// 0 indicates random frame. synchronized will clear this
    pub starting_frame: u16,
    /// 0 defaults to 100
    pub chance_of_looping: u8,
    pub skip_cycles: u8,
    pub palette: Resref,
    /// note: only required for wbm and pvrz resources (see flags bit 13/15)
    pub animation_width: u16,
    /// only required for wbm and pvrz resources (see flags bit 13/15)
    pub animation_height: u16,
}

impl Animation {
    /// Encoding of the fields 0 to 15, in order.
    pub open spec fn bytes_0_16(&self) -> Seq<u8> {
        self.bytes_0_8() + self.bytes_8_16()
    }

    /// Encoding of the fields 0 to 7, in order.
    pub open spec fn bytes_0_8(&self) -> Seq<u8> {
        self.bytes_0_4() + self.bytes_4_8()
    }

    /// Encoding of the fields 0 to 3, in order.
    pub open spec fn bytes_0_4(&self) -> Seq<u8> {
        self.bytes_0_2() + self.bytes_2_4()
    }

    /// Encoding of the fields 0 to 1, in order.
    pub open spec fn bytes_0_2(&self) -> Seq<u8> {
        self.name.enc() + self.x_coordinate.enc()
    }

    /// Encoding of the fields 2 to 3, in order.
    pub open spec fn bytes_2_4(&self) -> Seq<u8> {
        self.y_coordinate.enc() + self.animation_appearence_schedule.enc()
    }

    /// Encoding of the fields 4 to 7, in order.
    pub open spec fn bytes_4_8(&self) -> Seq<u8> {
        self.bytes_4_6() + self.bytes_6_8()
    }

    /// Encoding of the fields 4 to 5, in order.
    pub open spec fn bytes_4_6(&self) -> Seq<u8> {
        self.animation_resref.enc() + self.bam_sequence_number.enc()
    }

    /// Encoding of the fields 6 to 7, in order.
    pub open spec fn bytes_6_8(&self) -> Seq<u8> {
        self.bam_frame_number.enc() + self.flags.enc()
    }

    /// Encoding of the fields 8 to 15, in order.
    pub open spec fn bytes_8_16(&self) -> Seq<u8> {
        self.bytes_8_12() + self.bytes_12_16()
    }

    /// Encoding of the fields 8 to 11, in order.
    pub open spec fn bytes_8_12(&self) -> Seq<u8> {
        self.bytes_8_10() + self.bytes_10_12()
    }

    /// Encoding of the fields 8 to 9, in order.
    pub open spec fn bytes_8_10(&self) -> Seq<u8> {
        self.height.enc() + self.transparency.enc()
    }

    /// Encoding of the fields 10 to 11, in order.
    pub open spec fn bytes_10_12(&self) -> Seq<u8> {
        self.starting_frame.enc() + self.chance_of_looping.enc()
    }

    /// Encoding of the fields 12 to 15, in order.
    pub open spec fn bytes_12_16(&self) -> Seq<u8> {
        self.bytes_12_14() + self.bytes_14_16()
    }

    /// Encoding of the fields 12 to 13, in order.
    pub open spec fn bytes_12_14(&self) -> Seq<u8> {
        self.skip_cycles.enc() + self.palette.enc()
    }

    /// Encoding of the fields 14 to 15, in order.
    pub open spec fn bytes_14_16(&self) -> Seq<u8> {
        self.animation_width.enc() + self.animation_height.enc()
    }
}

impl Codec for Animation {
    open spec fn width() -> nat {
        76
    }

    open spec fn enc(&self) -> Seq<u8> {
        self.bytes_0_16()
    }

    open spec fn wf(&self) -> bool {
        true
    }

    open spec fn same(&self, other: &Self) -> bool {
        &&& self.name.same(&other.name)
        &&& self.x_coordinate == other.x_coordinate
        &&& self.y_coordinate == other.y_coordinate
        &&& self.animation_appearence_schedule == other.animation_appearence_schedule
        &&& self.animation_resref.same(&other.animation_resref)
        &&& self.bam_sequence_number == other.bam_sequence_number
        &&& self.bam_frame_number == other.bam_frame_number
        &&& self.flags == other.flags
        &&& self.height == other.height
        &&& self.transparency == other.transparency
        &&& self.starting_frame == other.starting_frame
        &&& self.chance_of_looping == other.chance_of_looping
        &&& self.skip_cycles == other.skip_cycles
        &&& self.palette.same(&other.palette)
        &&& self.animation_width == other.animation_width
        &&& self.animation_height == other.animation_height
    }

    fn byte_width() -> (n: usize) {
        76
    }

    fn check_wf(&self) -> (b: bool) {
        true
    }

    proof fn lemma_enc_len(&self) {
        self.name.lemma_enc_len();
        self.x_coordinate.lemma_enc_len();
        self.y_coordinate.lemma_enc_len();
        self.animation_appearence_schedule.lemma_enc_len();
        self.animation_resref.lemma_enc_len();
        self.bam_sequence_number.lemma_enc_len();
        self.bam_frame_number.lemma_enc_len();
        self.flags.lemma_enc_len();
        self.height.lemma_enc_len();
        self.transparency.lemma_enc_len();
        self.starting_frame.lemma_enc_len();
        self.chance_of_looping.lemma_enc_len();
        self.skip_cycles.lemma_enc_len();
        self.palette.lemma_enc_len();
        self.animation_width.lemma_enc_len();
        self.animation_height.lemma_enc_len();
    }

    proof fn lemma_enc_injective(&self, other: &Self) {
        self.name.lemma_enc_len();
        self.x_coordinate.lemma_enc_len();
        self.y_coordinate.lemma_enc_len();
        self.animation_appearence_schedule.lemma_enc_len();
        self.animation_resref.lemma_enc_len();
        self.bam_sequence_number.lemma_enc_len();
        self.bam_frame_number.lemma_enc_len();
        self.flags.lemma_enc_len();
        self.height.lemma_enc_len();
        self.transparency.lemma_enc_len();
        self.starting_frame.lemma_enc_len();
        self.chance_of_looping.lemma_enc_len();
        self.skip_cycles.lemma_enc_len();
        self.palette.lemma_enc_len();
        self.animation_width.lemma_enc_len();
        self.animation_height.lemma_enc_len();
        other.name.lemma_enc_len();
        other.x_coordinate.lemma_enc_len();
        other.y_coordinate.lemma_enc_len();
        other.animation_appearence_schedule.lemma_enc_len();
        other.animation_resref.lemma_enc_len();
        other.bam_sequence_number.lemma_enc_len();
        other.bam_frame_number.lemma_enc_len();
        other.flags.lemma_enc_len();
        other.height.lemma_enc_len();
        other.transparency.lemma_enc_len();
        other.starting_frame.lemma_enc_len();
        other.chance_of_looping.lemma_enc_len();
        other.skip_cycles.lemma_enc_len();
        other.palette.lemma_enc_len();
        other.animation_width.lemma_enc_len();
        other.animation_height.lemma_enc_len();
        lemma_concat_peel(self.bytes_0_8(), self.bytes_8_16(), other.bytes_0_8(), other.bytes_8_16());
        lemma_concat_peel(self.bytes_0_4(), self.bytes_4_8(), other.bytes_0_4(), other.bytes_4_8());
        lemma_concat_peel(self.bytes_0_2(), self.bytes_2_4(), other.bytes_0_2(), other.bytes_2_4());
        lemma_concat_peel(self.name.enc(), self.x_coordinate.enc(), other.name.enc(), other.x_coordinate.enc());
        lemma_concat_peel(self.y_coordinate.enc(), self.animation_appearence_schedule.enc(), other.y_coordinate.enc(), other.animation_appearence_schedule.enc());
        lemma_concat_peel(self.bytes_4_6(), self.bytes_6_8(), other.bytes_4_6(), other.bytes_6_8());
        lemma_concat_peel(self.animation_resref.enc(), self.bam_sequence_number.enc(), other.animation_resref.enc(), other.bam_sequence_number.enc());
        lemma_concat_peel(self.bam_frame_number.enc(), self.flags.enc(), other.bam_frame_number.enc(), other.flags.enc());
        lemma_concat_peel(self.bytes_8_12(), self.bytes_12_16(), other.bytes_8_12(), other.bytes_12_16());
        lemma_concat_peel(self.bytes_8_10(), self.bytes_10_12(), other.bytes_8_10(), other.bytes_10_12());
        lemma_concat_peel(self.height.enc(), self.transparency.enc(), other.height.enc(), other.transparency.enc());
        lemma_concat_peel(self.starting_frame.enc(), self.chance_of_looping.enc(), other.starting_frame.enc(), other.chance_of_looping.enc());
        lemma_concat_peel(self.bytes_12_14(), self.bytes_14_16(), other.bytes_12_14(), other.bytes_14_16());
        lemma_concat_peel(self.skip_cycles.enc(), self.palette.enc(), other.skip_cycles.enc(), other.palette.enc());
        lemma_concat_peel(self.animation_width.enc(), self.animation_height.enc(), other.animation_width.enc(), other.animation_height.enc());
        self.name.lemma_enc_injective(&other.name);
        self.x_coordinate.lemma_enc_injective(&other.x_coordinate);
        self.y_coordinate.lemma_enc_injective(&other.y_coordinate);
        self.animation_appearence_schedule.lemma_enc_injective(&other.animation_appearence_schedule);
        self.animation_resref.lemma_enc_injective(&other.animation_resref);
        self.bam_sequence_number.lemma_enc_injective(&other.bam_sequence_number);
        self.bam_frame_number.lemma_enc_injective(&other.bam_frame_number);
        self.flags.lemma_enc_injective(&other.flags);
        self.height.lemma_enc_injective(&other.height);
        self.transparency.lemma_enc_injective(&other.transparency);
        self.starting_frame.lemma_enc_injective(&other.starting_frame);
        self.chance_of_looping.lemma_enc_injective(&other.chance_of_looping);
        self.skip_cycles.lemma_enc_injective(&other.skip_cycles);
        self.palette.lemma_enc_injective(&other.palette);
        self.animation_width.lemma_enc_injective(&other.animation_width);
        self.animation_height.lemma_enc_injective(&other.animation_height);
    }

    fn decode(buf: &[u8], pos: usize) -> (v: Self) {
        let len = buf.len();
        let fld0 = <CharArray<32>>::decode(buf, pos + 0);
        let fld1 = u16::decode(buf, pos + 32);
        let fld2 = u16::decode(buf, pos + 34);
        let fld3 = u32::decode(buf, pos + 36);
        let fld4 = Resref::decode(buf, pos + 40);
        let fld5 = u16::decode(buf, pos + 48);
        let fld6 = u16::decode(buf, pos + 50);
        let fld7 = u32::decode(buf, pos + 52);
        let fld8 = u16::decode(buf, pos + 56);
        let fld9 = u16::decode(buf, pos + 58);
        let fld10 = u16::decode(buf, pos + 60);
        let fld11 = u8::decode(buf, pos + 62);
        let fld12 = u8::decode(buf, pos + 63);
        let fld13 = Resref::decode(buf, pos + 64);
        let fld14 = u16::decode(buf, pos + 72);
        let fld15 = u16::decode(buf, pos + 74);
        let v = Animation {
            name: fld0,
            x_coordinate: fld1,
            y_coordinate: fld2,
            animation_appearence_schedule: fld3,
            animation_resref: fld4,
            bam_sequence_number: fld5,
            bam_frame_number: fld6,
            flags: fld7,
            height: fld8,
            transparency: fld9,
            starting_frame: fld10,
            chance_of_looping: fld11,
            skip_cycles: fld12,
            palette: fld13,
            animation_width: fld14,
            animation_height: fld15,
        };
        proof {
            lemma_subrange_concat(buf@, pos + 0, pos + 56, pos + 76);
            lemma_subrange_concat(buf@, pos + 0, pos + 40, pos + 56);
            lemma_subrange_concat(buf@, pos + 0, pos + 34, pos + 40);
            lemma_subrange_concat(buf@, pos + 0, pos + 32, pos + 34);
            lemma_subrange_concat(buf@, pos + 34, pos + 36, pos + 40);
            lemma_subrange_concat(buf@, pos + 40, pos + 50, pos + 56);
            lemma_subrange_concat(buf@, pos + 40, pos + 48, pos + 50);
            lemma_subrange_concat(buf@, pos + 50, pos + 52, pos + 56);
            lemma_subrange_concat(buf@, pos + 56, pos + 63, pos + 76);
            lemma_subrange_concat(buf@, pos + 56, pos + 60, pos + 63);
            lemma_subrange_concat(buf@, pos + 56, pos + 58, pos + 60);
            lemma_subrange_concat(buf@, pos + 60, pos + 62, pos + 63);
            lemma_subrange_concat(buf@, pos + 63, pos + 72, pos + 76);
            lemma_subrange_concat(buf@, pos + 63, pos + 64, pos + 72);
            lemma_subrange_concat(buf@, pos + 72, pos + 74, pos + 76);
        }
        v
    }

    fn encode(&self, out: &mut Vec<u8>) {
        let mut b0 = encoded(&self.name);
        let mut b1 = encoded(&self.x_coordinate);
        let mut b2 = encoded(&self.y_coordinate);
        let mut b3 = encoded(&self.animation_appearence_schedule);
        let mut b4 = encoded(&self.animation_resref);
        let mut b5 = encoded(&self.bam_sequence_number);
        let mut b6 = encoded(&self.bam_frame_number);
        let mut b7 = encoded(&self.flags);
        let mut b8 = encoded(&self.height);
        let mut b9 = encoded(&self.transparency);
        let mut b10 = encoded(&self.starting_frame);
        let mut b11 = encoded(&self.chance_of_looping);
        let mut b12 = encoded(&self.skip_cycles);
        let mut b13 = encoded(&self.palette);
        let mut b14 = encoded(&self.animation_width);
        let mut b15 = encoded(&self.animation_height);
        b14.append(&mut b15);
        b12.append(&mut b13);
        b12.append(&mut b14);
        b10.append(&mut b11);
        b8.append(&mut b9);
        b8.append(&mut b10);
        b8.append(&mut b12);
        b6.append(&mut b7);
        b4.append(&mut b5);
        b4.append(&mut b6);
        b2.append(&mut b3);
        b0.append(&mut b1);
        b0.append(&mut b2);
        b0.append(&mut b4);
        b0.append(&mut b8);
        out.append(&mut b0);
    }
}

/// https://gibberlings3.github.io/iesdp/file_formats/ie_formats/are_v1.htm#formAREAV1_0_Automap
#[derive(Debug, Clone, PartialEq)]
pub struct AutomapNotesBGEE {
    pub x_coordinate: u16,
    pub y_coordinate: u16,
    pub note_text: Strref,
    /// 0=external (toh/tot) or 1=internal (tlk)
    pub strref_location: u16,
    /// bg2
    pub colour: u16,
    pub note_count: u32,
    pub _unused: Vec<u8>,
}

impl AutomapNotesBGEE {
    /// Encoding of the fields 0 to 6, in order.
    pub open spec fn bytes_0_7(&self) -> Seq<u8> {
        self.bytes_0_3() + self.bytes_3_7()
    }

    /// Encoding of the fields 0 to 2, in order.
    pub open spec fn bytes_0_3(&self) -> Seq<u8> {
        self.x_coordinate.enc() + self.bytes_1_3()
    }

    /// Encoding of the fields 1 to 2, in order.
    pub open spec fn bytes_1_3(&self) -> Seq<u8> {
        self.y_coordinate.enc() + self.note_text.enc()
    }

    /// Encoding of the fields 3 to 6, in order.
    pub open spec fn bytes_3_7(&self) -> Seq<u8> {
        self.bytes_3_5() + self.bytes_5_7()
    }

    /// Encoding of the fields 3 to 4, in order.
    pub open spec fn bytes_3_5(&self) -> Seq<u8> {
        self.strref_location.enc() + self.colour.enc()
    }

    /// Encoding of the fields 5 to 6, in order.
    pub open spec fn bytes_5_7(&self) -> Seq<u8> {
        self.note_count.enc() + enc_seq(self._unused@)
    }
}

impl Codec for AutomapNotesBGEE {
    open spec fn width() -> nat {
        52
    }

    open spec fn enc(&self) -> Seq<u8> {
        self.bytes_0_7()
    }

    open spec fn wf(&self) -> bool {
        &&& self._unused@.len() == 36
        &&& all_wf(self._unused@)
    }

    open spec fn same(&self, other: &Self) -> bool {
        &&& self.x_coordinate == other.x_coordinate
        &&& self.y_coordinate == other.y_coordinate
        &&& self.note_text.same(&other.note_text)
        &&& self.strref_location == other.strref_location
        &&& self.colour == other.colour
        &&& self.note_count == other.note_count
        &&& seq_same(self._unused@, other._unused@)
    }

    fn byte_width() -> (n: usize) {
        52
    }

    fn check_wf(&self) -> (b: bool) {
        self._unused.len() == 36 && check_all_wf(self._unused.as_slice())
    }

    proof fn lemma_enc_len(&self) {
        self.x_coordinate.lemma_enc_len();
        self.y_coordinate.lemma_enc_len();
        self.note_text.lemma_enc_len();
        self.strref_location.lemma_enc_len();
        self.colour.lemma_enc_len();
        self.note_count.lemma_enc_len();
        lemma_enc_seq_len(self._unused@);
    }

    proof fn lemma_enc_injective(&self, other: &Self) {
        self.x_coordinate.lemma_enc_len();
        self.y_coordinate.lemma_enc_len();
        self.note_text.lemma_enc_len();
        self.strref_location.lemma_enc_len();
        self.colour.lemma_enc_len();
        self.note_count.lemma_enc_len();
        lemma_enc_seq_len(self._unused@);
        other.x_coordinate.lemma_enc_len();
        other.y_coordinate.lemma_enc_len();
        other.note_text.lemma_enc_len();
        other.strref_location.lemma_enc_len();
        other.colour.lemma_enc_len();
        other.note_count.lemma_enc_len();
        lemma_enc_seq_len(other._unused@);
        lemma_concat_peel(self.bytes_0_3(), self.bytes_3_7(), other.bytes_0_3(), other.bytes_3_7());
        lemma_concat_peel(self.x_coordinate.enc(), self.bytes_1_3(), other.x_coordinate.enc(), other.bytes_1_3());
        lemma_concat_peel(self.y_coordinate.enc(), self.note_text.enc(), other.y_coordinate.enc(), other.note_text.enc());
        lemma_concat_peel(self.bytes_3_5(), self.bytes_5_7(), other.bytes_3_5(), other.bytes_5_7());
        lemma_concat_peel(self.strref_location.enc(), self.colour.enc(), other.strref_location.enc(), other.colour.enc());
        lemma_concat_peel(self.note_count.enc(), enc_seq(self._unused@), other.note_count.enc(), enc_seq(other._unused@));
        self.x_coordinate.lemma_enc_injective(&other.x_coordinate);
        self.y_coordinate.lemma_enc_injective(&other.y_coordinate);
        self.note_text.lemma_enc_injective(&other.note_text);
        self.strref_location.lemma_enc_injective(&other.strref_location);
        self.colour.lemma_enc_injective(&other.colour);
        self.note_count.lemma_enc_injective(&other.note_count);
        lemma_enc_seq_injective(self._unused@, other._unused@);
    }

    fn decode(buf: &[u8], pos: usize) -> (v: Self) {
        let len = buf.len();
        let fld0 = u16::decode(buf, pos + 0);
        let fld1 = u16::decode(buf, pos + 2);
        let fld2 = Strref::decode(buf, pos + 4);
        let fld3 = u16::decode(buf, pos + 8);
        let fld4 = u16::decode(buf, pos + 10);
        let fld5 = u32::decode(buf, pos + 12);
        let fld6 = decode_vec::<u8>(buf, pos + 16, 36);
        let v = AutomapNotesBGEE {
            x_coordinate: fld0,
            y_coordinate: fld1,
            note_text: fld2,
            strref_location: fld3,
            colour: fld4,
            note_count: fld5,
            _unused: fld6,
        };
        proof {
            lemma_subrange_concat(buf@, pos + 0, pos + 8, pos + 52);
            lemma_subrange_concat(buf@, pos + 0, pos + 2, pos + 8);
            lemma_subrange_concat(buf@, pos + 2, pos + 4, pos + 8);
            lemma_subrange_concat(buf@, pos + 8, pos + 12, pos + 52);
            lemma_subrange_concat(buf@, pos + 8, pos + 10, pos + 12);
            lemma_subrange_concat(buf@, pos + 12, pos + 16, pos + 52);
        }
        v
    }

    fn encode(&self, out: &mut Vec<u8>) {
        let mut b0 = encoded(&self.x_coordinate);
        let mut b1 = encoded(&self.y_coordinate);
        let mut b2 = encoded(&self.note_text);
        let mut b3 = encoded(&self.strref_location);
        let mut b4 = encoded(&self.colour);
        let mut b5 = encoded(&self.note_count);
        let mut b6 = encoded_slice(self._unused.as_slice());
        b5.append(&mut b6);
        b3.append(&mut b4);
        b3.append(&mut b5);
        b1.append(&mut b2);
        b0.append(&mut b1);
        b0.append(&mut b3);
        out.append(&mut b0);
    }
}

/// https://gibberlings3.github.io/iesdp/file_formats/ie_formats/are_v1.htm#formAREAV1_0_TiledObj
#[derive(Debug, Clone, PartialEq)]
pub struct TiledObject {
    pub name: CharArray<32>,
    pub tile_id: Resref,
    pub flags: u32,
    pub offset_to_open_search_squares: u32,
    pub count_of_open_search_squares: u16,
    pub count_of_closed_search_squares: u16,
    pub offset_to_closed_search_squares: u32,
    pub _unused: Vec<u8>,
}

impl TiledObject {
    /// Encoding of the fields 0 to 7, in order.
    pub open spec fn bytes_0_8(&self) -> Seq<u8> {
        self.bytes_0_4() + self.bytes_4_8()
    }

    /// Encoding of the fields 0 to 3, in order.
    pub open spec fn bytes_0_4(&self) -> Seq<u8> {
        self.bytes_0_2() + self.bytes_2_4()
    }

    /// Encoding of the fields 0 to 1, in order.
    pub open spec fn bytes_0_2(&self) -> Seq<u8> {
        self.name.enc() + self.tile_id.enc()
    }

    /// Encoding of the fields 2 to 3, in order.
    pub open spec fn bytes_2_4(&self) -> Seq<u8> {
        self.flags.enc() + self.offset_to_open_search_squares.enc()
    }

    /// Encoding of the fields 4 to 7, in order.
    pub open spec fn bytes_4_8(&self) -> Seq<u8> {
        self.bytes_4_6() + self.bytes_6_8()
    }

    /// Encoding of the fields 4 to 5, in order.
    pub open spec fn bytes_4_6(&self) -> Seq<u8> {
        self.count_of_open_search_squares.enc() + self.count_of_closed_search_squares.enc()
    }

    /// Encoding of the fields 6 to 7, in order.
    pub open spec fn bytes_6_8(&self) -> Seq<u8> {
        self.offset_to_closed_search_squares.enc() + enc_seq(self._unused@)
    }
}

impl Codec for TiledObject {
    open spec fn width() -> nat {
        104
    }

    open spec fn enc(&self) -> Seq<u8> {
        self.bytes_0_8()
    }

    open spec fn wf(&self) -> bool {
        &&& self._unused@.len() == 48
        &&& all_wf(self._unused@)
    }

    open spec fn same(&self, other: &Self) -> bool {
        &&& self.name.same(&other.name)
        &&& self.tile_id.same(&other.tile_id)
        &&& self.flags == other.flags
        &&& self.offset_to_open_search_squares == other.offset_to_open_search_squares
        &&& self.count_of_open_search_squares == other.count_of_open_search_squares
        &&& self.count_of_closed_search_squares == other.count_of_closed_search_squares
        &&& self.offset_to_closed_search_squares == other.offset_to_closed_search_squares
        &&& seq_same(self._unused@, other._unused@)
    }

    fn byte_width() -> (n: usize) {
        104
    }

    fn check_wf(&self) -> (b: bool) {
        self._unused.len() == 48 && check_all_wf(self._unused.as_slice())
    }

    proof fn lemma_enc_len(&self) {
        self.name.lemma_enc_len();
        self.tile_id.lemma_enc_len();
        self.flags.lemma_enc_len();
        self.offset_to_open_search_squares.lemma_enc_len();
        self.count_of_open_search_squares.lemma_enc_len();
        self.count_of_closed_search_squares.lemma_enc_len();
        self.offset_to_closed_search_squares.lemma_enc_len();
        lemma_enc_seq_len(self._unused@);
    }

    proof fn lemma_enc_injective(&self, other: &Self) {
        self.name.lemma_enc_len();
        self.tile_id.lemma_enc_len();
        self.flags.lemma_enc_len();
        self.offset_to_open_search_squares.lemma_enc_len();
        self.count_of_open_search_squares.lemma_enc_len();
        self.count_of_closed_search_squares.lemma_enc_len();
        self.offset_to_closed_search_squares.lemma_enc_len();
        lemma_enc_seq_len(self._unused@);
        other.name.lemma_enc_len();
        other.tile_id.lemma_enc_len();
        other.flags.lemma_enc_len();
        other.offset_to_open_search_squares.lemma_enc_len();
        other.count_of_open_search_squares.lemma_enc_len();
        other.count_of_closed_search_squares.lemma_enc_len();
        other.offset_to_closed_search_squares.lemma_enc_len();
        lemma_enc_seq_len(other._unused@);
        lemma_concat_peel(self.bytes_0_4(), self.bytes_4_8(), other.bytes_0_4(), other.bytes_4_8());
        lemma_concat_peel(self.bytes_0_2(), self.bytes_2_4(), other.bytes_0_2(), other.bytes_2_4());
        lemma_concat_peel(self.name.enc(), self.tile_id.enc(), other.name.enc(), other.tile_id.enc());
        lemma_concat_peel(self.flags.enc(), self.offset_to_open_search_squares.enc(), other.flags.enc(), other.offset_to_open_search_squares.enc());
        lemma_concat_peel(self.bytes_4_6(), self.bytes_6_8(), other.bytes_4_6(), other.bytes_6_8());
        lemma_concat_peel(self.count_of_open_search_squares.enc(), self.count_of_closed_search_squares.enc(), other.count_of_open_search_squares.enc(), other.count_of_closed_search_squares.enc());
        lemma_concat_peel(self.offset_to_closed_search_squares.enc(), enc_seq(self._unused@), other.offset_to_closed_search_squares.enc(), enc_seq(other._unused@));
        self.name.lemma_enc_injective(&other.name);
        self.tile_id.lemma_enc_injective(&other.tile_id);
        self.flags.lemma_enc_injective(&other.flags);
        self.offset_to_open_search_squares.lemma_enc_injective(&other.offset_to_open_search_squares);
        self.count_of_open_search_squares.lemma_enc_injective(&other.count_of_open_search_squares);
        self.count_of_closed_search_squares.lemma_enc_injective(&other.count_of_closed_search_squares);
        self.offset_to_closed_search_squares.lemma_enc_injective(&other.offset_to_closed_search_squares);
        lemma_enc_seq_injective(self._unused@, other._unused@);
    }

    fn decode(buf: &[u8], pos: usize) -> (v: Self) {
        let len = buf.len();
        let fld0 = <CharArray<32>>::decode(buf, pos + 0);
        let fld1 = Resref::decode(buf, pos + 32);
        let fld2 = u32::decode(buf, pos + 40);
        let fld3 = u32::decode(buf, pos + 44);
        let fld4 = u16::decode(buf, pos + 48);
        let fld5 = u16::decode(buf, pos + 50);
        let fld6 = u32::decode(buf, pos + 52);
        let fld7 = decode_vec::<u8>(buf, pos + 56, 48);
        let v = TiledObject {
            name: fld0,
            tile_id: fld1,
            flags: fld2,
            offset_to_open_search_squares: fld3,
            count_of_open_search_squares: fld4,
            count_of_closed_search_squares: fld5,
            offset_to_closed_search_squares: fld6,
            _unused: fld7,
        };
        proof {
            lemma_subrange_concat(buf@, pos + 0, pos + 48, pos + 104);
            lemma_subrange_concat(buf@, pos + 0, pos + 40, pos + 48);
            lemma_subrange_concat(buf@, pos + 0, pos + 32, pos + 40);
            lemma_subrange_concat(buf@, pos + 40, pos + 44, pos + 48);
            lemma_subrange_concat(buf@, pos + 48, pos + 52, pos + 104);
            lemma_subrange_concat(buf@, pos + 48, pos + 50, pos + 52);
            lemma_subrange_concat(buf@, pos + 52, pos + 56, pos + 104);
        }
        v
    }

    fn encode(&self, out: &mut Vec<u8>) {
        let mut b0 = encoded(&self.name);
        let mut b1 = encoded(&self.tile_id);
        let mut b2 = encoded(&self.flags);
        let mut b3 = encoded(&self.offset_to_open_search_squares);
        let mut b4 = encoded(&self.count_of_open_search_squares);
        let mut b5 = encoded(&self.count_of_closed_search_squares);
        let mut b6 = encoded(&self.offset_to_closed_search_squares);
        let mut b7 = encoded_slice(self._unused.as_slice());
        b6.append(&mut b7);
        b4.append(&mut b5);
        b4.append(&mut b6);
        b2.append(&mut b3);
        b0.append(&mut b1);
        b0.append(&mut b2);
        b0.append(&mut b4);
        out.append(&mut b0);
    }
}

/// https://gibberlings3.github.io/iesdp/file_formats/ie_formats/are_v1.htm#formAREAV1_0_ProjTraps
#[derive(Debug, Clone, PartialEq)]
pub struct ProjectileTrap {
    pub projectile_resref: Resref,
    pub effect_block_offset: u32,
    pub effect_block_size: u16,
    pub missile_ids_reference: u16,
    pub ticks_until_next_trigger_check: u16,
    pub triggers_remaining: u16,
    pub x_coordinate: u16,
    pub y_coordinate: u16,
    pub z_coordinate: u16,
    pub enemy_ally_targetting: u8,
    pub party_member_index: u8,
}

impl ProjectileTrap {
    /// Encoding of the fields 0 to 10, in order.
    pub open spec fn bytes_0_11(&self) -> Seq<u8> {
        self.bytes_0_5() + self.bytes_5_11()
    }

    /// Encoding of the fields 0 to 4, in order.
    pub open spec fn bytes_0_5(&self) -> Seq<u8> {
        self.bytes_0_2() + self.bytes_2_5()
    }

    /// Encoding of the fields 0 to 1, in order.
    pub open spec fn bytes_0_2(&self) -> Seq<u8> {
        self.projectile_resref.enc() + self.effect_block_offset.enc()
    }

    /// Encoding of the fields 2 to 4, in order.
    pub open spec fn bytes_2_5(&self) -> Seq<u8> {
        self.effect_block_size.enc() + self.bytes_3_5()
    }

    /// Encoding of the fields 3 to 4, in order.
    pub open spec fn bytes_3_5(&self) -> Seq<u8> {
        self.missile_ids_reference.enc() + self.ticks_until_next_trigger_check.enc()
    }

    /// Encoding of the fields 5 to 10, in order.
    pub open spec fn bytes_5_11(&self) -> Seq<u8> {
        self.bytes_5_8() + self.bytes_8_11()
    }

    /// Encoding of the fields 5 to 7, in order.
    pub open spec fn bytes_5_8(&self) -> Seq<u8> {
        self.triggers_remaining.enc() + self.bytes_6_8()
    }

    /// Encoding of the fields 6 to 7, in order.
    pub open spec fn bytes_6_8(&self) -> Seq<u8> {
        self.x_coordinate.enc() + self.y_coordinate.enc()
    }

    /// Encoding of the fields 8 to 10, in order.
    pub open spec fn bytes_8_11(&self) -> Seq<u8> {
        self.z_coordinate.enc() + self.bytes_9_11()
    }

    /// Encoding of the fields 9 to 10, in order.
    pub open spec fn bytes_9_11(&self) -> Seq<u8> {
        self.enemy_ally_targetting.enc() + self.party_member_index.enc()
    }
}

impl Codec for ProjectileTrap {
    open spec fn width() -> nat {
        28
    }

    open spec fn enc(&self) -> Seq<u8> {
        self.bytes_0_11()
    }

    open spec fn wf(&self) -> bool {
        true
    }

    open spec fn same(&self, other: &Self) -> bool {
        &&& self.projectile_resref.same(&other.projectile_resref)
        &&& self.effect_block_offset == other.effect_block_offset
        &&& self.effect_block_size == other.effect_block_size
        &&& self.missile_ids_reference == other.missile_ids_reference
        &&& self.ticks_until_next_trigger_check == other.ticks_until_next_trigger_check
        &&& self.triggers_remaining == other.triggers_remaining
        &&& self.x_coordinate == other.x_coordinate
        &&& self.y_coordinate == other.y_coordinate
        &&& self.z_coordinate == other.z_coordinate
        &&& self.enemy_ally_targetting == other.enemy_ally_targetting
        &&& self.party_member_index == other.party_member_index
    }

    fn byte_width() -> (n: usize) {
        28
    }

    fn check_wf(&self) -> (b: bool) {
        true
    }

    proof fn lemma_enc_len(&self) {
        self.projectile_resref.lemma_enc_len();
        self.effect_block_offset.lemma_enc_len();
        self.effect_block_size.lemma_enc_len();
        self.missile_ids_reference.lemma_enc_len();
        self.ticks_until_next_trigger_check.lemma_enc_len();
        self.triggers_remaining.lemma_enc_len();
        self.x_coordinate.lemma_enc_len();
        self.y_coordinate.lemma_enc_len();
        self.z_coordinate.lemma_enc_len();
        self.enemy_ally_targetting.lemma_enc_len();
        self.party_member_index.lemma_enc_len();
    }

    proof fn lemma_enc_injective(&self, other: &Self) {
        self.projectile_resref.lemma_enc_len();
        self.effect_block_offset.lemma_enc_len();
        self.effect_block_size.lemma_enc_len();
        self.missile_ids_reference.lemma_enc_len();
        self.ticks_until_next_trigger_check.lemma_enc_len();
        self.triggers_remaining.lemma_enc_len();
        self.x_coordinate.lemma_enc_len();
        self.y_coordinate.lemma_enc_len();
        self.z_coordinate.lemma_enc_len();
        self.enemy_ally_targetting.lemma_enc_len();
        self.party_member_index.lemma_enc_len();
        other.projectile_resref.lemma_enc_len();
        other.effect_block_offset.lemma_enc_len();
        other.effect_block_size.lemma_enc_len();
        other.missile_ids_reference.lemma_enc_len();
        other.ticks_until_next_trigger_check.lemma_enc_len();
        other.triggers_remaining.lemma_enc_len();
        other.x_coordinate.lemma_enc_len();
        other.y_coordinate.lemma_enc_len();
        other.z_coordinate.lemma_enc_len();
        other.enemy_ally_targetting.lemma_enc_len();
        other.party_member_index.lemma_enc_len();
        lemma_concat_peel(self.bytes_0_5(), self.bytes_5_11(), other.bytes_0_5(), other.bytes_5_11());
        lemma_concat_peel(self.bytes_0_2(), self.bytes_2_5(), other.bytes_0_2(), other.bytes_2_5());
        lemma_concat_peel(self.projectile_resref.enc(), self.effect_block_offset.enc(), other.projectile_resref.enc(), other.effect_block_offset.enc());
        lemma_concat_peel(self.effect_block_size.enc(), self.bytes_3_5(), other.effect_block_size.enc(), other.bytes_3_5());
        lemma_concat_peel(self.missile_ids_reference.enc(), self.ticks_until_next_trigger_check.enc(), other.missile_ids_reference.enc(), other.ticks_until_next_trigger_check.enc());
        lemma_concat_peel(self.bytes_5_8(), self.bytes_8_11(), other.bytes_5_8(), other.bytes_8_11());
        lemma_concat_peel(self.triggers_remaining.enc(), self.bytes_6_8(), other.triggers_remaining.enc(), other.bytes_6_8());
        lemma_concat_peel(self.x_coordinate.enc(), self.y_coordinate.enc(), other.x_coordinate.enc(), other.y_coordinate.enc());
        lemma_concat_peel(self.z_coordinate.enc(), self.bytes_9_11(), other.z_coordinate.enc(), other.bytes_9_11());
        lemma_concat_peel(self.enemy_ally_targetting.enc(), self.party_member_index.enc(), other.enemy_ally_targetting.enc(), other.party_member_index.enc());
        self.projectile_resref.lemma_enc_injective(&other.projectile_resref);
        self.effect_block_offset.lemma_enc_injective(&other.effect_block_offset);
        self.effect_block_size.lemma_enc_injective(&other.effect_block_size);
        self.missile_ids_reference.lemma_enc_injective(&other.missile_ids_reference);
        self.ticks_until_next_trigger_check.lemma_enc_injective(&other.ticks_until_next_trigger_check);
        self.triggers_remaining.lemma_enc_injective(&other.triggers_remaining);
        self.x_coordinate.lemma_enc_injective(&other.x_coordinate);
        self.y_coordinate.lemma_enc_injective(&other.y_coordinate);
        self.z_coordinate.lemma_enc_injective(&other.z_coordinate);
        self.enemy_ally_targetting.lemma_enc_injective(&other.enemy_ally_targetting);
        self.party_member_index.lemma_enc_injective(&other.party_member_index);
    }

    fn decode(buf: &[u8], pos: usize) -> (v: Self) {
        let len = buf.len();
        let fld0 = Resref::decode(buf, pos + 0);
        let fld1 = u32::decode(buf, pos + 8);
        let fld2 = u16::decode(buf, pos + 12);
        let fld3 = u16::decode(buf, pos + 14);
        let fld4 = u16::decode(buf, pos + 16);
        let fld5 = u16::decode(buf, pos + 18);
        let fld6 = u16::decode(buf, pos + 20);
        let fld7 = u16::decode(buf, pos + 22);
        let fld8 = u16::decode(buf, pos + 24);
        let fld9 = u8::decode(buf, pos + 26);
        let fld10 = u8::decode(buf, pos + 27);
        let v = ProjectileTrap {
            projectile_resref: fld0,
            effect_block_offset: fld1,
            effect_block_size: fld2,
            missile_ids_reference: fld3,
            ticks_until_next_trigger_check: fld4,
            triggers_remaining: fld5,
            x_coordinate: fld6,
            y_coordinate: fld7,
            z_coordinate: fld8,
            enemy_ally_targetting: fld9,
            party_member_index: fld10,
        };
        proof {
            lemma_subrange_concat(buf@, pos + 0, pos + 18, pos + 28);
            lemma_subrange_concat(buf@, pos + 0, pos + 12, pos + 18);
            lemma_subrange_concat(buf@, pos + 0, pos + 8, pos + 12);
            lemma_subrange_concat(buf@, pos + 12, pos + 14, pos + 18);
            lemma_subrange_concat(buf@, pos + 14, pos + 16, pos + 18);
            lemma_subrange_concat(buf@, pos + 18, pos + 24, pos + 28);
            lemma_subrange_concat(buf@, pos + 18, pos + 20, pos + 24);
            lemma_subrange_concat(buf@, pos + 20, pos + 22, pos + 24);
            lemma_subrange_concat(buf@, pos + 24, pos + 26, pos + 28);
            lemma_subrange_concat(buf@, pos + 26, pos + 27, pos + 28);
        }
        v
    }

    fn encode(&self, out: &mut Vec<u8>) {
        let mut b0 = encoded(&self.projectile_resref);
        let mut b1 = encoded(&self.effect_block_offset);
        let mut b2 = encoded(&self.effect_block_size);
        let mut b3 = encoded(&self.missile_ids_reference);
        let mut b4 = encoded(&self.ticks_until_next_trigger_check);
        let mut b5 = encoded(&self.triggers_remaining);
        let mut b6 = encoded(&self.x_coordinate);
        let mut b7 = encoded(&self.y_coordinate);
        let mut b8 = encoded(&self.z_coordinate);
        let mut b9 = encoded(&self.enemy_ally_targetting);
        let mut b10 = encoded(&self.party_member_index);
        b9.append(&mut b10);
        b8.append(&mut b9);
        b6.append(&mut b7);
        b5.append(&mut b6);
        b5.append(&mut b8);
        b3.append(&mut b4);
        b2.append(&mut b3);
        b0.append(&mut b1);
        b0.append(&mut b2);
        b0.append(&mut b5);
        out.append(&mut b0);
    }
}

/// https://gibberlings3.github.io/iesdp/file_formats/ie_formats/are_v1.htm#formAREAV1_0_Song_entries
#[derive(Debug, Clone, PartialEq)]
pub struct SongEntry {
    pub day_song_reference_number: u32,
    pub night_song_reference_number: u32,
    pub win_song_reference_number: u32,
    pub battle_song_reference_number: u32,
    pub lose_song_reference_number: u32,
    pub alt_music_1: u32,
    pub alt_music_2: u32,
    pub alt_music_3: u32,
    pub alt_music_4: u32,
    pub alt_music_5: u32,
    pub main_day_ambient_1: Resref,
    pub main_day_ambient_2: Resref,
    pub main_day_ambient_volume_percent: u32,
    pub main_night_ambient_1: Resref,
    pub main_night_ambient_2: Resref,
    pub main_night_ambient_volume_percent: u32,
    pub reverb_or_unused: u32,
    pub _unused: Vec<u8>,
}

impl SongEntry {
    /// Encoding of the fields 0 to 17, in order.
    pub open spec fn bytes_0_18(&self) -> Seq<u8> {
        self.bytes_0_9() + self.bytes_9_18()
    }

    /// Encoding of the fields 0 to 8, in order.
    pub open spec fn bytes_0_9(&self) -> Seq<u8> {
        self.bytes_0_4() + self.bytes_4_9()
    }

    /// Encoding of the fields 0 to 3, in order.
    pub open spec fn bytes_0_4(&self) -> Seq<u8> {
        self.bytes_0_2() + self.bytes_2_4()
    }

    /// Encoding of the fields 0 to 1, in order.
    pub open spec fn bytes_0_2(&self) -> Seq<u8> {
        self.day_song_reference_number.enc() + self.night_song_reference_number.enc()
    }

    /// Encoding of the fields 2 to 3, in order.
    pub open spec fn bytes_2_4(&self) -> Seq<u8> {
        self.win_song_reference_number.enc() + self.battle_song_reference_number.enc()
    }

    /// Encoding of the fields 4 to 8, in order.
    pub open spec fn bytes_4_9(&self) -> Seq<u8> {
        self.bytes_4_6() + self.bytes_6_9()
    }

    /// Encoding of the fields 4 to 5, in order.
    pub open spec fn bytes_4_6(&self) -> Seq<u8> {
        self.lose_song_reference_number.enc() + self.alt_music_1.enc()
    }

    /// Encoding of the fields 6 to 8, in order.
    pub open spec fn bytes_6_9(&self) -> Seq<u8> {
        self.alt_music_2.enc() + self.bytes_7_9()
    }

    /// Encoding of the fields 7 to 8, in order.
    pub open spec fn bytes_7_9(&self) -> Seq<u8> {
        self.alt_music_3.enc() + self.alt_music_4.enc()
    }

    /// Encoding of the fields 9 to 17, in order.
    pub open spec fn bytes_9_18(&self) -> Seq<u8> {
        self.bytes_9_13() + self.bytes_13_18()
    }

    /// Encoding of the fields 9 to 12, in order.
    pub open spec fn bytes_9_13(&self) -> Seq<u8> {
        self.bytes_9_11() + self.bytes_11_13()
    }

    /// Encoding of the fields 9 to 10, in order.
    pub open spec fn bytes_9_11(&self) -> Seq<u8> {
        self.alt_music_5.enc() + self.main_day_ambient_1.enc()
    }

    /// Encoding of the fields 11 to 12, in order.
    pub open spec fn bytes_11_13(&self) -> Seq<u8> {
        self.main_day_ambient_2.enc() + self.main_day_ambient_volume_percent.enc()
    }

    /// Encoding of the fields 13 to 17, in order.
    pub open spec fn bytes_13_18(&self) -> Seq<u8> {
        self.bytes_13_15() + self.bytes_15_18()
    }

    /// Encoding of the fields 13 to 14, in order.
    pub open spec fn bytes_13_15(&self) -> Seq<u8> {
        self.main_night_ambient_1.enc() + self.main_night_ambient_2.enc()
    }

    /// Encoding of the fields 15 to 17, in order.
    pub open spec fn bytes_15_18(&self) -> Seq<u8> {
        self.main_night_ambient_volume_percent.enc() + self.bytes_16_18()
    }

    /// Encoding of the fields 16 to 17, in order.
    pub open spec fn bytes_16_18(&self) -> Seq<u8> {
        self.reverb_or_unused.enc() + enc_seq(self._unused@)
    }
}

impl Codec for SongEntry {
    open spec fn width() -> nat {
        144
    }

    open spec fn enc(&self) -> Seq<u8> {
        self.bytes_0_18()
    }

    open spec fn wf(&self) -> bool {
        &&& self._unused@.len() == 60
        &&& all_wf(self._unused@)
    }

    open spec fn same(&self, other: &Self) -> bool {
        &&& self.day_song_reference_number == other.day_song_reference_number
        &&& self.night_song_reference_number == other.night_song_reference_number
        &&& self.win_song_reference_number == other.win_song_reference_number
        &&& self.battle_song_reference_number == other.battle_song_reference_number
        &&& self.lose_song_reference_number == other.lose_song_reference_number
        &&& self.alt_music_1 == other.alt_music_1
        &&& self.alt_music_2 == other.alt_music_2
        &&& self.alt_music_3 == other.alt_music_3
        &&& self.alt_music_4 == other.alt_music_4
        &&& self.alt_music_5 == other.alt_music_5
        &&& self.main_day_ambient_1.same(&other.main_day_ambient_1)
        &&& self.main_day_ambient_2.same(&other.main_day_ambient_2)
        &&& self.main_day_ambient_volume_percent == other.main_day_ambient_volume_percent
        &&& self.main_night_ambient_1.same(&other.main_night_ambient_1)
        &&& self.main_night_ambient_2.same(&other.main_night_ambient_2)
        &&& self.main_night_ambient_volume_percent == other.main_night_ambient_volume_percent
        &&& self.reverb_or_unused == other.reverb_or_unused
        &&& seq_same(self._unused@, other._unused@)
    }

    fn byte_width() -> (n: usize) {
        144
    }

    fn check_wf(&self) -> (b: bool) {
        self._unused.len() == 60 && check_all_wf(self._unused.as_slice())
    }

    proof fn lemma_enc_len(&self) {
        self.day_song_reference_number.lemma_enc_len();
        self.night_song_reference_number.lemma_enc_len();
        self.win_song_reference_number.lemma_enc_len();
        self.battle_song_reference_number.lemma_enc_len();
        self.lose_song_reference_number.lemma_enc_len();
        self.alt_music_1.lemma_enc_len();
        self.alt_music_2.lemma_enc_len();
        self.alt_music_3.lemma_enc_len();
        self.alt_music_4.lemma_enc_len();
        self.alt_music_5.lemma_enc_len();
        self.main_day_ambient_1.lemma_enc_len();
        self.main_day_ambient_2.lemma_enc_len();
        self.main_day_ambient_volume_percent.lemma_enc_len();
        self.main_night_ambient_1.lemma_enc_len();
        self.main_night_ambient_2.lemma_enc_len();
        self.main_night_ambient_volume_percent.lemma_enc_len();
        self.reverb_or_unused.lemma_enc_len();
        lemma_enc_seq_len(self._unused@);
    }

    proof fn lemma_enc_injective(&self, other: &Self) {
        self.day_song_reference_number.lemma_enc_len();
        self.night_song_reference_number.lemma_enc_len();
        self.win_song_reference_number.lemma_enc_len();
        self.battle_song_reference_number.lemma_enc_len();
        self.lose_song_reference_number.lemma_enc_len();
        self.alt_music_1.lemma_enc_len();
        self.alt_music_2.lemma_enc_len();
        self.alt_music_3.lemma_enc_len();
        self.alt_music_4.lemma_enc_len();
        self.alt_music_5.lemma_enc_len();
        self.main_day_ambient_1.lemma_enc_len();
        self.main_day_ambient_2.lemma_enc_len();
        self.main_day_ambient_volume_percent.lemma_enc_len();
        self.main_night_ambient_1.lemma_enc_len();
        self.main_night_ambient_2.lemma_enc_len();
        self.main_night_ambient_volume_percent.lemma_enc_len();
        self.reverb_or_unused.lemma_enc_len();
        lemma_enc_seq_len(self._unused@);
        other.day_song_reference_number.lemma_enc_len();
        other.night_song_reference_number.lemma_enc_len();
        other.win_song_reference_number.lemma_enc_len();
        other.battle_song_reference_number.lemma_enc_len();
        other.lose_song_reference_number.lemma_enc_len();
        other.alt_music_1.lemma_enc_len();
        other.alt_music_2.lemma_enc_len();
        other.alt_music_3.lemma_enc_len();
        other.alt_music_4.lemma_enc_len();
        other.alt_music_5.lemma_enc_len();
        other.main_day_ambient_1.lemma_enc_len();
        other.main_day_ambient_2.lemma_enc_len();
        other.main_day_ambient_volume_percent.lemma_enc_len();
        other.main_night_ambient_1.lemma_enc_len();
        other.main_night_ambient_2.lemma_enc_len();
        other.main_night_ambient_volume_percent.lemma_enc_len();
        other.reverb_or_unused.lemma_enc_len();
        lemma_enc_seq_len(other._unused@);
        lemma_concat_peel(self.bytes_0_9(), self.bytes_9_18(), other.bytes_0_9(), other.bytes_9_18());
        lemma_concat_peel(self.bytes_0_4(), self.bytes_4_9(), other.bytes_0_4(), other.bytes_4_9());
        lemma_concat_peel(self.bytes_0_2(), self.bytes_2_4(), other.bytes_0_2(), other.bytes_2_4());
        lemma_concat_peel(self.day_song_reference_number.enc(), self.night_song_reference_number.enc(), other.day_song_reference_number.enc(), other.night_song_reference_number.enc());
        lemma_concat_peel(self.win_song_reference_number.enc(), self.battle_song_reference_number.enc(), other.win_song_reference_number.enc(), other.battle_song_reference_number.enc());
        lemma_concat_peel(self.bytes_4_6(), self.bytes_6_9(), other.bytes_4_6(), other.bytes_6_9());
        lemma_concat_peel(self.lose_song_reference_number.enc(), self.alt_music_1.enc(), other.lose_song_reference_number.enc(), other.alt_music_1.enc());
        lemma_concat_peel(self.alt_music_2.enc(), self.bytes_7_9(), other.alt_music_2.enc(), other.bytes_7_9());
        lemma_concat_peel(self.alt_music_3.enc(), self.alt_music_4.enc(), other.alt_music_3.enc(), other.alt_music_4.enc());
        lemma_concat_peel(self.bytes_9_13(), self.bytes_13_18(), other.bytes_9_13(), other.bytes_13_18());
        lemma_concat_peel(self.bytes_9_11(), self.bytes_11_13(), other.bytes_9_11(), other.bytes_11_13());
        lemma_concat_peel(self.alt_music_5.enc(), self.main_day_ambient_1.enc(), other.alt_music_5.enc(), other.main_day_ambient_1.enc());
        lemma_concat_peel(self.main_day_ambient_2.enc(), self.main_day_ambient_volume_percent.enc(), other.main_day_ambient_2.enc(), other.main_day_ambient_volume_percent.enc());
        lemma_concat_peel(self.bytes_13_15(), self.bytes_15_18(), other.bytes_13_15(), other.bytes_15_18());
        lemma_concat_peel(self.main_night_ambient_1.enc(), self.main_night_ambient_2.enc(), other.main_night_ambient_1.enc(), other.main_night_ambient_2.enc());
        lemma_concat_peel(self.main_night_ambient_volume_percent.enc(), self.bytes_16_18(), other.main_night_ambient_volume_percent.enc(), other.bytes_16_18());
        lemma_concat_peel(self.reverb_or_unused.enc(), enc_seq(self._unused@), other.reverb_or_unused.enc(), enc_seq(other._unused@));
        self.day_song_reference_number.lemma_enc_injective(&other.day_song_reference_number);
        self.night_song_reference_number.lemma_enc_injective(&other.night_song_reference_number);
        self.win_song_reference_number.lemma_enc_injective(&other.win_song_reference_number);
        self.battle_song_reference_number.lemma_enc_injective(&other.battle_song_reference_number);
        self.lose_song_reference_number.lemma_enc_injective(&other.lose_song_reference_number);
        self.alt_music_1.lemma_enc_injective(&other.alt_music_1);
        self.alt_music_2.lemma_enc_injective(&other.alt_music_2);
        self.alt_music_3.lemma_enc_injective(&other.alt_music_3);
        self.alt_music_4.lemma_enc_injective(&other.alt_music_4);
        self.alt_music_5.lemma_enc_injective(&other.alt_music_5);
        self.main_day_ambient_1.lemma_enc_injective(&other.main_day_ambient_1);
        self.main_day_ambient_2.lemma_enc_injective(&other.main_day_ambient_2);
        self.main_day_ambient_volume_percent.lemma_enc_injective(&other.main_day_ambient_volume_percent);
        self.main_night_ambient_1.lemma_enc_injective(&other.main_night_ambient_1);
        self.main_night_ambient_2.lemma_enc_injective(&other.main_night_ambient_2);
        self.main_night_ambient_volume_percent.lemma_enc_injective(&other.main_night_ambient_volume_percent);
        self.reverb_or_unused.lemma_enc_injective(&other.reverb_or_unused);
        lemma_enc_seq_injective(self._unused@, other._unused@);
    }

    fn decode(buf: &[u8], pos: usize) -> (v: Self) {
        let len = buf.len();
        let fld0 = u32::decode(buf, pos + 0);
        let fld1 = u32::decode(buf, pos + 4);
        let fld2 = u32::decode(buf, pos + 8);
        let fld3 = u32::decode(buf, pos + 12);
        let fld4 = u32::decode(buf, pos + 16);
        let fld5 = u32::decode(buf, pos + 20);
        let fld6 = u32::decode(buf, pos + 24);
        let fld7 = u32::decode(buf, pos + 28);
        let fld8 = u32::decode(buf, pos + 32);
        let fld9 = u32::decode(buf, pos + 36);
        let fld10 = Resref::decode(buf, pos + 40);
        let fld11 = Resref::decode(buf, pos + 48);
        let fld12 = u32::decode(buf, pos + 56);
        let fld13 = Resref::decode(buf, pos + 60);
        let fld14 = Resref::decode(buf, pos + 68);
        let fld15 = u32::decode(buf, pos + 76);
        let fld16 = u32::decode(buf, pos + 80);
        let fld17 = decode_vec::<u8>(buf, pos + 84, 60);
        let v = SongEntry {
            day_song_reference_number: fld0,
            night_song_reference_number: fld1,
            win_song_reference_number: fld2,
            battle_song_reference_number: fld3,
            lose_song_reference_number: fld4,
            alt_music_1: fld5,
            alt_music_2: fld6,
            alt_music_3: fld7,
            alt_music_4: fld8,
            alt_music_5: fld9,
            main_day_ambient_1: fld10,
            main_day_ambient_2: fld11,
            main_day_ambient_volume_percent: fld12,
            main_night_ambient_1: fld13,
            main_night_ambient_2: fld14,
            main_night_ambient_volume_percent: fld15,
            reverb_or_unused: fld16,
            _unused: fld17,
        };
        proof {
            lemma_subrange_concat(buf@, pos + 0, pos + 36, pos + 144);
            lemma_subrange_concat(buf@, pos + 0, pos + 16, pos + 36);
            lemma_subrange_concat(buf@, pos + 0, pos + 8, pos + 16);
            lemma_subrange_concat(buf@, pos + 0, pos + 4, pos + 8);
            lemma_subrange_concat(buf@, pos + 8, pos + 12, pos + 16);
            lemma_subrange_concat(buf@, pos + 16, pos + 24, pos + 36);
            lemma_subrange_concat(buf@, pos + 16, pos + 20, pos + 24);
            lemma_subrange_concat(buf@, pos + 24, pos + 28, pos + 36);
            lemma_subrange_concat(buf@, pos + 28, pos + 32, pos + 36);
            lemma_subrange_concat(buf@, pos + 36, pos + 60, pos + 144);
            lemma_subrange_concat(buf@, pos + 36, pos + 48, pos + 60);
            lemma_subrange_concat(buf@, pos + 36, pos + 40, pos + 48);
            lemma_subrange_concat(buf@, pos + 48, pos + 56, pos + 60);
            lemma_subrange_concat(buf@, pos + 60, pos + 76, pos + 144);
            lemma_subrange_concat(buf@, pos + 60, pos + 68, pos + 76);
            lemma_subrange_concat(buf@, pos + 76, pos + 80, pos + 144);
            lemma_subrange_concat(buf@, pos + 80, pos + 84, pos + 144);
        }
        v
    }

    fn encode(&self, out: &mut Vec<u8>) {
        let mut b0 = encoded(&self.day_song_reference_number);
        let mut b1 = encoded(&self.night_song_reference_number);
        let mut b2 = encoded(&self.win_song_reference_number);
        let mut b3 = encoded(&self.battle_song_reference_number);
        let mut b4 = encoded(&self.lose_song_reference_number);
        let mut b5 = encoded(&self.alt_music_1);
        let mut b6 = encoded(&self.alt_music_2);
        let mut b7 = encoded(&self.alt_music_3);
        let mut b8 = encoded(&self.alt_music_4);
        let mut b9 = encoded(&self.alt_music_5);
        let mut b10 = encoded(&self.main_day_ambient_1);
        let mut b11 = encoded(&self.main_day_ambient_2);
        let mut b12 = encoded(&self.main_day_ambient_volume_percent);
        let mut b13 = encoded(&self.main_night_ambient_1);
        let mut b14 = encoded(&self.main_night_ambient_2);
        let mut b15 = encoded(&self.main_night_ambient_volume_percent);
        let mut b16 = encoded(&self.reverb_or_unused);
        let mut b17 = encoded_slice(self._unused.as_slice());
        b16.append(&mut b17);
        b15.append(&mut b16);
        b13.append(&mut b14);
        b13.append(&mut b15);
        b11.append(&mut b12);
        b9.append(&mut b10);
        b9.append(&mut b11);
        b9.append(&mut b13);
        b7.append(&mut b8);
        b6.append(&mut b7);
        b4.append(&mut b5);
        b4.append(&mut b6);
        b2.append(&mut b3);
        b0.append(&mut b1);
        b0.append(&mut b2);
        b0.append(&mut b4);
        b0.append(&mut b9);
        out.append(&mut b0);
    }
}

/// https://gibberlings3.github.io/iesdp/file_formats/ie_formats/are_v1.htm#formAREAV1_0_Rest_Interruptions
#[derive(Debug, Clone, PartialEq)]
pub struct RestInterruption {
    pub name: CharArray<32>,
    pub interruption_explanation_text: CharArray<40>,
    pub resref_of_creature_to_spawn: Vec<Resref>,
    pub count_of_creatures_in_spawn_table: u16,
    pub difficulty: u16,
    pub removal_time: u32,
    pub movement_restriction_distance: u16,
    pub movement_restriction_distance_move_to_object: u16,
    pub maximum_number_of_creatures_to_spawn: u16,
    /// 0=inactive, 1=active
    pub interruption_point_enabled: u16,
    pub probability_day_per_hour: u16,
    pub probability_night_per_hour: u16,
    pub _unused: Vec<u8>,
}

impl RestInterruption {
    /// Encoding of the fields 0 to 12, in order.
    pub open spec fn bytes_0_13(&self) -> Seq<u8> {
        self.bytes_0_6() + self.bytes_6_13()
    }

    /// Encoding of the fields 0 to 5, in order.
    pub open spec fn bytes_0_6(&self) -> Seq<u8> {
        self.bytes_0_3() + self.bytes_3_6()
    }

    /// Encoding of the fields 0 to 2, in order.
    pub open spec fn bytes_0_3(&self) -> Seq<u8> {
        self.name.enc() + self.bytes_1_3()
    }

    /// Encoding of the fields 1 to 2, in order.
    pub open spec fn bytes_1_3(&self) -> Seq<u8> {
        self.interruption_explanation_text.enc() + enc_seq(self.resref_of_creature_to_spawn@)
    }

    /// Encoding of the fields 3 to 5, in order.
    pub open spec fn bytes_3_6(&self) -> Seq<u8> {
        self.count_of_creatures_in_spawn_table.enc() + self.bytes_4_6()
    }

    /// Encoding of the fields 4 to 5, in order.
    pub open spec fn bytes_4_6(&self) -> Seq<u8> {
        self.difficulty.enc() + self.removal_time.enc()
    }

    /// Encoding of the fields 6 to 12, in order.
    pub open spec fn bytes_6_13(&self) -> Seq<u8> {
        self.bytes_6_9() + self.bytes_9_13()
    }

    /// Encoding of the fields 6 to 8, in order.
    pub open spec fn bytes_6_9(&self) -> Seq<u8> {
        self.movement_restriction_distance.enc() + self.bytes_7_9()
    }

    /// Encoding of the fields 7 to 8, in order.
    pub open spec fn bytes_7_9(&self) -> Seq<u8> {
        self.movement_restriction_distance_move_to_object.enc() + self.maximum_number_of_creatures_to_spawn.enc()
    }

    /// Encoding of the fields 9 to 12, in order.
    pub open spec fn bytes_9_13(&self) -> Seq<u8> {
        self.bytes_9_11() + self.bytes_11_13()
    }

    /// Encoding of the fields 9 to 10, in order.
    pub open spec fn bytes_9_11(&self) -> Seq<u8> {
        self.interruption_point_enabled.enc() + self.probability_day_per_hour.enc()
    }

    /// Encoding of the fields 11 to 12, in order.
    pub open spec fn bytes_11_13(&self) -> Seq<u8> {
        self.probability_night_per_hour.enc() + enc_seq(self._unused@)
    }
}

impl Codec for RestInterruption {
    open spec fn width() -> nat {
        228
    }

    open spec fn enc(&self) -> Seq<u8> {
        self.bytes_0_13()
    }

    open spec fn wf(&self) -> bool {
        &&& self.resref_of_creature_to_spawn@.len() == 10
        &&& all_wf(self.resref_of_creature_to_spawn@)
        &&& self._unused@.len() == 56
        &&& all_wf(self._unused@)
    }

    open spec fn same(&self, other: &Self) -> bool {
        &&& self.name.same(&other.name)
        &&& self.interruption_explanation_text.same(&other.interruption_explanation_text)
        &&& seq_same(self.resref_of_creature_to_spawn@, other.resref_of_creature_to_spawn@)
        &&& self.count_of_creatures_in_spawn_table == other.count_of_creatures_in_spawn_table
        &&& self.difficulty == other.difficulty
        &&& self.removal_time == other.removal_time
        &&& self.movement_restriction_distance == other.movement_restriction_distance
        &&& self.movement_restriction_distance_move_to_object == other.movement_restriction_distance_move_to_object
        &&& self.maximum_number_of_creatures_to_spawn == other.maximum_number_of_creatures_to_spawn
        &&& self.interruption_point_enabled == other.interruption_point_enabled
        &&& self.probability_day_per_hour == other.probability_day_per_hour
        &&& self.probability_night_per_hour == other.probability_night_per_hour
        &&& seq_same(self._unused@, other._unused@)
    }

    fn byte_width() -> (n: usize) {
        228
    }

    fn check_wf(&self) -> (b: bool) {
        self.resref_of_creature_to_spawn.len() == 10 && check_all_wf(self.resref_of_creature_to_spawn.as_slice()) && self._unused.len() == 56 && check_all_wf(self._unused.as_slice())
    }

    proof fn lemma_enc_len(&self) {
        self.name.lemma_enc_len();
        self.interruption_explanation_text.lemma_enc_len();
        lemma_enc_seq_len(self.resref_of_creature_to_spawn@);
        self.count_of_creatures_in_spawn_table.lemma_enc_len();
        self.difficulty.lemma_enc_len();
        self.removal_time.lemma_enc_len();
        self.movement_restriction_distance.lemma_enc_len();
        self.movement_restriction_distance_move_to_object.lemma_enc_len();
        self.maximum_number_of_creatures_to_spawn.lemma_enc_len();
        self.interruption_point_enabled.lemma_enc_len();
        self.probability_day_per_hour.lemma_enc_len();
        self.probability_night_per_hour.lemma_enc_len();
        lemma_enc_seq_len(self._unused@);
    }

    proof fn lemma_enc_injective(&self, other: &Self) {
        self.name.lemma_enc_len();
        self.interruption_explanation_text.lemma_enc_len();
        lemma_enc_seq_len(self.resref_of_creature_to_spawn@);
        self.count_of_creatures_in_spawn_table.lemma_enc_len();
        self.difficulty.lemma_enc_len();
        self.removal_time.lemma_enc_len();
        self.movement_restriction_distance.lemma_enc_len();
        self.movement_restriction_distance_move_to_object.lemma_enc_len();
        self.maximum_number_of_creatures_to_spawn.lemma_enc_len();
        self.interruption_point_enabled.lemma_enc_len();
        self.probability_day_per_hour.lemma_enc_len();
        self.probability_night_per_hour.lemma_enc_len();
        lemma_enc_seq_len(self._unused@);
        other.name.lemma_enc_len();
        other.interruption_explanation_text.lemma_enc_len();
        lemma_enc_seq_len(other.resref_of_creature_to_spawn@);
        other.count_of_creatures_in_spawn_table.lemma_enc_len();
        other.difficulty.lemma_enc_len();
        other.removal_time.lemma_enc_len();
        other.movement_restriction_distance.lemma_enc_len();
        other.movement_restriction_distance_move_to_object.lemma_enc_len();
        other.maximum_number_of_creatures_to_spawn.lemma_enc_len();
        other.interruption_point_enabled.lemma_enc_len();
        other.probability_day_per_hour.lemma_enc_len();
        other.probability_night_per_hour.lemma_enc_len();
        lemma_enc_seq_len(other._unused@);
        lemma_concat_peel(self.bytes_0_6(), self.bytes_6_13(), other.bytes_0_6(), other.bytes_6_13());
        lemma_concat_peel(self.bytes_0_3(), self.bytes_3_6(), other.bytes_0_3(), other.bytes_3_6());
        lemma_concat_peel(self.name.enc(), self.bytes_1_3(), other.name.enc(), other.bytes_1_3());
        lemma_concat_peel(self.interruption_explanation_text.enc(), enc_seq(self.resref_of_creature_to_spawn@), other.interruption_explanation_text.enc(), enc_seq(other.resref_of_creature_to_spawn@));
        lemma_concat_peel(self.count_of_creatures_in_spawn_table.enc(), self.bytes_4_6(), other.count_of_creatures_in_spawn_table.enc(), other.bytes_4_6());
        lemma_concat_peel(self.difficulty.enc(), self.removal_time.enc(), other.difficulty.enc(), other.removal_time.enc());
        lemma_concat_peel(self.bytes_6_9(), self.bytes_9_13(), other.bytes_6_9(), other.bytes_9_13());
        lemma_concat_peel(self.movement_restriction_distance.enc(), self.bytes_7_9(), other.movement_restriction_distance.enc(), other.bytes_7_9());
        lemma_concat_peel(self.movement_restriction_distance_move_to_object.enc(), self.maximum_number_of_creatures_to_spawn.enc(), other.movement_restriction_distance_move_to_object.enc(), other.maximum_number_of_creatures_to_spawn.enc());
        lemma_concat_peel(self.bytes_9_11(), self.bytes_11_13(), other.bytes_9_11(), other.bytes_11_13());
        lemma_concat_peel(self.interruption_point_enabled.enc(), self.probability_day_per_hour.enc(), other.interruption_point_enabled.enc(), other.probability_day_per_hour.enc());
        lemma_concat_peel(self.probability_night_per_hour.enc(), enc_seq(self._unused@), other.probability_night_per_hour.enc(), enc_seq(other._unused@));
        self.name.lemma_enc_injective(&other.name);
        self.interruption_explanation_text.lemma_enc_injective(&other.interruption_explanation_text);
        lemma_enc_seq_injective(self.resref_of_creature_to_spawn@, other.resref_of_creature_to_spawn@);
        self.count_of_creatures_in_spawn_table.lemma_enc_injective(&other.count_of_creatures_in_spawn_table);
        self.difficulty.lemma_enc_injective(&other.difficulty);
        self.removal_time.lemma_enc_injective(&other.removal_time);
        self.movement_restriction_distance.lemma_enc_injective(&other.movement_restriction_distance);
        self.movement_restriction_distance_move_to_object.lemma_enc_injective(&other.movement_restriction_distance_move_to_object);
        self.maximum_number_of_creatures_to_spawn.lemma_enc_injective(&other.maximum_number_of_creatures_to_spawn);
        self.interruption_point_enabled.lemma_enc_injective(&other.interruption_point_enabled);
        self.probability_day_per_hour.lemma_enc_injective(&other.probability_day_per_hour);
        self.probability_night_per_hour.lemma_enc_injective(&other.probability_night_per_hour);
        lemma_enc_seq_injective(self._unused@, other._unused@);
    }

    fn decode(buf: &[u8], pos: usize) -> (v: Self) {
        let len = buf.len();
        let fld0 = <CharArray<32>>::decode(buf, pos + 0);
        let fld1 = <CharArray<40>>::decode(buf, pos + 32);
        let fld2 = decode_vec::<Resref>(buf, pos + 72, 10);
        let fld3 = u16::decode(buf, pos + 152);
        let fld4 = u16::decode(buf, pos + 154);
        let fld5 = u32::decode(buf, pos + 156);
        let fld6 = u16::decode(buf, pos + 160);
        let fld7 = u16::decode(buf, pos + 162);
        let fld8 = u16::decode(buf, pos + 164);
        let fld9 = u16::decode(buf, pos + 166);
        let fld10 = u16::decode(buf, pos + 168);
        let fld11 = u16::decode(buf, pos + 170);
        let fld12 = decode_vec::<u8>(buf, pos + 172, 56);
        let v = RestInterruption {
            name: fld0,
            interruption_explanation_text: fld1,
            resref_of_creature_to_spawn: fld2,
            count_of_creatures_in_spawn_table: fld3,
            difficulty: fld4,
            removal_time: fld5,
            movement_restriction_distance: fld6,
            movement_restriction_distance_move_to_object: fld7,
            maximum_number_of_creatures_to_spawn: fld8,
            interruption_point_enabled: fld9,
            probability_day_per_hour: fld10,
            probability_night_per_hour: fld11,
            _unused: fld12,
        };
        proof {
            lemma_subrange_concat(buf@, pos + 0, pos + 160, pos + 228);
            lemma_subrange_concat(buf@, pos + 0, pos + 152, pos + 160);
            lemma_subrange_concat(buf@, pos + 0, pos + 32, pos + 152);
            lemma_subrange_concat(buf@, pos + 32, pos + 72, pos + 152);
            lemma_subrange_concat(buf@, pos + 152, pos + 154, pos + 160);
            lemma_subrange_concat(buf@, pos + 154, pos + 156, pos + 160);
            lemma_subrange_concat(buf@, pos + 160, pos + 166, pos + 228);
            lemma_subrange_concat(buf@, pos + 160, pos + 162, pos + 166);
            lemma_subrange_concat(buf@, pos + 162, pos + 164, pos + 166);
            lemma_subrange_concat(buf@, pos + 166, pos + 170, pos + 228);
            lemma_subrange_concat(buf@, pos + 166, pos + 168, pos + 170);
            lemma_subrange_concat(buf@, pos + 170, pos + 172, pos + 228);
        }
        v
    }

    fn encode(&self, out: &mut Vec<u8>) {
        let mut b0 = encoded(&self.name);
        let mut b1 = encoded(&self.interruption_explanation_text);
        let mut b2 = encoded_slice(self.resref_of_creature_to_spawn.as_slice());
        let mut b3 = encoded(&self.count_of_creatures_in_spawn_table);
        let mut b4 = encoded(&self.difficulty);
        let mut b5 = encoded(&self.removal_time);
        let mut b6 = encoded(&self.movement_restriction_distance);
        let mut b7 = encoded(&self.movement_restriction_distance_move_to_object);
        let mut b8 = encoded(&self.maximum_number_of_creatures_to_spawn);
        let mut b9 = encoded(&self.interruption_point_enabled);
        let mut b10 = encoded(&self.probability_day_per_hour);
        let mut b11 = encoded(&self.probability_night_per_hour);
        let mut b12 = encoded_slice(self._unused.as_slice());
        b11.append(&mut b12);
        b9.append(&mut b10);
        b9.append(&mut b11);
        b7.append(&mut b8);
        b6.append(&mut b7);
        b6.append(&mut b9);
        b4.append(&mut b5);
        b3.append(&mut b4);
        b1.append(&mut b2);
        b0.append(&mut b1);
        b0.append(&mut b3);
        b0.append(&mut b6);
        out.append(&mut b0);
    }
}

/// An area file: the header, every table it places, and the bytes it was read from.
/// <https://gibberlings3.github.io/iesdp/file_formats/ie_formats/are_v1.htm>
#[derive(Debug)]
pub struct Area {
    /// The whole file; it is what an area is written back as.
    pub original_bytes: Vec<u8>,
    pub header: FileHeader,
    pub actors: Vec<Actor>,
    pub regions: Vec<Region>,
    pub spawn_points: Vec<SpawnPoint>,
    pub entrances: Vec<Entrance>,
    pub containers: Vec<Container>,
    pub items: Vec<Item>,
    pub vertices: Vec<Vertice>,
    pub ambients: Vec<Ambient>,
    pub variables: Vec<Variable>,
    pub explored_bitmasks: Vec<ExploredBitmask>,
    pub doors: Vec<Door>,
    pub animations: Vec<Animation>,
    pub automap_notes: Vec<AutomapNotesBGEE>,
    pub tiled_objects: Vec<TiledObject>,
    pub projectile_traps: Vec<ProjectileTrap>,
    pub songs: SongEntry,
    pub rest_interruptions: RestInterruption,
}

impl Area {
    /// Every table that the header `h` places lies inside a buffer of `len` bytes.
    pub open spec fn tables_fit(h: FileHeader, len: nat) -> bool {
        &&& section_ok(len, h.offset_to_actors as int, h.count_of_actors as int, Actor::width())
        &&& section_ok(len, h.offset_to_regions as int, h.count_of_regions as int, Region::width())
        &&& section_ok(len, h.offset_to_spawn_points as int, h.count_of_spawn_points as int, SpawnPoint::width())
        &&& section_ok(len, h.offset_to_entrances as int, h.count_of_entrances as int, Entrance::width())
        &&& section_ok(len, h.offset_to_containers as int, h.count_of_containers as int, Container::width())
        &&& section_ok(len, h.offset_to_items as int, h.count_of_items as int, Item::width())
        &&& section_ok(len, h.offset_to_vertices as int, h.count_of_vertices as int, Vertice::width())
        &&& section_ok(len, h.offset_to_ambients as int, h.count_of_ambients as int, Ambient::width())
        &&& section_ok(len, h.offset_to_variables as int, h.count_of_variables as int, Variable::width())
        &&& section_ok(len, h.offset_to_explored_bitmask as int, h.size_of_explored_bitmask as int, ExploredBitmask::width())
        &&& section_ok(len, h.offset_to_doors as int, h.count_of_doors as int, Door::width())
        &&& section_ok(len, h.offset_to_animations as int, h.count_of_animations as int, Animation::width())
        &&& section_ok(len, h.offset_to_automap_notes as int, h.count_of_automap_notes as int, AutomapNotesBGEE::width())
        &&& section_ok(len, h.offset_to_tiled_objects as int, h.count_of_tiled_objects as int, TiledObject::width())
        &&& section_ok(len, h.offset_to_projectile_traps as int, h.number_of_entries_in_the_projectile_traps as int, ProjectileTrap::width())
        &&& h.offset_to_song_entries + SongEntry::width() <= len
        &&& h.offset_to_rest_interruptions + RestInterruption::width() <= len
    }
}

impl Model for Area {
    open spec fn spec_parses(buffer: Seq<u8>) -> bool {
        &&& FileHeader::width() <= buffer.len()
        &&& Self::tables_fit(decoded_at::<FileHeader>(buffer, 0), buffer.len())
    }

    open spec fn parsed_from(&self, buffer: Seq<u8>) -> bool {
        &&& self.original_bytes@ == buffer
        &&& record_parsed(self.header, buffer, 0)
        &&& section_parsed(self.actors@, buffer, self.header.offset_to_actors as int, self.header.count_of_actors as int)
        &&& section_parsed(self.regions@, buffer, self.header.offset_to_regions as int, self.header.count_of_regions as int)
        &&& section_parsed(self.spawn_points@, buffer, self.header.offset_to_spawn_points as int, self.header.count_of_spawn_points as int)
        &&& section_parsed(self.entrances@, buffer, self.header.offset_to_entrances as int, self.header.count_of_entrances as int)
        &&& section_parsed(self.containers@, buffer, self.header.offset_to_containers as int, self.header.count_of_containers as int)
        &&& section_parsed(self.items@, buffer, self.header.offset_to_items as int, self.header.count_of_items as int)
        &&& section_parsed(self.vertices@, buffer, self.header.offset_to_vertices as int, self.header.count_of_vertices as int)
        &&& section_parsed(self.ambients@, buffer, self.header.offset_to_ambients as int, self.header.count_of_ambients as int)
        &&& section_parsed(self.variables@, buffer, self.header.offset_to_variables as int, self.header.count_of_variables as int)
        &&& section_parsed(self.explored_bitmasks@, buffer, self.header.offset_to_explored_bitmask as int, self.header.size_of_explored_bitmask as int)
        &&& section_parsed(self.doors@, buffer, self.header.offset_to_doors as int, self.header.count_of_doors as int)
        &&& section_parsed(self.animations@, buffer, self.header.offset_to_animations as int, self.header.count_of_animations as int)
        &&& section_parsed(self.automap_notes@, buffer, self.header.offset_to_automap_notes as int, self.header.count_of_automap_notes as int)
        &&& section_parsed(self.tiled_objects@, buffer, self.header.offset_to_tiled_objects as int, self.header.count_of_tiled_objects as int)
        &&& section_parsed(self.projectile_traps@, buffer, self.header.offset_to_projectile_traps as int, self.header.number_of_entries_in_the_projectile_traps as int)
        &&& record_parsed(self.songs, buffer, self.header.offset_to_song_entries as int)
        &&& record_parsed(self.rest_interruptions, buffer, self.header.offset_to_rest_interruptions as int)
    }

    open spec fn spec_writable(&self) -> bool {
        true
    }

    fn writable(&self) -> (b: bool) {
        true
    }

    open spec fn spec_bytes(&self) -> Seq<u8> {
        self.original_bytes@
    }

    fn parse(buffer: &[u8]) -> (r: Option<Self>) {
        let header = match read_at::<FileHeader>(buffer, 0) {
            Some(h) => h,
            None => return None,
        };
        proof {
            lemma_decoded_at(buffer@, 0, header);
        }
        let actors = match read_section::<Actor>(buffer, header.offset_to_actors as u64, header.count_of_actors as u64) {
            Some(v) => v,
            None => return None,
        };
        let regions = match read_section::<Region>(buffer, header.offset_to_regions as u64, header.count_of_regions as u64) {
            Some(v) => v,
            None => return None,
        };
        let spawn_points = match read_section::<SpawnPoint>(buffer, header.offset_to_spawn_points as u64, header.count_of_spawn_points as u64) {
            Some(v) => v,
            None => return None,
        };
        let entrances = match read_section::<Entrance>(buffer, header.offset_to_entrances as u64, header.count_of_entrances as u64) {
            Some(v) => v,
            None => return None,
        };
        let containers = match read_section::<Container>(buffer, header.offset_to_containers as u64, header.count_of_containers as u64) {
            Some(v) => v,
            None => return None,
        };
        let items = match read_section::<Item>(buffer, header.offset_to_items as u64, header.count_of_items as u64) {
            Some(v) => v,
            None => return None,
        };
        let vertices = match read_section::<Vertice>(buffer, header.offset_to_vertices as u64, header.count_of_vertices as u64) {
            Some(v) => v,
            None => return None,
        };
        let ambients = match read_section::<Ambient>(buffer, header.offset_to_ambients as u64, header.count_of_ambients as u64) {
            Some(v) => v,
            None => return None,
        };
        let variables = match read_section::<Variable>(buffer, header.offset_to_variables as u64, header.count_of_variables as u64) {
            Some(v) => v,
            None => return None,
        };
        let explored_bitmasks = match read_section::<ExploredBitmask>(buffer, header.offset_to_explored_bitmask as u64, header.size_of_explored_bitmask as u64) {
            Some(v) => v,
            None => return None,
        };
        let doors = match read_section::<Door>(buffer, header.offset_to_doors as u64, header.count_of_doors as u64) {
            Some(v) => v,
            None => return None,
        };
        let animations = match read_section::<Animation>(buffer, header.offset_to_animations as u64, header.count_of_animations as u64) {
            Some(v) => v,
            None => return None,
        };
        let automap_notes = match read_section::<AutomapNotesBGEE>(buffer, header.offset_to_automap_notes as u64, header.count_of_automap_notes as u64) {
            Some(v) => v,
            None => return None,
        };
        let tiled_objects = match read_section::<TiledObject>(buffer, header.offset_to_tiled_objects as u64, header.count_of_tiled_objects as u64) {
            Some(v) => v,
            None => return None,
        };
        let projectile_traps = match read_section::<ProjectileTrap>(buffer, header.offset_to_projectile_traps as u64, header.number_of_entries_in_the_projectile_traps as u64) {
            Some(v) => v,
            None => return None,
        };
        let songs = match read_at::<SongEntry>(buffer, header.offset_to_song_entries as u64) {
            Some(v) => v,
            None => return None,
        };
        let rest_interruptions = match read_at::<RestInterruption>(buffer, header.offset_to_rest_interruptions as u64) {
            Some(v) => v,
            None => return None,
        };
        let original_bytes = vstd::slice::slice_to_vec(buffer);
        Some(Area { original_bytes, header, actors, regions, spawn_points, entrances, containers, items, vertices, ambients, variables, explored_bitmasks, doors, animations, automap_notes, tiled_objects, projectile_traps, songs, rest_interruptions })
    }

    fn to_bytes(&self) -> (b: Vec<u8>) {
        self.original_bytes.clone()
    }
}

} // verus!
