//! Readers and writers for the binary game files of the Infinity Engine
//! (Baldur's Gate Enhanced Edition and Baldur's Gate II Enhanced Edition).
use vstd::prelude::*;

pub mod area;
pub mod bam;
pub mod biff;
pub mod bio;
pub mod character;
pub mod common;
pub mod creature;
pub mod dialog;
pub mod dialogue;
pub mod effect_v1;
pub mod effect_v2;
pub mod game;
pub mod ids;
pub mod item;
pub mod item_table;
pub mod key;
pub mod laws;
pub mod model;
pub mod resources;
pub mod save;
pub mod spell;
pub mod spell_table;
pub mod store;
pub mod tileset;
pub mod tlk;
pub mod twoda;
pub mod utils;
pub mod world_map;

use area::Area;
use bio::Biography;
use character::ExpandedCharacter;
use common::types::ResourceType;
use creature::Creature;
use dialogue::Dialogue;
use effect_v2::EffectV2;
use game::Game;
use ids::Ids;
use item::Item;
use key::Key;
use model::Model;
use save::Save;
use spell::Spell;
use store::Store;
use tileset::Tileset;
use twoda::TwoDA;
use vstd::string::StringSliceAdditionalSpecFns;
use vstd::utf8::{decode_utf8, valid_utf8};
use world_map::WorldMap;

verus! {

/// Why a buffer could not be read or written.
#[derive(Debug, Clone, Copy, PartialEq, Eq, Structural)]
pub enum Error {
    /// The resource type has no reader or writer here.
    NotImplemented,
    /// The buffer ends before the fixed-size header it must start with.
    HeaderTooShort,
    /// A table lies outside the buffer.
    MissingEntries,
    /// A signature or version field is not four bytes long.
    WrongTagLength,
    /// Text that must be UTF-8 is not.
    InvalidUtf8,
    /// A fixed-size header was copied into an output buffer of another
    /// size.
    HeaderNotWritten,
    /// A zlib stream could not be read to its end.
    Decompress,
}


/// A resource of any of the types this library reads.
#[derive(Debug)]
pub enum IEModels<'a> {
    Area(Area),
    Biography(Biography),
    Creature(Creature),
    Dialogue(Dialogue),
    EffectV2(EffectV2),
    ExpandedCharacter(ExpandedCharacter),
    Game(Game),
    Ids(Ids<'a>),
    Item(Item),
    Key(Key),
    Save(Save),
    Spell(Spell),
    Store(Store),
    Tileset(Tileset<'a>),
    TwoDA(TwoDA),
    WorldMap(WorldMap),
}

impl<'a> IEModels<'a> {
    /// Writing the resource does not panic.
    pub open spec fn writable(&self) -> bool {
        match self {
            IEModels::Area(m) => m.spec_writable(),
            IEModels::Biography(m) => m.spec_writable(),
            IEModels::Creature(m) => m.spec_writable(),
            IEModels::Dialogue(m) => m.spec_writable(),
            IEModels::EffectV2(m) => m.spec_writable(),
            IEModels::ExpandedCharacter(m) => m.spec_writable(),
            IEModels::Game(m) => m.spec_writable(),
            IEModels::Item(m) => m.spec_writable(),
            IEModels::Spell(m) => m.spec_writable(),
            IEModels::Store(m) => m.spec_writable(),
            IEModels::TwoDA(m) => m.spec_writable(),
            IEModels::WorldMap(m) => m.spec_writable(),
            IEModels::Ids(_) | IEModels::Key(_) | IEModels::Save(_) | IEModels::Tileset(_) => true,
        }
    }

    /// What writing the resource gives: its bytes, or why it fails.
    pub open spec fn written(&self) -> Result<Seq<u8>, Error> {
        match self {
            IEModels::Area(m) => Ok(m.spec_bytes()),
            IEModels::Biography(m) => Ok(m.spec_bytes()),
            IEModels::Creature(m) => Ok(m.spec_bytes()),
            IEModels::Dialogue(m) => Ok(m.spec_bytes()),
            IEModels::EffectV2(m) => Ok(m.spec_bytes()),
            IEModels::ExpandedCharacter(m) => Ok(m.spec_bytes()),
            IEModels::Game(m) => Ok(m.spec_bytes()),
            IEModels::Item(m) => Ok(m.spec_bytes()),
            IEModels::Spell(m) => Ok(m.spec_bytes()),
            IEModels::Store(m) => Ok(m.spec_bytes()),
            IEModels::TwoDA(m) => Ok(m.spec_bytes()),
            IEModels::WorldMap(m) => Ok(m.spec_bytes()),
            IEModels::Ids(ids) => Ok(ids.data.spec_bytes()),
            IEModels::Key(_) => Err(Error::HeaderNotWritten),
            IEModels::Save(s) => Ok(s.signature.0@ + s.version.0@ + Save::files_bytes(s.files@)),
            IEModels::Tileset(t) => Ok(t.data@),
        }
    }

    /// Writes the resource back to bytes.
    pub fn to_bytes(self) -> (r: Result<Vec<u8>, Error>)
        requires
            self.writable(),
        ensures
            match self.written() {
                Ok(s) => r matches Ok(b) && b@ == s,
                Err(e) => r is Err && r->Err_0 == e,
            },
    {
        match self {
            IEModels::Area(m) => Ok(m.to_bytes()),
            IEModels::Biography(m) => Ok(m.to_bytes()),
            IEModels::Creature(m) => Ok(m.to_bytes()),
            IEModels::Dialogue(m) => Ok(m.to_bytes()),
            IEModels::EffectV2(m) => Ok(m.to_bytes()),
            IEModels::ExpandedCharacter(m) => Ok(m.to_bytes()),
            IEModels::Game(m) => Ok(m.to_bytes()),
            IEModels::Ids(m) => m.try_into(),
            IEModels::Item(m) => Ok(m.to_bytes()),
            IEModels::Key(m) => m.try_into(),
            IEModels::Save(m) => m.try_into(),
            IEModels::Spell(m) => Ok(m.to_bytes()),
            IEModels::Store(m) => Ok(m.to_bytes()),
            IEModels::Tileset(m) => m.try_into(),
            IEModels::TwoDA(m) => Ok(m.to_bytes()),
            IEModels::WorldMap(m) => Ok(m.to_bytes()),
        }
    }

    /// Reading a buffer as a resource of type `t` does not panic: the
    /// formats read whole require a readable buffer, and the key file one
    /// that reads to its end.
    pub open spec fn loadable(buffer: Seq<u8>, t: ResourceType) -> bool {
        match t {
            ResourceType::FileTypeItm => Item::spec_parses(buffer),
            ResourceType::FileTypeSpl => Spell::spec_parses(buffer),
            ResourceType::FileTypeCre => Creature::spec_parses(buffer),
            ResourceType::FileTypeAre => Area::spec_parses(buffer),
            ResourceType::FileTypeDlg => Dialogue::spec_parses(buffer),
            ResourceType::FileType2da => TwoDA::spec_parses(buffer),
            ResourceType::FileTypeGam => Game::spec_parses(buffer),
            ResourceType::FileTypeSto => Store::spec_parses(buffer),
            ResourceType::FileTypeWmap => WorldMap::spec_parses(buffer),
            ResourceType::FileTypeEff => EffectV2::spec_parses(buffer),
            ResourceType::FileTypeChr => ExpandedCharacter::spec_parses(buffer),
            ResourceType::FileTypeBio => Biography::spec_parses(buffer),
            ResourceType::FileTypeKey => Key::loadable(buffer),
            _ => true,
        }
    }

    /// Whether reading `buffer` as a resource of type `t` does not panic,
    /// as `loadable` says.
    pub fn is_loadable(buffer: &[u8], t: ResourceType) -> (b: bool)
        ensures
            b == IEModels::loadable(buffer@, t),
    {
        match t {
            ResourceType::FileTypeItm => Item::parse(buffer).is_some(),
            ResourceType::FileTypeSpl => Spell::parse(buffer).is_some(),
            ResourceType::FileTypeCre => Creature::parse(buffer).is_some(),
            ResourceType::FileTypeAre => Area::parse(buffer).is_some(),
            ResourceType::FileTypeDlg => Dialogue::parse(buffer).is_some(),
            ResourceType::FileType2da => TwoDA::parse(buffer).is_some(),
            ResourceType::FileTypeGam => Game::parse(buffer).is_some(),
            ResourceType::FileTypeSto => Store::parse(buffer).is_some(),
            ResourceType::FileTypeWmap => WorldMap::parse(buffer).is_some(),
            ResourceType::FileTypeEff => EffectV2::parse(buffer).is_some(),
            ResourceType::FileTypeChr => ExpandedCharacter::parse(buffer).is_some(),
            ResourceType::FileTypeBio => Biography::parse(buffer).is_some(),
            ResourceType::FileTypeKey => Key::check_loadable(buffer),
            _ => true,
        }
    }

    /// Whether writing the resource does not panic, as `writable` says.
    pub fn is_writable(&self) -> (b: bool)
        ensures
            b == self.writable(),
    {
        match self {
            IEModels::Area(m) => m.writable(),
            IEModels::Biography(m) => m.writable(),
            IEModels::Creature(m) => m.writable(),
            IEModels::Dialogue(m) => m.writable(),
            IEModels::EffectV2(m) => m.writable(),
            IEModels::ExpandedCharacter(m) => m.writable(),
            IEModels::Game(m) => m.writable(),
            IEModels::Item(m) => m.writable(),
            IEModels::Spell(m) => m.writable(),
            IEModels::Store(m) => m.writable(),
            IEModels::TwoDA(m) => m.writable(),
            IEModels::WorldMap(m) => m.writable(),
            IEModels::Ids(_) | IEModels::Key(_) | IEModels::Save(_) | IEModels::Tileset(_) => true,
        }
    }

    /// Why reading a buffer as a resource of type `t` fails, if it does:
    /// the types without a reader here fail with `NotImplemented`; text
    /// identifiers that are not UTF-8, saved games shorter than their tags
    /// and key files fail as their readers say.
    pub open spec fn read_error(buffer: Seq<u8>, t: ResourceType) -> Option<Error> {
        match t {
            ResourceType::FileTypeTi | ResourceType::FileTypeItm | ResourceType::FileTypeSpl | ResourceType::FileTypeCre
            | ResourceType::FileTypeAre | ResourceType::FileTypeDlg | ResourceType::FileType2da | ResourceType::FileTypeGam
            | ResourceType::FileTypeSto | ResourceType::FileTypeWmap | ResourceType::FileTypeEff | ResourceType::FileTypeChr
            | ResourceType::FileTypeBio => None,
            ResourceType::FileTypeIds => if valid_utf8(buffer) { None } else { Some(Error::InvalidUtf8) },
            ResourceType::FileTypeSave => if buffer.len() >= 8 { None } else { Some(Error::WrongTagLength) },
            ResourceType::FileTypeKey => Key::read_error(buffer),
            _ => Some(Error::NotImplemented),
        }
    }

    /// `self` is the resource of type `t` read from `buffer`.
    pub open spec fn read_from(&self, buffer: Seq<u8>, t: ResourceType) -> bool {
        match t {
            ResourceType::FileTypeTi => self matches IEModels::Tileset(m) && m.data@ == buffer,
            ResourceType::FileTypeItm => self matches IEModels::Item(m) && m.parsed_from(buffer),
            ResourceType::FileTypeSpl => self matches IEModels::Spell(m) && m.parsed_from(buffer),
            ResourceType::FileTypeIds => self matches IEModels::Ids(m) && m.data@ == decode_utf8(buffer),
            ResourceType::FileTypeCre => self matches IEModels::Creature(m) && m.parsed_from(buffer),
            ResourceType::FileTypeAre => self matches IEModels::Area(m) && m.parsed_from(buffer),
            ResourceType::FileTypeDlg => self matches IEModels::Dialogue(m) && m.parsed_from(buffer),
            ResourceType::FileType2da => self matches IEModels::TwoDA(m) && m.parsed_from(buffer),
            ResourceType::FileTypeGam => self matches IEModels::Game(m) && m.parsed_from(buffer),
            ResourceType::FileTypeSto => self matches IEModels::Store(m) && m.parsed_from(buffer),
            ResourceType::FileTypeWmap => self matches IEModels::WorldMap(m) && m.parsed_from(buffer),
            ResourceType::FileTypeEff => self matches IEModels::EffectV2(m) && m.parsed_from(buffer),
            ResourceType::FileTypeChr => self matches IEModels::ExpandedCharacter(m) && m.parsed_from(buffer),
            ResourceType::FileTypeBio => self matches IEModels::Biography(m) && m.parsed_from(buffer),
            ResourceType::FileTypeSave => self matches IEModels::Save(m) && {
                &&& m.signature.0@ == buffer.subrange(0, 4)
                &&& m.version.0@ == buffer.subrange(4, 8)
                &&& m.files@.len() == 0
            },
            ResourceType::FileTypeKey => self matches IEModels::Key(m) && m.read_from(buffer),
            _ => false,
        }
    }
}

/// Reads `buffer` as a resource of type `resource_type`.
pub fn from_buffer_with_resouce_type<'a>(buffer: &'a [u8], resource_type: ResourceType) -> (r: Result<IEModels<'a>, Error>)
    requires
        IEModels::loadable(buffer@, resource_type),
    ensures
        match IEModels::read_error(buffer@, resource_type) {
            Some(e) => r is Err && r->Err_0 == e,
            None => r matches Ok(m) && m.read_from(buffer@, resource_type),
        },
{
    match resource_type {
        ResourceType::FileTypeTi => match Tileset::try_from(buffer) {
            Ok(t) => Ok(IEModels::Tileset(t)),
            Err(e) => Err(e),
        },
        ResourceType::FileTypeItm => Ok(IEModels::Item(Item::new(buffer))),
        ResourceType::FileTypeSpl => Ok(IEModels::Spell(Spell::new(buffer))),
        ResourceType::FileTypeIds => match Ids::try_from(buffer) {
            Ok(ids) => Ok(IEModels::Ids(ids)),
            Err(e) => Err(e),
        },
        ResourceType::FileTypeCre => Ok(IEModels::Creature(Creature::new(buffer))),
        ResourceType::FileTypeAre => Ok(IEModels::Area(Area::new(buffer))),
        ResourceType::FileTypeDlg => Ok(IEModels::Dialogue(Dialogue::new(buffer))),
        ResourceType::FileType2da => Ok(IEModels::TwoDA(TwoDA::new(buffer))),
        ResourceType::FileTypeGam => Ok(IEModels::Game(Game::new(buffer))),
        ResourceType::FileTypeSto => Ok(IEModels::Store(Store::new(buffer))),
        ResourceType::FileTypeWmap => Ok(IEModels::WorldMap(WorldMap::new(buffer))),
        ResourceType::FileTypeEff => Ok(IEModels::EffectV2(EffectV2::new(buffer))),
        ResourceType::FileTypeChr => Ok(IEModels::ExpandedCharacter(ExpandedCharacter::new(buffer))),
        ResourceType::FileTypeBio => Ok(IEModels::Biography(Biography::new(buffer))),
        ResourceType::FileTypeSave => match Save::try_from(buffer) {
            Ok(s) => Ok(IEModels::Save(s)),
            Err(e) => Err(e),
        },
        ResourceType::FileTypeKey => match Key::try_from(buffer) {
            Ok(k) => Ok(IEModels::Key(k)),
            Err(e) => Err(e),
        },
        _ => Err(Error::NotImplemented),
    }
}

/// The resource type of `code`, or `NotFound` for a code that names none.
pub open spec fn type_of_code(code: u16) -> ResourceType {
    match ResourceType::spec_from_code(code) {
        Some(t) => t,
        None => ResourceType::NotFound,
    }
}

/// Reads `buffer` as a resource whose type has the code `resource_type`;
/// a code that names no type fails with `NotImplemented`.
pub fn from_buffer<'a>(buffer: &'a [u8], resource_type: u16) -> (r: Result<IEModels<'a>, Error>)
    requires
        IEModels::loadable(buffer@, type_of_code(resource_type)),
    ensures
        match IEModels::read_error(buffer@, type_of_code(resource_type)) {
            Some(e) => r is Err && r->Err_0 == e,
            None => r matches Ok(m) && m.read_from(buffer@, type_of_code(resource_type)),
        },
{
    match ResourceType::from_code(resource_type) {
        Some(t) => from_buffer_with_resouce_type(buffer, t),
        None => Err(Error::NotImplemented),
    }
}

} // verus!
