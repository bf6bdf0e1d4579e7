//! Resource types and the extensions and codes that name them.
use vstd::prelude::*;

use crate::common::text::{ascii_lowercase, chars_equal, to_ascii_lowercase};

verus! {

/// The resource types of the Infinity Engine, as listed in the key file.
/// <https://gibberlings3.github.io/iesdp/file_formats/general.htm#FileFormats>
#[derive(Debug, Copy, Clone, Hash, PartialEq, Eq, Structural)]
pub enum ResourceType {
    NotFound,
    FileTypeBmp,
    FileTypeMve,
    FileTypeWav,
    FileTypeWfx,
    FileTypePlt,
    FileTypeBam,
    FileTypeWed,
    FileTypeChu,
    FileTypeTi,
    FileTypeMos,
    FileTypeItm,
    FileTypeSpl,
    FileTypeBcs,
    FileTypeIds,
    FileTypeCre,
    FileTypeAre,
    FileTypeDlg,
    FileType2da,
    FileTypeGam,
    FileTypeSto,
    FileTypeWmap,
    FileTypeEff,
    FileTypeBs,
    FileTypeChr,
    FileTypeVvc,
    FileTypeVef,
    FileTypePro,
    FileTypeBio,
    FileTypeWbm,
    FileTypeFnt,
    FileTypeGui,
    FileTypeSql,
    FileTypePvrz,
    FileTypeGlsl,
    FileTypeTlk,
    FileTypeMenu,
    FileTypeMenu2,
    FileTypeTtf,
    FileTypePng,
    FileTypeBah,
    FileTypeIni,
    FileTypeSrc,
    // Invented types for files that carry no type code of their own:
    FileTypeKey,
    FileTypeBiff,
    FileTypeSave,
}

impl ResourceType {
    /// The 16-bit type code the key and biff files use for this type.
    pub open spec fn spec_code(self) -> u16 {
        match self {
            ResourceType::NotFound => 0x0000,
            ResourceType::FileTypeBmp => 0x0001,
            ResourceType::FileTypeMve => 0x0002,
            ResourceType::FileTypeWav => 0x0004,
            ResourceType::FileTypeWfx => 0x0005,
            ResourceType::FileTypePlt => 0x0006,
            ResourceType::FileTypeBam => 0x03e8,
            ResourceType::FileTypeWed => 0x03e9,
            ResourceType::FileTypeChu => 0x03ea,
            ResourceType::FileTypeTi => 0x03eb,
            ResourceType::FileTypeMos => 0x03ec,
            ResourceType::FileTypeItm => 0x03ed,
            ResourceType::FileTypeSpl => 0x03ee,
            ResourceType::FileTypeBcs => 0x03ef,
            ResourceType::FileTypeIds => 0x03f0,
            ResourceType::FileTypeCre => 0x03f1,
            ResourceType::FileTypeAre => 0x03f2,
            ResourceType::FileTypeDlg => 0x03f3,
            ResourceType::FileType2da => 0x03f4,
            ResourceType::FileTypeGam => 0x03f5,
            ResourceType::FileTypeSto => 0x03f6,
            ResourceType::FileTypeWmap => 0x03f7,
            ResourceType::FileTypeEff => 0x03f8,
            ResourceType::FileTypeBs => 0x03f9,
            ResourceType::FileTypeChr => 0x03fa,
            ResourceType::FileTypeVvc => 0x03fb,
            ResourceType::FileTypeVef => 0x03fc,
            ResourceType::FileTypePro => 0x03fd,
            ResourceType::FileTypeBio => 0x03fe,
            ResourceType::FileTypeWbm => 0x03ff,
            ResourceType::FileTypeFnt => 0x0400,
            ResourceType::FileTypeGui => 0x0402,
            ResourceType::FileTypeSql => 0x0403,
            ResourceType::FileTypePvrz => 0x0404,
            ResourceType::FileTypeGlsl => 0x0405,
            ResourceType::FileTypeTlk => 0x0407,
            ResourceType::FileTypeMenu => 0x0408,
            ResourceType::FileTypeMenu2 => 0x0409,
            ResourceType::FileTypeTtf => 0x040a,
            ResourceType::FileTypePng => 0x040b,
            ResourceType::FileTypeBah => 0x044c,
            ResourceType::FileTypeIni => 0x0802,
            ResourceType::FileTypeSrc => 0x0803,
            ResourceType::FileTypeKey => 0x1000,
            ResourceType::FileTypeBiff => 0x1001,
            ResourceType::FileTypeSave => 0x1002,
        }
    }

    /// The type whose code is `code`, if any.
    pub open spec fn spec_from_code(code: u16) -> Option<ResourceType> {
        if code == 0x0000 {
            Some(ResourceType::NotFound)
        } else if code == 0x0001 {
            Some(ResourceType::FileTypeBmp)
        } else if code == 0x0002 {
            Some(ResourceType::FileTypeMve)
        } else if code == 0x0004 {
            Some(ResourceType::FileTypeWav)
        } else if code == 0x0005 {
            Some(ResourceType::FileTypeWfx)
        } else if code == 0x0006 {
            Some(ResourceType::FileTypePlt)
        } else if code == 0x03e8 {
            Some(ResourceType::FileTypeBam)
        } else if code == 0x03e9 {
            Some(ResourceType::FileTypeWed)
        } else if code == 0x03ea {
            Some(ResourceType::FileTypeChu)
        } else if code == 0x03eb {
            Some(ResourceType::FileTypeTi)
        } else if code == 0x03ec {
            Some(ResourceType::FileTypeMos)
        } else if code == 0x03ed {
            Some(ResourceType::FileTypeItm)
        } else if code == 0x03ee {
            Some(ResourceType::FileTypeSpl)
        } else if code == 0x03ef {
            Some(ResourceType::FileTypeBcs)
        } else if code == 0x03f0 {
            Some(ResourceType::FileTypeIds)
        } else if code == 0x03f1 {
            Some(ResourceType::FileTypeCre)
        } else if code == 0x03f2 {
            Some(ResourceType::FileTypeAre)
        } else if code == 0x03f3 {
            Some(ResourceType::FileTypeDlg)
        } else if code == 0x03f4 {
            Some(ResourceType::FileType2da)
        } else if code == 0x03f5 {
            Some(ResourceType::FileTypeGam)
        } else if code == 0x03f6 {
            Some(ResourceType::FileTypeSto)
        } else if code == 0x03f7 {
            Some(ResourceType::FileTypeWmap)
        } else if code == 0x03f8 {
            Some(ResourceType::FileTypeEff)
        } else if code == 0x03f9 {
            Some(ResourceType::FileTypeBs)
        } else if code == 0x03fa {
            Some(ResourceType::FileTypeChr)
        } else if code == 0x03fb {
            Some(ResourceType::FileTypeVvc)
        } else if code == 0x03fc {
            Some(ResourceType::FileTypeVef)
        } else if code == 0x03fd {
            Some(ResourceType::FileTypePro)
        } else if code == 0x03fe {
            Some(ResourceType::FileTypeBio)
        } else if code == 0x03ff {
            Some(ResourceType::FileTypeWbm)
        } else if code == 0x0400 {
            Some(ResourceType::FileTypeFnt)
        } else if code == 0x0402 {
            Some(ResourceType::FileTypeGui)
        } else if code == 0x0403 {
            Some(ResourceType::FileTypeSql)
        } else if code == 0x0404 {
            Some(ResourceType::FileTypePvrz)
        } else if code == 0x0405 {
            Some(ResourceType::FileTypeGlsl)
        } else if code == 0x0407 {
            Some(ResourceType::FileTypeTlk)
        } else if code == 0x0408 {
            Some(ResourceType::FileTypeMenu)
        } else if code == 0x0409 {
            Some(ResourceType::FileTypeMenu2)
        } else if code == 0x040a {
            Some(ResourceType::FileTypeTtf)
        } else if code == 0x040b {
            Some(ResourceType::FileTypePng)
        } else if code == 0x044c {
            Some(ResourceType::FileTypeBah)
        } else if code == 0x0802 {
            Some(ResourceType::FileTypeIni)
        } else if code == 0x0803 {
            Some(ResourceType::FileTypeSrc)
        } else if code == 0x1000 {
            Some(ResourceType::FileTypeKey)
        } else if code == 0x1001 {
            Some(ResourceType::FileTypeBiff)
        } else if code == 0x1002 {
            Some(ResourceType::FileTypeSave)
        } else {
            None
        }
    }

    /// The type a file extension names, compared without regard to ASCII case.
    pub open spec fn spec_from_extension(ext: Seq<char>) -> ResourceType {
        let e = ascii_lowercase(ext);
        if e == seq!['b', 'm', 'p'] {
            ResourceType::FileTypeBmp
        } else if e == seq!['m', 'v', 'e'] {
            ResourceType::FileTypeMve
        } else if e == seq!['w', 'a', 'v'] {
            ResourceType::FileTypeWav
        } else if e == seq!['w', 'f', 'x'] {
            ResourceType::FileTypeWfx
        } else if e == seq!['p', 'l', 't'] {
            ResourceType::FileTypePlt
        } else if e == seq!['b', 'a', 'm'] {
            ResourceType::FileTypeBam
        } else if e == seq!['w', 'e', 'd'] {
            ResourceType::FileTypeWed
        } else if e == seq!['c', 'h', 'u'] {
            ResourceType::FileTypeChu
        } else if e == seq!['t', 'i'] {
            ResourceType::FileTypeTi
        } else if e == seq!['m', 'o', 's'] {
            ResourceType::FileTypeMos
        } else if e == seq!['i', 't', 'm'] {
            ResourceType::FileTypeItm
        } else if e == seq!['s', 'p', 'l'] {
            ResourceType::FileTypeSpl
        } else if e == seq!['b', 'c', 's'] {
            ResourceType::FileTypeBcs
        } else if e == seq!['i', 'd', 's'] {
            ResourceType::FileTypeIds
        } else if e == seq!['c', 'r', 'e'] {
            ResourceType::FileTypeCre
        } else if e == seq!['a', 'r', 'e'] {
            ResourceType::FileTypeAre
        } else if e == seq!['d', 'l', 'g'] {
            ResourceType::FileTypeDlg
        } else if e == seq!['2', 'd', 'a'] {
            ResourceType::FileType2da
        } else if e == seq!['g', 'a', 'm'] {
            ResourceType::FileTypeGam
        } else if e == seq!['s', 't', 'o'] {
            ResourceType::FileTypeSto
        } else if e == seq!['w', 'm', 'p'] {
            ResourceType::FileTypeWmap
        } else if e == seq!['e', 'f', 'f'] {
            ResourceType::FileTypeEff
        } else if e == seq!['b', 's'] {
            ResourceType::FileTypeBs
        } else if e == seq!['c', 'h', 'r'] {
            ResourceType::FileTypeChr
        } else if e == seq!['v', 'v', 'c'] {
            ResourceType::FileTypeVvc
        } else if e == seq!['v', 'e', 'f'] {
            ResourceType::FileTypeVef
        } else if e == seq!['p', 'r', 'o'] {
            ResourceType::FileTypePro
        } else if e == seq!['b', 'i', 'o'] {
            ResourceType::FileTypeBio
        } else if e == seq!['w', 'b', 'm'] {
            ResourceType::FileTypeWbm
        } else if e == seq!['f', 'n', 't'] {
            ResourceType::FileTypeFnt
        } else if e == seq!['g', 'u', 'i'] {
            ResourceType::FileTypeGui
        } else if e == seq!['s', 'q', 'l'] {
            ResourceType::FileTypeSql
        } else if e == seq!['p', 'v', 'r', 'z'] {
            ResourceType::FileTypePvrz
        } else if e == seq!['g', 'l', 's', 'l'] {
            ResourceType::FileTypeGlsl
        } else if e == seq!['t', 'l', 'k'] {
            ResourceType::FileTypeTlk
        } else if e == seq!['m', 'e', 'n', 'u'] {
            ResourceType::FileTypeMenu
        } else if e == seq!['t', 't', 'f'] {
            ResourceType::FileTypeTtf
        } else if e == seq!['p', 'n', 'g'] {
            ResourceType::FileTypePng
        } else if e == seq!['b', 'a', 'h'] {
            ResourceType::FileTypeBah
        } else if e == seq!['i', 'n', 'i'] {
            ResourceType::FileTypeIni
        } else if e == seq!['s', 'r', 'c'] {
            ResourceType::FileTypeSrc
        } else if e == seq!['k', 'e', 'y'] {
            ResourceType::FileTypeKey
        } else if e == seq!['b', 'i', 'f'] {
            ResourceType::FileTypeBiff
        } else if e == seq!['s', 'a', 'v'] {
            ResourceType::FileTypeSave
        } else {
            ResourceType::NotFound
        }
    }

    pub fn code(&self) -> (c: u16)
        ensures
            c == self.spec_code(),
    {
        match self {
            ResourceType::NotFound => 0x0000,
            ResourceType::FileTypeBmp => 0x0001,
            ResourceType::FileTypeMve => 0x0002,
            ResourceType::FileTypeWav => 0x0004,
            ResourceType::FileTypeWfx => 0x0005,
            ResourceType::FileTypePlt => 0x0006,
            ResourceType::FileTypeBam => 0x03e8,
            ResourceType::FileTypeWed => 0x03e9,
            ResourceType::FileTypeChu => 0x03ea,
            ResourceType::FileTypeTi => 0x03eb,
            ResourceType::FileTypeMos => 0x03ec,
            ResourceType::FileTypeItm => 0x03ed,
            ResourceType::FileTypeSpl => 0x03ee,
            ResourceType::FileTypeBcs => 0x03ef,
            ResourceType::FileTypeIds => 0x03f0,
            ResourceType::FileTypeCre => 0x03f1,
            ResourceType::FileTypeAre => 0x03f2,
            ResourceType::FileTypeDlg => 0x03f3,
            ResourceType::FileType2da => 0x03f4,
            ResourceType::FileTypeGam => 0x03f5,
            ResourceType::FileTypeSto => 0x03f6,
            ResourceType::FileTypeWmap => 0x03f7,
            ResourceType::FileTypeEff => 0x03f8,
            ResourceType::FileTypeBs => 0x03f9,
            ResourceType::FileTypeChr => 0x03fa,
            ResourceType::FileTypeVvc => 0x03fb,
            ResourceType::FileTypeVef => 0x03fc,
            ResourceType::FileTypePro => 0x03fd,
            ResourceType::FileTypeBio => 0x03fe,
            ResourceType::FileTypeWbm => 0x03ff,
            ResourceType::FileTypeFnt => 0x0400,
            ResourceType::FileTypeGui => 0x0402,
            ResourceType::FileTypeSql => 0x0403,
            ResourceType::FileTypePvrz => 0x0404,
            ResourceType::FileTypeGlsl => 0x0405,
            ResourceType::FileTypeTlk => 0x0407,
            ResourceType::FileTypeMenu => 0x0408,
            ResourceType::FileTypeMenu2 => 0x0409,
            ResourceType::FileTypeTtf => 0x040a,
            ResourceType::FileTypePng => 0x040b,
            ResourceType::FileTypeBah => 0x044c,
            ResourceType::FileTypeIni => 0x0802,
            ResourceType::FileTypeSrc => 0x0803,
            ResourceType::FileTypeKey => 0x1000,
            ResourceType::FileTypeBiff => 0x1001,
            ResourceType::FileTypeSave => 0x1002,
        }
    }

    pub fn from_code(code: u16) -> (r: Option<ResourceType>)
        ensures
            r == ResourceType::spec_from_code(code),
    {
        if code == 0x0000 {
            Some(ResourceType::NotFound)
        } else if code == 0x0001 {
            Some(ResourceType::FileTypeBmp)
        } else if code == 0x0002 {
            Some(ResourceType::FileTypeMve)
        } else if code == 0x0004 {
            Some(ResourceType::FileTypeWav)
        } else if code == 0x0005 {
            Some(ResourceType::FileTypeWfx)
        } else if code == 0x0006 {
            Some(ResourceType::FileTypePlt)
        } else if code == 0x03e8 {
            Some(ResourceType::FileTypeBam)
        } else if code == 0x03e9 {
            Some(ResourceType::FileTypeWed)
        } else if code == 0x03ea {
            Some(ResourceType::FileTypeChu)
        } else if code == 0x03eb {
            Some(ResourceType::FileTypeTi)
        } else if code == 0x03ec {
            Some(ResourceType::FileTypeMos)
        } else if code == 0x03ed {
            Some(ResourceType::FileTypeItm)
        } else if code == 0x03ee {
            Some(ResourceType::FileTypeSpl)
        } else if code == 0x03ef {
            Some(ResourceType::FileTypeBcs)
        } else if code == 0x03f0 {
            Some(ResourceType::FileTypeIds)
        } else if code == 0x03f1 {
            Some(ResourceType::FileTypeCre)
        } else if code == 0x03f2 {
            Some(ResourceType::FileTypeAre)
        } else if code == 0x03f3 {
            Some(ResourceType::FileTypeDlg)
        } else if code == 0x03f4 {
            Some(ResourceType::FileType2da)
        } else if code == 0x03f5 {
            Some(ResourceType::FileTypeGam)
        } else if code == 0x03f6 {
            Some(ResourceType::FileTypeSto)
        } else if code == 0x03f7 {
            Some(ResourceType::FileTypeWmap)
        } else if code == 0x03f8 {
            Some(ResourceType::FileTypeEff)
        } else if code == 0x03f9 {
            Some(ResourceType::FileTypeBs)
        } else if code == 0x03fa {
            Some(ResourceType::FileTypeChr)
        } else if code == 0x03fb {
            Some(ResourceType::FileTypeVvc)
        } else if code == 0x03fc {
            Some(ResourceType::FileTypeVef)
        } else if code == 0x03fd {
            Some(ResourceType::FileTypePro)
        } else if code == 0x03fe {
            Some(ResourceType::FileTypeBio)
        } else if code == 0x03ff {
            Some(ResourceType::FileTypeWbm)
        } else if code == 0x0400 {
            Some(ResourceType::FileTypeFnt)
        } else if code == 0x0402 {
            Some(ResourceType::FileTypeGui)
        } else if code == 0x0403 {
            Some(ResourceType::FileTypeSql)
        } else if code == 0x0404 {
            Some(ResourceType::FileTypePvrz)
        } else if code == 0x0405 {
            Some(ResourceType::FileTypeGlsl)
        } else if code == 0x0407 {
            Some(ResourceType::FileTypeTlk)
        } else if code == 0x0408 {
            Some(ResourceType::FileTypeMenu)
        } else if code == 0x0409 {
            Some(ResourceType::FileTypeMenu2)
        } else if code == 0x040a {
            Some(ResourceType::FileTypeTtf)
        } else if code == 0x040b {
            Some(ResourceType::FileTypePng)
        } else if code == 0x044c {
            Some(ResourceType::FileTypeBah)
        } else if code == 0x0802 {
            Some(ResourceType::FileTypeIni)
        } else if code == 0x0803 {
            Some(ResourceType::FileTypeSrc)
        } else if code == 0x1000 {
            Some(ResourceType::FileTypeKey)
        } else if code == 0x1001 {
            Some(ResourceType::FileTypeBiff)
        } else if code == 0x1002 {
            Some(ResourceType::FileTypeSave)
        } else {
            None
        }
    }

    /// The resource type of a file extension such as `"itm"` or `"ITM"`;
    /// `NotFound` for an extension that names no type.
    pub fn from(value: &str) -> (r: ResourceType)
        ensures
            r == ResourceType::spec_from_extension(value@),
    {
        let e = to_ascii_lowercase(value);
        if chars_equal(e.as_slice(), &['b', 'm', 'p']) {
            ResourceType::FileTypeBmp
        } else if chars_equal(e.as_slice(), &['m', 'v', 'e']) {
            ResourceType::FileTypeMve
        } else if chars_equal(e.as_slice(), &['w', 'a', 'v']) {
            ResourceType::FileTypeWav
        } else if chars_equal(e.as_slice(), &['w', 'f', 'x']) {
            ResourceType::FileTypeWfx
        } else if chars_equal(e.as_slice(), &['p', 'l', 't']) {
            ResourceType::FileTypePlt
        } else if chars_equal(e.as_slice(), &['b', 'a', 'm']) {
            ResourceType::FileTypeBam
        } else if chars_equal(e.as_slice(), &['w', 'e', 'd']) {
            ResourceType::FileTypeWed
        } else if chars_equal(e.as_slice(), &['c', 'h', 'u']) {
            ResourceType::FileTypeChu
        } else if chars_equal(e.as_slice(), &['t', 'i']) {
            ResourceType::FileTypeTi
        } else if chars_equal(e.as_slice(), &['m', 'o', 's']) {
            ResourceType::FileTypeMos
        } else if chars_equal(e.as_slice(), &['i', 't', 'm']) {
            ResourceType::FileTypeItm
        } else if chars_equal(e.as_slice(), &['s', 'p', 'l']) {
            ResourceType::FileTypeSpl
        } else if chars_equal(e.as_slice(), &['b', 'c', 's']) {
            ResourceType::FileTypeBcs
        } else if chars_equal(e.as_slice(), &['i', 'd', 's']) {
            ResourceType::FileTypeIds
        } else if chars_equal(e.as_slice(), &['c', 'r', 'e']) {
            ResourceType::FileTypeCre
        } else if chars_equal(e.as_slice(), &['a', 'r', 'e']) {
            ResourceType::FileTypeAre
        } else if chars_equal(e.as_slice(), &['d', 'l', 'g']) {
            ResourceType::FileTypeDlg
        } else if chars_equal(e.as_slice(), &['2', 'd', 'a']) {
            ResourceType::FileType2da
        } else if chars_equal(e.as_slice(), &['g', 'a', 'm']) {
            ResourceType::FileTypeGam
        } else if chars_equal(e.as_slice(), &['s', 't', 'o']) {
            ResourceType::FileTypeSto
        } else if chars_equal(e.as_slice(), &['w', 'm', 'p']) {
            ResourceType::FileTypeWmap
        } else if chars_equal(e.as_slice(), &['e', 'f', 'f']) {
            ResourceType::FileTypeEff
        } else if chars_equal(e.as_slice(), &['b', 's']) {
            ResourceType::FileTypeBs
        } else if chars_equal(e.as_slice(), &['c', 'h', 'r']) {
            ResourceType::FileTypeChr
        } else if chars_equal(e.as_slice(), &['v', 'v', 'c']) {
            ResourceType::FileTypeVvc
        } else if chars_equal(e.as_slice(), &['v', 'e', 'f']) {
            ResourceType::FileTypeVef
        } else if chars_equal(e.as_slice(), &['p', 'r', 'o']) {
            ResourceType::FileTypePro
        } else if chars_equal(e.as_slice(), &['b', 'i', 'o']) {
            ResourceType::FileTypeBio
        } else if chars_equal(e.as_slice(), &['w', 'b', 'm']) {
            ResourceType::FileTypeWbm
        } else if chars_equal(e.as_slice(), &['f', 'n', 't']) {
            ResourceType::FileTypeFnt
        } else if chars_equal(e.as_slice(), &['g', 'u', 'i']) {
            ResourceType::FileTypeGui
        } else if chars_equal(e.as_slice(), &['s', 'q', 'l']) {
            ResourceType::FileTypeSql
        } else if chars_equal(e.as_slice(), &['p', 'v', 'r', 'z']) {
            ResourceType::FileTypePvrz
        } else if chars_equal(e.as_slice(), &['g', 'l', 's', 'l']) {
            ResourceType::FileTypeGlsl
        } else if chars_equal(e.as_slice(), &['t', 'l', 'k']) {
            ResourceType::FileTypeTlk
        } else if chars_equal(e.as_slice(), &['m', 'e', 'n', 'u']) {
            ResourceType::FileTypeMenu
        } else if chars_equal(e.as_slice(), &['t', 't', 'f']) {
            ResourceType::FileTypeTtf
        } else if chars_equal(e.as_slice(), &['p', 'n', 'g']) {
            ResourceType::FileTypePng
        } else if chars_equal(e.as_slice(), &['b', 'a', 'h']) {
            ResourceType::FileTypeBah
        } else if chars_equal(e.as_slice(), &['i', 'n', 'i']) {
            ResourceType::FileTypeIni
        } else if chars_equal(e.as_slice(), &['s', 'r', 'c']) {
            ResourceType::FileTypeSrc
        } else if chars_equal(e.as_slice(), &['k', 'e', 'y']) {
            ResourceType::FileTypeKey
        } else if chars_equal(e.as_slice(), &['b', 'i', 'f']) {
            ResourceType::FileTypeBiff
        } else if chars_equal(e.as_slice(), &['s', 'a', 'v']) {
            ResourceType::FileTypeSave
        } else {
            ResourceType::NotFound
        }
    }
}

} // verus!
