use vstd::prelude::*;

use crate::category::Category;
use crate::family::{
    family_category, family_fonts, family_from_id, family_id, lemma_family_block, Family,
    ID_INCREMENT,
};

verus! {

/// An enumeration of the fonts in the catalog.
#[derive(Debug, Clone, Copy, PartialEq, Eq, Structural, PartialOrd, Ord, Hash)]
pub enum Font {
    ABeeZeeRegular,
    ABeeZeeItalic,
    ADLaMDisplayRegular,
    AROneSansRegular,
    AROneSansMedium,
    AROneSansSemiBold,
    AROneSansBold,
    AROneSansVariable,
    AbelRegular,
    AbhayaLibreRegular,
    AbhayaLibreMedium,
    AbhayaLibreSemiBold,
    AbhayaLibreBold,
    AbhayaLibreExtraBold,
    AboretoRegular,
    AbrilFatfaceRegular,
    AbyssinicaSILRegular,
    AclonicaRegular,
    AcmeRegular,
    ActorRegular,
}

/// The numeric identifier of a font: its family's id plus its position in
/// the family.
pub open spec fn font_id(f: Font) -> int {
    match f {
        Font::ABeeZeeRegular => 0,
        Font::ABeeZeeItalic => 1,
        Font::ADLaMDisplayRegular => 1000,
        Font::AROneSansRegular => 2000,
        Font::AROneSansMedium => 2001,
        Font::AROneSansSemiBold => 2002,
        Font::AROneSansBold => 2003,
        Font::AROneSansVariable => 2004,
        Font::AbelRegular => 3000,
        Font::AbhayaLibreRegular => 4000,
        Font::AbhayaLibreMedium => 4001,
        Font::AbhayaLibreSemiBold => 4002,
        Font::AbhayaLibreBold => 4003,
        Font::AbhayaLibreExtraBold => 4004,
        Font::AboretoRegular => 5000,
        Font::AbrilFatfaceRegular => 6000,
        Font::AbyssinicaSILRegular => 7000,
        Font::AclonicaRegular => 8000,
        Font::AcmeRegular => 9000,
        Font::ActorRegular => 10000,
    }
}

/// The font whose id is `id`, if there is one.
pub open spec fn font_from_id(id: int) -> Option<Font> {
    if id == 0 {
        Some(Font::ABeeZeeRegular)
    } else if id == 1 {
        Some(Font::ABeeZeeItalic)
    } else if id == 1000 {
        Some(Font::ADLaMDisplayRegular)
    } else if id == 2000 {
        Some(Font::AROneSansRegular)
    } else if id == 2001 {
        Some(Font::AROneSansMedium)
    } else if id == 2002 {
        Some(Font::AROneSansSemiBold)
    } else if id == 2003 {
        Some(Font::AROneSansBold)
    } else if id == 2004 {
        Some(Font::AROneSansVariable)
    } else if id == 3000 {
        Some(Font::AbelRegular)
    } else if id == 4000 {
        Some(Font::AbhayaLibreRegular)
    } else if id == 4001 {
        Some(Font::AbhayaLibreMedium)
    } else if id == 4002 {
        Some(Font::AbhayaLibreSemiBold)
    } else if id == 4003 {
        Some(Font::AbhayaLibreBold)
    } else if id == 4004 {
        Some(Font::AbhayaLibreExtraBold)
    } else if id == 5000 {
        Some(Font::AboretoRegular)
    } else if id == 6000 {
        Some(Font::AbrilFatfaceRegular)
    } else if id == 7000 {
        Some(Font::AbyssinicaSILRegular)
    } else if id == 8000 {
        Some(Font::AclonicaRegular)
    } else if id == 9000 {
        Some(Font::AcmeRegular)
    } else if id == 10000 {
        Some(Font::ActorRegular)
    } else {
        None
    }
}

/// The name of a font: its family's name without spaces followed by its style.
pub open spec fn font_name(f: Font) -> Seq<char> {
    match f {
        Font::ABeeZeeRegular => "ABeeZeeRegular"@,
        Font::ABeeZeeItalic => "ABeeZeeItalic"@,
        Font::ADLaMDisplayRegular => "ADLaMDisplayRegular"@,
        Font::AROneSansRegular => "AROneSansRegular"@,
        Font::AROneSansMedium => "AROneSansMedium"@,
        Font::AROneSansSemiBold => "AROneSansSemiBold"@,
        Font::AROneSansBold => "AROneSansBold"@,
        Font::AROneSansVariable => "AROneSansVariable"@,
        Font::AbelRegular => "AbelRegular"@,
        Font::AbhayaLibreRegular => "AbhayaLibreRegular"@,
        Font::AbhayaLibreMedium => "AbhayaLibreMedium"@,
        Font::AbhayaLibreSemiBold => "AbhayaLibreSemiBold"@,
        Font::AbhayaLibreBold => "AbhayaLibreBold"@,
        Font::AbhayaLibreExtraBold => "AbhayaLibreExtraBold"@,
        Font::AboretoRegular => "AboretoRegular"@,
        Font::AbrilFatfaceRegular => "AbrilFatfaceRegular"@,
        Font::AbyssinicaSILRegular => "AbyssinicaSILRegular"@,
        Font::AclonicaRegular => "AclonicaRegular"@,
        Font::AcmeRegular => "AcmeRegular"@,
        Font::ActorRegular => "ActorRegular"@,
    }
}

/// Whether a font is built with variable-font technology (the fonts whose
/// name ends in `Variable`); every other font is static.
pub open spec fn font_is_variable(f: Font) -> bool {
    f == Font::AROneSansVariable
}

/// The first id of the block that holds `id`.
pub open spec fn block_start(id: int) -> int {
    (id / (ID_INCREMENT as int)) * (ID_INCREMENT as int)
}

/// The family of a font, recovered from the font's id by block arithmetic.
pub open spec fn family_of(f: Font) -> Family {
    family_from_id(block_start(font_id(f))).unwrap()
}

/// The position of a font in its family's font list.
pub open spec fn position_in_family(f: Font) -> int {
    font_id(f) - family_id(family_of(f))
}

/// The category of a font: that of its family.
pub open spec fn font_category(f: Font) -> Category {
    family_category(family_of(f))
}

/// Each font's id block names a family, and the font stands in that family's
/// font list at the offset of its id within the block.
pub proof fn lemma_font_owner(f: Font)
    ensures
        0 <= font_id(f) <= 10004,
        family_from_id(block_start(font_id(f))) == Some(family_of(f)),
        0 <= position_in_family(f) < family_fonts(family_of(f)).len(),
        family_fonts(family_of(f))[position_in_family(f)] == f,
{
    match f {
        Font::ABeeZeeRegular => {},
        Font::ABeeZeeItalic => {},
        Font::ADLaMDisplayRegular => {},
        Font::AROneSansRegular => {},
        Font::AROneSansMedium => {},
        Font::AROneSansSemiBold => {},
        Font::AROneSansBold => {},
        Font::AROneSansVariable => {},
        Font::AbelRegular => {},
        Font::AbhayaLibreRegular => {},
        Font::AbhayaLibreMedium => {},
        Font::AbhayaLibreSemiBold => {},
        Font::AbhayaLibreBold => {},
        Font::AbhayaLibreExtraBold => {},
        Font::AboretoRegular => {},
        Font::AbrilFatfaceRegular => {},
        Font::AbyssinicaSILRegular => {},
        Font::AclonicaRegular => {},
        Font::AcmeRegular => {},
        Font::ActorRegular => {},
    }
}

/// Identity round trip for fonts: decoding a font's id gives the font back,
/// and only that id decodes to it.
pub proof fn lemma_font_id_round_trip(f: Font)
    ensures
        font_from_id(font_id(f)) == Some(f),
        forall|id: int| #[trigger] font_from_id(id) == Some(f) ==> id == font_id(f),
{
    match f {
        Font::ABeeZeeRegular => {},
        Font::ABeeZeeItalic => {},
        Font::ADLaMDisplayRegular => {},
        Font::AROneSansRegular => {},
        Font::AROneSansMedium => {},
        Font::AROneSansSemiBold => {},
        Font::AROneSansBold => {},
        Font::AROneSansVariable => {},
        Font::AbelRegular => {},
        Font::AbhayaLibreRegular => {},
        Font::AbhayaLibreMedium => {},
        Font::AbhayaLibreSemiBold => {},
        Font::AbhayaLibreBold => {},
        Font::AbhayaLibreExtraBold => {},
        Font::AboretoRegular => {},
        Font::AbrilFatfaceRegular => {},
        Font::AbyssinicaSILRegular => {},
        Font::AclonicaRegular => {},
        Font::AcmeRegular => {},
        Font::ActorRegular => {},
    }
}

impl Font {
    /// Returns the id of the font.
    pub fn id(&self) -> (r: isize)
        ensures
            r == font_id(*self),
    {
        match *self {
            Font::ABeeZeeRegular => 0,
            Font::ABeeZeeItalic => 1,
            Font::ADLaMDisplayRegular => 1000,
            Font::AROneSansRegular => 2000,
            Font::AROneSansMedium => 2001,
            Font::AROneSansSemiBold => 2002,
            Font::AROneSansBold => 2003,
            Font::AROneSansVariable => 2004,
            Font::AbelRegular => 3000,
            Font::AbhayaLibreRegular => 4000,
            Font::AbhayaLibreMedium => 4001,
            Font::AbhayaLibreSemiBold => 4002,
            Font::AbhayaLibreBold => 4003,
            Font::AbhayaLibreExtraBold => 4004,
            Font::AboretoRegular => 5000,
            Font::AbrilFatfaceRegular => 6000,
            Font::AbyssinicaSILRegular => 7000,
            Font::AclonicaRegular => 8000,
            Font::AcmeRegular => 9000,
            Font::ActorRegular => 10000,
        }
    }

    /// Returns the font whose id is `id`, or `None` where no font has it.
    pub fn from_id(id: isize) -> (r: Option<Font>)
        ensures
            r == font_from_id(id as int),
    {
        if id == 0 {
            Some(Font::ABeeZeeRegular)
        } else if id == 1 {
            Some(Font::ABeeZeeItalic)
        } else if id == 1000 {
            Some(Font::ADLaMDisplayRegular)
        } else if id == 2000 {
            Some(Font::AROneSansRegular)
        } else if id == 2001 {
            Some(Font::AROneSansMedium)
        } else if id == 2002 {
            Some(Font::AROneSansSemiBold)
        } else if id == 2003 {
            Some(Font::AROneSansBold)
        } else if id == 2004 {
            Some(Font::AROneSansVariable)
        } else if id == 3000 {
            Some(Font::AbelRegular)
        } else if id == 4000 {
            Some(Font::AbhayaLibreRegular)
        } else if id == 4001 {
            Some(Font::AbhayaLibreMedium)
        } else if id == 4002 {
            Some(Font::AbhayaLibreSemiBold)
        } else if id == 4003 {
            Some(Font::AbhayaLibreBold)
        } else if id == 4004 {
            Some(Font::AbhayaLibreExtraBold)
        } else if id == 5000 {
            Some(Font::AboretoRegular)
        } else if id == 6000 {
            Some(Font::AbrilFatfaceRegular)
        } else if id == 7000 {
            Some(Font::AbyssinicaSILRegular)
        } else if id == 8000 {
            Some(Font::AclonicaRegular)
        } else if id == 9000 {
            Some(Font::AcmeRegular)
        } else if id == 10000 {
            Some(Font::ActorRegular)
        } else {
            None
        }
    }

    /// Returns the family of the font, found from the font's id block.
    pub fn family(&self) -> (r: Family)
        ensures
            r == family_of(*self),
            family_id(r) == block_start(font_id(*self)),
            family_fonts(r).contains(*self),
    {
        proof {
            lemma_font_owner(*self);
            lemma_family_block(family_of(*self));
        }
        let id = self.id();
        let start = (id / ID_INCREMENT) * ID_INCREMENT;
        match Family::from_id(start) {
            Some(m) => {
                proof {
                    assert(family_fonts(m)[position_in_family(*self)] == *self);
                }
                m
            },
            None => {
                proof {
                    assert(false);
                }
                Family::ABeeZee
            },
        }
    }

    /// Returns the position of the font's file in its family's file list.
    pub fn font_file_idx(&self) -> (r: usize)
        ensures
            r == position_in_family(*self),
            r < family_fonts(family_of(*self)).len(),
            family_fonts(family_of(*self))[r as int] == *self,
    {
        proof {
            lemma_font_owner(*self);
        }
        (self.id() - self.family().id()) as usize
    }

    /// Returns the name of the font.
    pub fn name(&self) -> (r: String)
        ensures
            r@ == font_name(*self),
    {
        let s: &str = match *self {
            Font::ABeeZeeRegular => "ABeeZeeRegular",
            Font::ABeeZeeItalic => "ABeeZeeItalic",
            Font::ADLaMDisplayRegular => "ADLaMDisplayRegular",
            Font::AROneSansRegular => "AROneSansRegular",
            Font::AROneSansMedium => "AROneSansMedium",
            Font::AROneSansSemiBold => "AROneSansSemiBold",
            Font::AROneSansBold => "AROneSansBold",
            Font::AROneSansVariable => "AROneSansVariable",
            Font::AbelRegular => "AbelRegular",
            Font::AbhayaLibreRegular => "AbhayaLibreRegular",
            Font::AbhayaLibreMedium => "AbhayaLibreMedium",
            Font::AbhayaLibreSemiBold => "AbhayaLibreSemiBold",
            Font::AbhayaLibreBold => "AbhayaLibreBold",
            Font::AbhayaLibreExtraBold => "AbhayaLibreExtraBold",
            Font::AboretoRegular => "AboretoRegular",
            Font::AbrilFatfaceRegular => "AbrilFatfaceRegular",
            Font::AbyssinicaSILRegular => "AbyssinicaSILRegular",
            Font::AclonicaRegular => "AclonicaRegular",
            Font::AcmeRegular => "AcmeRegular",
            Font::ActorRegular => "ActorRegular",
        };
        String::from_str(s)
    }

    /// Returns the font whose name is `name`, or `None` where no font has it.
    pub fn from_name(name: &str) -> (r: Option<Font>)
        ensures
            r == font_from_name(name@),
    {
        let target = String::from_str(name);
        let same = |candidate: &str| -> (b: bool)
            ensures
                b == (target@ == candidate@),
            { target == String::from_str(candidate) };
        if same("ABeeZeeRegular") {
            Some(Font::ABeeZeeRegular)
        } else if same("ABeeZeeItalic") {
            Some(Font::ABeeZeeItalic)
        } else if same("ADLaMDisplayRegular") {
            Some(Font::ADLaMDisplayRegular)
        } else if same("AROneSansRegular") {
            Some(Font::AROneSansRegular)
        } else if same("AROneSansMedium") {
            Some(Font::AROneSansMedium)
        } else if same("AROneSansSemiBold") {
            Some(Font::AROneSansSemiBold)
        } else if same("AROneSansBold") {
            Some(Font::AROneSansBold)
        } else if same("AROneSansVariable") {
            Some(Font::AROneSansVariable)
        } else if same("AbelRegular") {
            Some(Font::AbelRegular)
        } else if same("AbhayaLibreRegular") {
            Some(Font::AbhayaLibreRegular)
        } else if same("AbhayaLibreMedium") {
            Some(Font::AbhayaLibreMedium)
        } else if same("AbhayaLibreSemiBold") {
            Some(Font::AbhayaLibreSemiBold)
        } else if same("AbhayaLibreBold") {
            Some(Font::AbhayaLibreBold)
        } else if same("AbhayaLibreExtraBold") {
            Some(Font::AbhayaLibreExtraBold)
        } else if same("AboretoRegular") {
            Some(Font::AboretoRegular)
        } else if same("AbrilFatfaceRegular") {
            Some(Font::AbrilFatfaceRegular)
        } else if same("AbyssinicaSILRegular") {
            Some(Font::AbyssinicaSILRegular)
        } else if same("AclonicaRegular") {
            Some(Font::AclonicaRegular)
        } else if same("AcmeRegular") {
            Some(Font::AcmeRegular)
        } else if same("ActorRegular") {
            Some(Font::ActorRegular)
        } else {
            None
        }
    }

    /// Indicates whether the font uses variable-font technology.
    pub fn is_variable(&self) -> (r: bool)
        ensures
            r == font_is_variable(*self),
    {
        match *self {
            Font::AROneSansVariable => true,
            _ => false,
        }
    }

    /// Indicates whether the font uses static-font technology.
    pub fn is_static(&self) -> (r: bool)
        ensures
            r == !font_is_variable(*self),
    {
        !self.is_variable()
    }

    /// Returns the category of the font: that of its family.
    pub fn category(&self) -> (r: Category)
        ensures
            r == font_category(*self),
    {
        self.family().category()
    }
}

} // verus!

verus! {

/// The font whose name is `name`, if there is one.
pub open spec fn font_from_name(name: Seq<char>) -> Option<Font> {
    if name == "ABeeZeeRegular"@ {
        Some(Font::ABeeZeeRegular)
    } else if name == "ABeeZeeItalic"@ {
        Some(Font::ABeeZeeItalic)
    } else if name == "ADLaMDisplayRegular"@ {
        Some(Font::ADLaMDisplayRegular)
    } else if name == "AROneSansRegular"@ {
        Some(Font::AROneSansRegular)
    } else if name == "AROneSansMedium"@ {
        Some(Font::AROneSansMedium)
    } else if name == "AROneSansSemiBold"@ {
        Some(Font::AROneSansSemiBold)
    } else if name == "AROneSansBold"@ {
        Some(Font::AROneSansBold)
    } else if name == "AROneSansVariable"@ {
        Some(Font::AROneSansVariable)
    } else if name == "AbelRegular"@ {
        Some(Font::AbelRegular)
    } else if name == "AbhayaLibreRegular"@ {
        Some(Font::AbhayaLibreRegular)
    } else if name == "AbhayaLibreMedium"@ {
        Some(Font::AbhayaLibreMedium)
    } else if name == "AbhayaLibreSemiBold"@ {
        Some(Font::AbhayaLibreSemiBold)
    } else if name == "AbhayaLibreBold"@ {
        Some(Font::AbhayaLibreBold)
    } else if name == "AbhayaLibreExtraBold"@ {
        Some(Font::AbhayaLibreExtraBold)
    } else if name == "AboretoRegular"@ {
        Some(Font::AboretoRegular)
    } else if name == "AbrilFatfaceRegular"@ {
        Some(Font::AbrilFatfaceRegular)
    } else if name == "AbyssinicaSILRegular"@ {
        Some(Font::AbyssinicaSILRegular)
    } else if name == "AclonicaRegular"@ {
        Some(Font::AclonicaRegular)
    } else if name == "AcmeRegular"@ {
        Some(Font::AcmeRegular)
    } else if name == "ActorRegular"@ {
        Some(Font::ActorRegular)
    } else {
        None
    }
}

/// Name round trip for fonts: decoding a font's name gives the font back, and
/// only that name decodes to it, so distinct fonts have distinct names.
pub proof fn lemma_font_name_round_trip(f: Font)
    ensures
        font_from_name(font_name(f)) == Some(f),
        forall|name: Seq<char>| #[trigger] font_from_name(name) == Some(f) ==> name == font_name(f),
{
    match f {
        Font::ABeeZeeRegular => {
            reveal_strlit("ABeeZeeRegular");
        },
        Font::ABeeZeeItalic => {
            reveal_strlit("ABeeZeeRegular");
            reveal_strlit("ABeeZeeItalic");
            assert("ABeeZeeRegular"@.len() != "ABeeZeeItalic"@.len());
        },
        Font::ADLaMDisplayRegular => {
            reveal_strlit("ABeeZeeRegular");
            reveal_strlit("ABeeZeeItalic");
            reveal_strlit("ADLaMDisplayRegular");
            assert("ABeeZeeRegular"@.len() != "ADLaMDisplayRegular"@.len());
            assert("ABeeZeeItalic"@.len() != "ADLaMDisplayRegular"@.len());
        },
        Font::AROneSansRegular => {
            reveal_strlit("ABeeZeeRegular");
            reveal_strlit("ABeeZeeItalic");
            reveal_strlit("ADLaMDisplayRegular");
            reveal_strlit("AROneSansRegular");
            assert("ABeeZeeRegular"@.len() != "AROneSansRegular"@.len());
            assert("ABeeZeeItalic"@.len() != "AROneSansRegular"@.len());
            assert("ADLaMDisplayRegular"@.len() != "AROneSansRegular"@.len());
        },
        Font::AROneSansMedium => {
            reveal_strlit("ABeeZeeRegular");
            reveal_strlit("ABeeZeeItalic");
            reveal_strlit("ADLaMDisplayRegular");
            reveal_strlit("AROneSansRegular");
            reveal_strlit("AROneSansMedium");
            assert("ABeeZeeRegular"@.len() != "AROneSansMedium"@.len());
            assert("ABeeZeeItalic"@.len() != "AROneSansMedium"@.len());
            assert("ADLaMDisplayRegular"@.len() != "AROneSansMedium"@.len());
            assert("AROneSansRegular"@.len() != "AROneSansMedium"@.len());
        },
        Font::AROneSansSemiBold => {
            reveal_strlit("ABeeZeeRegular");
            reveal_strlit("ABeeZeeItalic");
            reveal_strlit("ADLaMDisplayRegular");
            reveal_strlit("AROneSansRegular");
            reveal_strlit("AROneSansMedium");
            reveal_strlit("AROneSansSemiBold");
            assert("ABeeZeeRegular"@.len() != "AROneSansSemiBold"@.len());
            assert("ABeeZeeItalic"@.len() != "AROneSansSemiBold"@.len());
            assert("ADLaMDisplayRegular"@.len() != "AROneSansSemiBold"@.len());
            assert("AROneSansRegular"@.len() != "AROneSansSemiBold"@.len());
            assert("AROneSansMedium"@.len() != "AROneSansSemiBold"@.len());
        },
        Font::AROneSansBold => {
            reveal_strlit("ABeeZeeRegular");
            reveal_strlit("ABeeZeeItalic");
            reveal_strlit("ADLaMDisplayRegular");
            reveal_strlit("AROneSansRegular");
            reveal_strlit("AROneSansMedium");
            reveal_strlit("AROneSansSemiBold");
            reveal_strlit("AROneSansBold");
            assert("ABeeZeeRegular"@.len() != "AROneSansBold"@.len());
            assert("ABeeZeeItalic"@[1] != "AROneSansBold"@[1]);
            assert("ADLaMDisplayRegular"@.len() != "AROneSansBold"@.len());
            assert("AROneSansRegular"@.len() != "AROneSansBold"@.len());
            assert("AROneSansMedium"@.len() != "AROneSansBold"@.len());
            assert("AROneSansSemiBold"@.len() != "AROneSansBold"@.len());
        },
        Font::AROneSansVariable => {
            reveal_strlit("ABeeZeeRegular");
            reveal_strlit("ABeeZeeItalic");
            reveal_strlit("ADLaMDisplayRegular");
            reveal_strlit("AROneSansRegular");
            reveal_strlit("AROneSansMedium");
            reveal_strlit("AROneSansSemiBold");
            reveal_strlit("AROneSansBold");
            reveal_strlit("AROneSansVariable");
            assert("ABeeZeeRegular"@.len() != "AROneSansVariable"@.len());
            assert("ABeeZeeItalic"@.len() != "AROneSansVariable"@.len());
            assert("ADLaMDisplayRegular"@.len() != "AROneSansVariable"@.len());
            assert("AROneSansRegular"@.len() != "AROneSansVariable"@.len());
            assert("AROneSansMedium"@.len() != "AROneSansVariable"@.len());
            assert("AROneSansSemiBold"@[9] != "AROneSansVariable"@[9]);
            assert("AROneSansBold"@.len() != "AROneSansVariable"@.len());
        },
        Font::AbelRegular => {
            reveal_strlit("ABeeZeeRegular");
            reveal_strlit("ABeeZeeItalic");
            reveal_strlit("ADLaMDisplayRegular");
            reveal_strlit("AROneSansRegular");
            reveal_strlit("AROneSansMedium");
            reveal_strlit("AROneSansSemiBold");
            reveal_strlit("AROneSansBold");
            reveal_strlit("AROneSansVariable");
            reveal_strlit("AbelRegular");
            assert("ABeeZeeRegular"@.len() != "AbelRegular"@.len());
            assert("ABeeZeeItalic"@.len() != "AbelRegular"@.len());
            assert("ADLaMDisplayRegular"@.len() != "AbelRegular"@.len());
            assert("AROneSansRegular"@.len() != "AbelRegular"@.len());
            assert("AROneSansMedium"@.len() != "AbelRegular"@.len());
            assert("AROneSansSemiBold"@.len() != "AbelRegular"@.len());
            assert("AROneSansBold"@.len() != "AbelRegular"@.len());
            assert("AROneSansVariable"@.len() != "AbelRegular"@.len());
        },
        Font::AbhayaLibreRegular => {
            reveal_strlit("ABeeZeeRegular");
            reveal_strlit("ABeeZeeItalic");
            reveal_strlit("ADLaMDisplayRegular");
            reveal_strlit("AROneSansRegular");
            reveal_strlit("AROneSansMedium");
            reveal_strlit("AROneSansSemiBold");
            reveal_strlit("AROneSansBold");
            reveal_strlit("AROneSansVariable");
            reveal_strlit("AbelRegular");
            reveal_strlit("AbhayaLibreRegular");
            assert("ABeeZeeRegular"@.len() != "AbhayaLibreRegular"@.len());
            assert("ABeeZeeItalic"@.len() != "AbhayaLibreRegular"@.len());
            assert("ADLaMDisplayRegular"@.len() != "AbhayaLibreRegular"@.len());
            assert("AROneSansRegular"@.len() != "AbhayaLibreRegular"@.len());
            assert("AROneSansMedium"@.len() != "AbhayaLibreRegular"@.len());
            assert("AROneSansSemiBold"@.len() != "AbhayaLibreRegular"@.len());
            assert("AROneSansBold"@.len() != "AbhayaLibreRegular"@.len());
            assert("AROneSansVariable"@.len() != "AbhayaLibreRegular"@.len());
            assert("AbelRegular"@.len() != "AbhayaLibreRegular"@.len());
        },
        Font::AbhayaLibreMedium => {
            reveal_strlit("ABeeZeeRegular");
            reveal_strlit("ABeeZeeItalic");
            reveal_strlit("ADLaMDisplayRegular");
            reveal_strlit("AROneSansRegular");
            reveal_strlit("AROneSansMedium");
            reveal_strlit("AROneSansSemiBold");
            reveal_strlit("AROneSansBold");
            reveal_strlit("AROneSansVariable");
            reveal_strlit("AbelRegular");
            reveal_strlit("AbhayaLibreRegular");
            reveal_strlit("AbhayaLibreMedium");
            assert("ABeeZeeRegular"@.len() != "AbhayaLibreMedium"@.len());
            assert("ABeeZeeItalic"@.len() != "AbhayaLibreMedium"@.len());
            assert("ADLaMDisplayRegular"@.len() != "AbhayaLibreMedium"@.len());
            assert("AROneSansRegular"@.len() != "AbhayaLibreMedium"@.len());
            assert("AROneSansMedium"@.len() != "AbhayaLibreMedium"@.len());
            assert("AROneSansSemiBold"@[1] != "AbhayaLibreMedium"@[1]);
            assert("AROneSansBold"@.len() != "AbhayaLibreMedium"@.len());
            assert("AROneSansVariable"@[1] != "AbhayaLibreMedium"@[1]);
            assert("AbelRegular"@.len() != "AbhayaLibreMedium"@.len());
            assert("AbhayaLibreRegular"@.len() != "AbhayaLibreMedium"@.len());
        },
        Font::AbhayaLibreSemiBold => {
            reveal_strlit("ABeeZeeRegular");
            reveal_strlit("ABeeZeeItalic");
            reveal_strlit("ADLaMDisplayRegular");
            reveal_strlit("AROneSansRegular");
            reveal_strlit("AROneSansMedium");
            reveal_strlit("AROneSansSemiBold");
            reveal_strlit("AROneSansBold");
            reveal_strlit("AROneSansVariable");
            reveal_strlit("AbelRegular");
            reveal_strlit("AbhayaLibreRegular");
            reveal_strlit("AbhayaLibreMedium");
            reveal_strlit("AbhayaLibreSemiBold");
            assert("ABeeZeeRegular"@.len() != "AbhayaLibreSemiBold"@.len());
            assert("ABeeZeeItalic"@.len() != "AbhayaLibreSemiBold"@.len());
            assert("ADLaMDisplayRegular"@[1] != "AbhayaLibreSemiBold"@[1]);
            assert("AROneSansRegular"@.len() != "AbhayaLibreSemiBold"@.len());
            assert("AROneSansMedium"@.len() != "AbhayaLibreSemiBold"@.len());
            assert("AROneSansSemiBold"@.len() != "AbhayaLibreSemiBold"@.len());
            assert("AROneSansBold"@.len() != "AbhayaLibreSemiBold"@.len());
            assert("AROneSansVariable"@.len() != "AbhayaLibreSemiBold"@.len());
            assert("AbelRegular"@.len() != "AbhayaLibreSemiBold"@.len());
            assert("AbhayaLibreRegular"@.len() != "AbhayaLibreSemiBold"@.len());
            assert("AbhayaLibreMedium"@.len() != "AbhayaLibreSemiBold"@.len());
        },
        Font::AbhayaLibreBold => {
            reveal_strlit("ABeeZeeRegular");
            reveal_strlit("ABeeZeeItalic");
            reveal_strlit("ADLaMDisplayRegular");
            reveal_strlit("AROneSansRegular");
            reveal_strlit("AROneSansMedium");
            reveal_strlit("AROneSansSemiBold");
            reveal_strlit("AROneSansBold");
            reveal_strlit("AROneSansVariable");
            reveal_strlit("AbelRegular");
            reveal_strlit("AbhayaLibreRegular");
            reveal_strlit("AbhayaLibreMedium");
            reveal_strlit("AbhayaLibreSemiBold");
            reveal_strlit("AbhayaLibreBold");
            assert("ABeeZeeRegular"@.len() != "AbhayaLibreBold"@.len());
            assert("ABeeZeeItalic"@.len() != "AbhayaLibreBold"@.len());
            assert("ADLaMDisplayRegular"@.len() != "AbhayaLibreBold"@.len());
            assert("AROneSansRegular"@.len() != "AbhayaLibreBold"@.len());
            assert("AROneSansMedium"@[1] != "AbhayaLibreBold"@[1]);
            assert("AROneSansSemiBold"@.len() != "AbhayaLibreBold"@.len());
            assert("AROneSansBold"@.len() != "AbhayaLibreBold"@.len());
            assert("AROneSansVariable"@.len() != "AbhayaLibreBold"@.len());
            assert("AbelRegular"@.len() != "AbhayaLibreBold"@.len());
            assert("AbhayaLibreRegular"@.len() != "AbhayaLibreBold"@.len());
            assert("AbhayaLibreMedium"@.len() != "AbhayaLibreBold"@.len());
            assert("AbhayaLibreSemiBold"@.len() != "AbhayaLibreBold"@.len());
        },
        Font::AbhayaLibreExtraBold => {
            reveal_strlit("ABeeZeeRegular");
            reveal_strlit("ABeeZeeItalic");
            reveal_strlit("ADLaMDisplayRegular");
            reveal_strlit("AROneSansRegular");
            reveal_strlit("AROneSansMedium");
            reveal_strlit("AROneSansSemiBold");
            reveal_strlit("AROneSansBold");
            reveal_strlit("AROneSansVariable");
            reveal_strlit("AbelRegular");
            reveal_strlit("AbhayaLibreRegular");
            reveal_strlit("AbhayaLibreMedium");
            reveal_strlit("AbhayaLibreSemiBold");
            reveal_strlit("AbhayaLibreBold");
            reveal_strlit("AbhayaLibreExtraBold");
            assert("ABeeZeeRegular"@.len() != "AbhayaLibreExtraBold"@.len());
            assert("ABeeZeeItalic"@.len() != "AbhayaLibreExtraBold"@.len());
            assert("ADLaMDisplayRegular"@.len() != "AbhayaLibreExtraBold"@.len());
            assert("AROneSansRegular"@.len() != "AbhayaLibreExtraBold"@.len());
            assert("AROneSansMedium"@.len() != "AbhayaLibreExtraBold"@.len());
            assert("AROneSansSemiBold"@.len() != "AbhayaLibreExtraBold"@.len());
            assert("AROneSansBold"@.len() != "AbhayaLibreExtraBold"@.len());
            assert("AROneSansVariable"@.len() != "AbhayaLibreExtraBold"@.len());
            assert("AbelRegular"@.len() != "AbhayaLibreExtraBold"@.len());
            assert("AbhayaLibreRegular"@.len() != "AbhayaLibreExtraBold"@.len());
            assert("AbhayaLibreMedium"@.len() != "AbhayaLibreExtraBold"@.len());
            assert("AbhayaLibreSemiBold"@.len() != "AbhayaLibreExtraBold"@.len());
            assert("AbhayaLibreBold"@.len() != "AbhayaLibreExtraBold"@.len());
        },
        Font::AboretoRegular => {
            reveal_strlit("ABeeZeeRegular");
            reveal_strlit("ABeeZeeItalic");
            reveal_strlit("ADLaMDisplayRegular");
            reveal_strlit("AROneSansRegular");
            reveal_strlit("AROneSansMedium");
            reveal_strlit("AROneSansSemiBold");
            reveal_strlit("AROneSansBold");
            reveal_strlit("AROneSansVariable");
            reveal_strlit("AbelRegular");
            reveal_strlit("AbhayaLibreRegular");
            reveal_strlit("AbhayaLibreMedium");
            reveal_strlit("AbhayaLibreSemiBold");
            reveal_strlit("AbhayaLibreBold");
            reveal_strlit("AbhayaLibreExtraBold");
            reveal_strlit("AboretoRegular");
            assert("ABeeZeeRegular"@[1] != "AboretoRegular"@[1]);
            assert("ABeeZeeItalic"@.len() != "AboretoRegular"@.len());
            assert("ADLaMDisplayRegular"@.len() != "AboretoRegular"@.len());
            assert("AROneSansRegular"@.len() != "AboretoRegular"@.len());
            assert("AROneSansMedium"@.len() != "AboretoRegular"@.len());
            assert("AROneSansSemiBold"@.len() != "AboretoRegular"@.len());
            assert("AROneSansBold"@.len() != "AboretoRegular"@.len());
            assert("AROneSansVariable"@.len() != "AboretoRegular"@.len());
            assert("AbelRegular"@.len() != "AboretoRegular"@.len());
            assert("AbhayaLibreRegular"@.len() != "AboretoRegular"@.len());
            assert("AbhayaLibreMedium"@.len() != "AboretoRegular"@.len());
            assert("AbhayaLibreSemiBold"@.len() != "AboretoRegular"@.len());
            assert("AbhayaLibreBold"@.len() != "AboretoRegular"@.len());
            assert("AbhayaLibreExtraBold"@.len() != "AboretoRegular"@.len());
        },
        Font::AbrilFatfaceRegular => {
            reveal_strlit("ABeeZeeRegular");
            reveal_strlit("ABeeZeeItalic");
            reveal_strlit("ADLaMDisplayRegular");
            reveal_strlit("AROneSansRegular");
            reveal_strlit("AROneSansMedium");
            reveal_strlit("AROneSansSemiBold");
            reveal_strlit("AROneSansBold");
            reveal_strlit("AROneSansVariable");
            reveal_strlit("AbelRegular");
            reveal_strlit("AbhayaLibreRegular");
            reveal_strlit("AbhayaLibreMedium");
            reveal_strlit("AbhayaLibreSemiBold");
            reveal_strlit("AbhayaLibreBold");
            reveal_strlit("AbhayaLibreExtraBold");
            reveal_strlit("AboretoRegular");
            reveal_strlit("AbrilFatfaceRegular");
            assert("ABeeZeeRegular"@.len() != "AbrilFatfaceRegular"@.len());
            assert("ABeeZeeItalic"@.len() != "AbrilFatfaceRegular"@.len());
            assert("ADLaMDisplayRegular"@[1] != "AbrilFatfaceRegular"@[1]);
            assert("AROneSansRegular"@.len() != "AbrilFatfaceRegular"@.len());
            assert("AROneSansMedium"@.len() != "AbrilFatfaceRegular"@.len());
            assert("AROneSansSemiBold"@.len() != "AbrilFatfaceRegular"@.len());
            assert("AROneSansBold"@.len() != "AbrilFatfaceRegular"@.len());
            assert("AROneSansVariable"@.len() != "AbrilFatfaceRegular"@.len());
            assert("AbelRegular"@.len() != "AbrilFatfaceRegular"@.len());
            assert("AbhayaLibreRegular"@.len() != "AbrilFatfaceRegular"@.len());
            assert("AbhayaLibreMedium"@.len() != "AbrilFatfaceRegular"@.len());
            assert("AbhayaLibreSemiBold"@[2] != "AbrilFatfaceRegular"@[2]);
            assert("AbhayaLibreBold"@.len() != "AbrilFatfaceRegular"@.len());
            assert("AbhayaLibreExtraBold"@.len() != "AbrilFatfaceRegular"@.len());
            assert("AboretoRegular"@.len() != "AbrilFatfaceRegular"@.len());
        },
        Font::AbyssinicaSILRegular => {
            reveal_strlit("ABeeZeeRegular");
            reveal_strlit("ABeeZeeItalic");
            reveal_strlit("ADLaMDisplayRegular");
            reveal_strlit("AROneSansRegular");
            reveal_strlit("AROneSansMedium");
            reveal_strlit("AROneSansSemiBold");
            reveal_strlit("AROneSansBold");
            reveal_strlit("AROneSansVariable");
            reveal_strlit("AbelRegular");
            reveal_strlit("AbhayaLibreRegular");
            reveal_strlit("AbhayaLibreMedium");
            reveal_strlit("AbhayaLibreSemiBold");
            reveal_strlit("AbhayaLibreBold");
            reveal_strlit("AbhayaLibreExtraBold");
            reveal_strlit("AboretoRegular");
            reveal_strlit("AbrilFatfaceRegular");
            reveal_strlit("AbyssinicaSILRegular");
            assert("ABeeZeeRegular"@.len() != "AbyssinicaSILRegular"@.len());
            assert("ABeeZeeItalic"@.len() != "AbyssinicaSILRegular"@.len());
            assert("ADLaMDisplayRegular"@.len() != "AbyssinicaSILRegular"@.len());
            assert("AROneSansRegular"@.len() != "AbyssinicaSILRegular"@.len());
            assert("AROneSansMedium"@.len() != "AbyssinicaSILRegular"@.len());
            assert("AROneSansSemiBold"@.len() != "AbyssinicaSILRegular"@.len());
            assert("AROneSansBold"@.len() != "AbyssinicaSILRegular"@.len());
            assert("AROneSansVariable"@.len() != "AbyssinicaSILRegular"@.len());
            assert("AbelRegular"@.len() != "AbyssinicaSILRegular"@.len());
            assert("AbhayaLibreRegular"@.len() != "AbyssinicaSILRegular"@.len());
            assert("AbhayaLibreMedium"@.len() != "AbyssinicaSILRegular"@.len());
            assert("AbhayaLibreSemiBold"@.len() != "AbyssinicaSILRegular"@.len());
            assert("AbhayaLibreBold"@.len() != "AbyssinicaSILRegular"@.len());
            assert("AbhayaLibreExtraBold"@[2] != "AbyssinicaSILRegular"@[2]);
            assert("AboretoRegular"@.len() != "AbyssinicaSILRegular"@.len());
            assert("AbrilFatfaceRegular"@.len() != "AbyssinicaSILRegular"@.len());
        },
        Font::AclonicaRegular => {
            reveal_strlit("ABeeZeeRegular");
            reveal_strlit("ABeeZeeItalic");
            reveal_strlit("ADLaMDisplayRegular");
            reveal_strlit("AROneSansRegular");
            reveal_strlit("AROneSansMedium");
            reveal_strlit("AROneSansSemiBold");
            reveal_strlit("AROneSansBold");
            reveal_strlit("AROneSansVariable");
            reveal_strlit("AbelRegular");
            reveal_strlit("AbhayaLibreRegular");
            reveal_strlit("AbhayaLibreMedium");
            reveal_strlit("AbhayaLibreSemiBold");
            reveal_strlit("AbhayaLibreBold");
            reveal_strlit("AbhayaLibreExtraBold");
            reveal_strlit("AboretoRegular");
            reveal_strlit("AbrilFatfaceRegular");
            reveal_strlit("AbyssinicaSILRegular");
            reveal_strlit("AclonicaRegular");
            assert("ABeeZeeRegular"@.len() != "AclonicaRegular"@.len());
            assert("ABeeZeeItalic"@.len() != "AclonicaRegular"@.len());
            assert("ADLaMDisplayRegular"@.len() != "AclonicaRegular"@.len());
            assert("AROneSansRegular"@.len() != "AclonicaRegular"@.len());
            assert("AROneSansMedium"@[1] != "AclonicaRegular"@[1]);
            assert("AROneSansSemiBold"@.len() != "AclonicaRegular"@.len());
            assert("AROneSansBold"@.len() != "AclonicaRegular"@.len());
            assert("AROneSansVariable"@.len() != "AclonicaRegular"@.len());
            assert("AbelRegular"@.len() != "AclonicaRegular"@.len());
            assert("AbhayaLibreRegular"@.len() != "AclonicaRegular"@.len());
            assert("AbhayaLibreMedium"@.len() != "AclonicaRegular"@.len());
            assert("AbhayaLibreSemiBold"@.len() != "AclonicaRegular"@.len());
            assert("AbhayaLibreBold"@[1] != "AclonicaRegular"@[1]);
            assert("AbhayaLibreExtraBold"@.len() != "AclonicaRegular"@.len());
            assert("AboretoRegular"@.len() != "AclonicaRegular"@.len());
            assert("AbrilFatfaceRegular"@.len() != "AclonicaRegular"@.len());
            assert("AbyssinicaSILRegular"@.len() != "AclonicaRegular"@.len());
        },
        Font::AcmeRegular => {
            reveal_strlit("ABeeZeeRegular");
            reveal_strlit("ABeeZeeItalic");
            reveal_strlit("ADLaMDisplayRegular");
            reveal_strlit("AROneSansRegular");
            reveal_strlit("AROneSansMedium");
            reveal_strlit("AROneSansSemiBold");
            reveal_strlit("AROneSansBold");
            reveal_strlit("AROneSansVariable");
            reveal_strlit("AbelRegular");
            reveal_strlit("AbhayaLibreRegular");
            reveal_strlit("AbhayaLibreMedium");
            reveal_strlit("AbhayaLibreSemiBold");
            reveal_strlit("AbhayaLibreBold");
            reveal_strlit("AbhayaLibreExtraBold");
            reveal_strlit("AboretoRegular");
            reveal_strlit("AbrilFatfaceRegular");
            reveal_strlit("AbyssinicaSILRegular");
            reveal_strlit("AclonicaRegular");
            reveal_strlit("AcmeRegular");
            assert("ABeeZeeRegular"@.len() != "AcmeRegular"@.len());
            assert("ABeeZeeItalic"@.len() != "AcmeRegular"@.len());
            assert("ADLaMDisplayRegular"@.len() != "AcmeRegular"@.len());
            assert("AROneSansRegular"@.len() != "AcmeRegular"@.len());
            assert("AROneSansMedium"@.len() != "AcmeRegular"@.len());
            assert("AROneSansSemiBold"@.len() != "AcmeRegular"@.len());
            assert("AROneSansBold"@.len() != "AcmeRegular"@.len());
            assert("AROneSansVariable"@.len() != "AcmeRegular"@.len());
            assert("AbelRegular"@[1] != "AcmeRegular"@[1]);
            assert("AbhayaLibreRegular"@.len() != "AcmeRegular"@.len());
            assert("AbhayaLibreMedium"@.len() != "AcmeRegular"@.len());
            assert("AbhayaLibreSemiBold"@.len() != "AcmeRegular"@.len());
            assert("AbhayaLibreBold"@.len() != "AcmeRegular"@.len());
            assert("AbhayaLibreExtraBold"@.len() != "AcmeRegular"@.len());
            assert("AboretoRegular"@.len() != "AcmeRegular"@.len());
            assert("AbrilFatfaceRegular"@.len() != "AcmeRegular"@.len());
            assert("AbyssinicaSILRegular"@.len() != "AcmeRegular"@.len());
            assert("AclonicaRegular"@.len() != "AcmeRegular"@.len());
        },
        Font::ActorRegular => {
            reveal_strlit("ABeeZeeRegular");
            reveal_strlit("ABeeZeeItalic");
            reveal_strlit("ADLaMDisplayRegular");
            reveal_strlit("AROneSansRegular");
            reveal_strlit("AROneSansMedium");
            reveal_strlit("AROneSansSemiBold");
            reveal_strlit("AROneSansBold");
            reveal_strlit("AROneSansVariable");
            reveal_strlit("AbelRegular");
            reveal_strlit("AbhayaLibreRegular");
            reveal_strlit("AbhayaLibreMedium");
            reveal_strlit("AbhayaLibreSemiBold");
            reveal_strlit("AbhayaLibreBold");
            reveal_strlit("AbhayaLibreExtraBold");
            reveal_strlit("AboretoRegular");
            reveal_strlit("AbrilFatfaceRegular");
            reveal_strlit("AbyssinicaSILRegular");
            reveal_strlit("AclonicaRegular");
            reveal_strlit("AcmeRegular");
            reveal_strlit("ActorRegular");
            assert("ABeeZeeRegular"@.len() != "ActorRegular"@.len());
            assert("ABeeZeeItalic"@.len() != "ActorRegular"@.len());
            assert("ADLaMDisplayRegular"@.len() != "ActorRegular"@.len());
            assert("AROneSansRegular"@.len() != "ActorRegular"@.len());
            assert("AROneSansMedium"@.len() != "ActorRegular"@.len());
            assert("AROneSansSemiBold"@.len() != "ActorRegular"@.len());
            assert("AROneSansBold"@.len() != "ActorRegular"@.len());
            assert("AROneSansVariable"@.len() != "ActorRegular"@.len());
            assert("AbelRegular"@.len() != "ActorRegular"@.len());
            assert("AbhayaLibreRegular"@.len() != "ActorRegular"@.len());
            assert("AbhayaLibreMedium"@.len() != "ActorRegular"@.len());
            assert("AbhayaLibreSemiBold"@.len() != "ActorRegular"@.len());
            assert("AbhayaLibreBold"@.len() != "ActorRegular"@.len());
            assert("AbhayaLibreExtraBold"@.len() != "ActorRegular"@.len());
            assert("AboretoRegular"@.len() != "ActorRegular"@.len());
            assert("AbrilFatfaceRegular"@.len() != "ActorRegular"@.len());
            assert("AbyssinicaSILRegular"@.len() != "ActorRegular"@.len());
            assert("AclonicaRegular"@.len() != "ActorRegular"@.len());
            assert("AcmeRegular"@.len() != "ActorRegular"@.len());
        },
    }
}

} // verus!
