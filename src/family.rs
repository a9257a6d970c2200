use vstd::prelude::*;

use crate::category::Category;
use crate::font::{font_from_id, font_id, Font};

verus! {

/// Width of the numeric block that each family owns in the identity space.
///
/// A family's id is a multiple of this width and the ids of its fonts follow
/// it one by one, so every family must hold fewer fonts than this.
pub const ID_INCREMENT: isize = 1000;

/// An enumeration of the font families in the catalog.
///
/// A family holds one or more fonts of different styles and weights.
#[derive(Debug, Clone, Copy, PartialEq, Eq, Structural, PartialOrd, Ord, Hash)]
pub enum Family {
    ABeeZee,
    ADLaMDisplay,
    AROneSans,
    Abel,
    AbhayaLibre,
    Aboreto,
    AbrilFatface,
    AbyssinicaSIL,
    Aclonica,
    Acme,
    Actor,
}

/// The numeric identifier of a family: the first id of its block.
pub open spec fn family_id(m: Family) -> int {
    match m {
        Family::ABeeZee => 0,
        Family::ADLaMDisplay => 1000,
        Family::AROneSans => 2000,
        Family::Abel => 3000,
        Family::AbhayaLibre => 4000,
        Family::Aboreto => 5000,
        Family::AbrilFatface => 6000,
        Family::AbyssinicaSIL => 7000,
        Family::Aclonica => 8000,
        Family::Acme => 9000,
        Family::Actor => 10000,
    }
}

/// The family whose id is `id`, if there is one.
pub open spec fn family_from_id(id: int) -> Option<Family> {
    if id == 0 {
        Some(Family::ABeeZee)
    } else if id == 1000 {
        Some(Family::ADLaMDisplay)
    } else if id == 2000 {
        Some(Family::AROneSans)
    } else if id == 3000 {
        Some(Family::Abel)
    } else if id == 4000 {
        Some(Family::AbhayaLibre)
    } else if id == 5000 {
        Some(Family::Aboreto)
    } else if id == 6000 {
        Some(Family::AbrilFatface)
    } else if id == 7000 {
        Some(Family::AbyssinicaSIL)
    } else if id == 8000 {
        Some(Family::Aclonica)
    } else if id == 9000 {
        Some(Family::Acme)
    } else if id == 10000 {
        Some(Family::Actor)
    } else {
        None
    }
}

/// The display name of a family, with spaces.
pub open spec fn family_name(m: Family) -> Seq<char> {
    match m {
        Family::ABeeZee => "ABeeZee"@,
        Family::ADLaMDisplay => "ADLaM Display"@,
        Family::AROneSans => "AR One Sans"@,
        Family::Abel => "Abel"@,
        Family::AbhayaLibre => "Abhaya Libre"@,
        Family::Aboreto => "Aboreto"@,
        Family::AbrilFatface => "Abril Fatface"@,
        Family::AbyssinicaSIL => "Abyssinica SIL"@,
        Family::Aclonica => "Aclonica"@,
        Family::Acme => "Acme"@,
        Family::Actor => "Actor"@,
    }
}

/// The fonts of a family, in the order of the family's remote file list.
pub open spec fn family_fonts(m: Family) -> Seq<Font> {
    match m {
        Family::ABeeZee => seq![Font::ABeeZeeRegular, Font::ABeeZeeItalic],
        Family::ADLaMDisplay => seq![Font::ADLaMDisplayRegular],
        Family::AROneSans => seq![
            Font::AROneSansRegular,
            Font::AROneSansMedium,
            Font::AROneSansSemiBold,
            Font::AROneSansBold,
            Font::AROneSansVariable,
        ],
        Family::Abel => seq![Font::AbelRegular],
        Family::AbhayaLibre => seq![
            Font::AbhayaLibreRegular,
            Font::AbhayaLibreMedium,
            Font::AbhayaLibreSemiBold,
            Font::AbhayaLibreBold,
            Font::AbhayaLibreExtraBold,
        ],
        Family::Aboreto => seq![Font::AboretoRegular],
        Family::AbrilFatface => seq![Font::AbrilFatfaceRegular],
        Family::AbyssinicaSIL => seq![Font::AbyssinicaSILRegular],
        Family::Aclonica => seq![Font::AclonicaRegular],
        Family::Acme => seq![Font::AcmeRegular],
        Family::Actor => seq![Font::ActorRegular],
    }
}

/// The category that a family is tagged with.
pub open spec fn family_category(m: Family) -> Category {
    match m {
        Family::ABeeZee => Category::SansSerif,
        Family::ADLaMDisplay => Category::Display,
        Family::AROneSans => Category::SansSerif,
        Family::Abel => Category::SansSerif,
        Family::AbhayaLibre => Category::Serif,
        Family::Aboreto => Category::Display,
        Family::AbrilFatface => Category::Display,
        Family::AbyssinicaSIL => Category::Serif,
        Family::Aclonica => Category::SansSerif,
        Family::Acme => Category::SansSerif,
        Family::Actor => Category::SansSerif,
    }
}

/// Every family of the catalog, in declaration order.
pub open spec fn all_families() -> Seq<Family> {
    seq![
        Family::ABeeZee,
        Family::ADLaMDisplay,
        Family::AROneSans,
        Family::Abel,
        Family::AbhayaLibre,
        Family::Aboreto,
        Family::AbrilFatface,
        Family::AbyssinicaSIL,
        Family::Aclonica,
        Family::Acme,
        Family::Actor,
    ]
}

/// The block layout of one family: its id is a multiple of the block width,
/// it holds between one font and fewer than the block width, and its `i`-th
/// font has the id `family_id(m) + i`.
pub proof fn lemma_family_block(m: Family)
    ensures
        0 <= family_id(m) <= 10000,
        family_id(m) % (ID_INCREMENT as int) == 0,
        family_from_id(family_id(m)) == Some(m),
        0 < family_fonts(m).len() < ID_INCREMENT,
        forall|i: int|
            0 <= i < family_fonts(m).len() ==> #[trigger] font_id(family_fonts(m)[i])
                == family_id(m) + i,
{
    let s = family_fonts(m);
    assert forall|i: int| 0 <= i < s.len() implies #[trigger] font_id(s[i]) == family_id(m) + i by {
        if i == 0 {
        } else if i == 1 {
        } else if i == 2 {
        } else if i == 3 {
        } else {
        }
    }
}

/// Every family is listed in `all_families`, exactly once.
pub proof fn lemma_all_families_complete(m: Family)
    ensures
        all_families().contains(m),
        all_families().no_duplicates(),
{
    let s = all_families();
    let i: int = match m {
        Family::ABeeZee => 0,
        Family::ADLaMDisplay => 1,
        Family::AROneSans => 2,
        Family::Abel => 3,
        Family::AbhayaLibre => 4,
        Family::Aboreto => 5,
        Family::AbrilFatface => 6,
        Family::AbyssinicaSIL => 7,
        Family::Aclonica => 8,
        Family::Acme => 9,
        Family::Actor => 10,
    };
    assert(s[i] == m);
    assert forall|a: int, b: int| 0 <= a < s.len() && 0 <= b < s.len() && a != b implies s[a]
        != s[b] by {
        assert(family_id(s[a]) == 1000 * a) by {
            lemma_all_families_ids(a);
        }
        assert(family_id(s[b]) == 1000 * b) by {
            lemma_all_families_ids(b);
        }
    }
}

/// Families are declared in increasing id order, one block apart.
proof fn lemma_all_families_ids(i: int)
    requires
        0 <= i < all_families().len(),
    ensures
        family_id(all_families()[i]) == 1000 * i,
{
    if i == 0 {
    } else if i == 1 {
    } else if i == 2 {
    } else if i == 3 {
    } else if i == 4 {
    } else if i == 5 {
    } else if i == 6 {
    } else if i == 7 {
    } else if i == 8 {
    } else if i == 9 {
    } else {
    }
}

impl Family {
    /// Returns the id of the family.
    pub fn id(&self) -> (r: isize)
        ensures
            r == family_id(*self),
    {
        match *self {
            Family::ABeeZee => 0,
            Family::ADLaMDisplay => 1000,
            Family::AROneSans => 2000,
            Family::Abel => 3000,
            Family::AbhayaLibre => 4000,
            Family::Aboreto => 5000,
            Family::AbrilFatface => 6000,
            Family::AbyssinicaSIL => 7000,
            Family::Aclonica => 8000,
            Family::Acme => 9000,
            Family::Actor => 10000,
        }
    }

    /// Returns the family whose id is `id`, or `None` where no family has it.
    pub fn from_id(id: isize) -> (r: Option<Family>)
        ensures
            r == family_from_id(id as int),
    {
        if id == 0 {
            Some(Family::ABeeZee)
        } else if id == 1000 {
            Some(Family::ADLaMDisplay)
        } else if id == 2000 {
            Some(Family::AROneSans)
        } else if id == 3000 {
            Some(Family::Abel)
        } else if id == 4000 {
            Some(Family::AbhayaLibre)
        } else if id == 5000 {
            Some(Family::Aboreto)
        } else if id == 6000 {
            Some(Family::AbrilFatface)
        } else if id == 7000 {
            Some(Family::AbyssinicaSIL)
        } else if id == 8000 {
            Some(Family::Aclonica)
        } else if id == 9000 {
            Some(Family::Acme)
        } else if id == 10000 {
            Some(Family::Actor)
        } else {
            None
        }
    }

    /// Returns the default font of the family: the first of its fonts, whose
    /// id is the family's own.
    pub fn font(&self) -> (r: Font)
        ensures
            r == family_fonts(*self)[0],
            font_id(r) == family_id(*self),
    {
        proof {
            lemma_family_block(*self);
            crate::font::lemma_font_id_round_trip(family_fonts(*self)[0]);
        }
        match Font::from_id(self.id()) {
            Some(f) => f,
            None => {
                proof {
                    assert(false);
                }
                Font::ABeeZeeRegular
            }
        }
    }

    /// Returns the display name of the family, with spaces.
    pub fn name(&self) -> (r: String)
        ensures
            r@ == family_name(*self),
    {
        let s: &str = match *self {
            Family::ABeeZee => "ABeeZee",
            Family::ADLaMDisplay => "ADLaM Display",
            Family::AROneSans => "AR One Sans",
            Family::Abel => "Abel",
            Family::AbhayaLibre => "Abhaya Libre",
            Family::Aboreto => "Aboreto",
            Family::AbrilFatface => "Abril Fatface",
            Family::AbyssinicaSIL => "Abyssinica SIL",
            Family::Aclonica => "Aclonica",
            Family::Acme => "Acme",
            Family::Actor => "Actor",
        };
        String::from_str(s)
    }

    /// Returns the fonts of the family, in the order of its remote file list.
    pub fn fonts(&self) -> (r: Vec<Font>)
        ensures
            r@ == family_fonts(*self),
    {
        match *self {
            Family::ABeeZee => vec![Font::ABeeZeeRegular, Font::ABeeZeeItalic],
            Family::ADLaMDisplay => vec![Font::ADLaMDisplayRegular],
            Family::AROneSans => vec![
                Font::AROneSansRegular,
                Font::AROneSansMedium,
                Font::AROneSansSemiBold,
                Font::AROneSansBold,
                Font::AROneSansVariable,
            ],
            Family::Abel => vec![Font::AbelRegular],
            Family::AbhayaLibre => vec![
                Font::AbhayaLibreRegular,
                Font::AbhayaLibreMedium,
                Font::AbhayaLibreSemiBold,
                Font::AbhayaLibreBold,
                Font::AbhayaLibreExtraBold,
            ],
            Family::Aboreto => vec![Font::AboretoRegular],
            Family::AbrilFatface => vec![Font::AbrilFatfaceRegular],
            Family::AbyssinicaSIL => vec![Font::AbyssinicaSILRegular],
            Family::Aclonica => vec![Font::AclonicaRegular],
            Family::Acme => vec![Font::AcmeRegular],
            Family::Actor => vec![Font::ActorRegular],
        }
    }

    /// Returns the category of the family.
    pub fn category(&self) -> (r: Category)
        ensures
            r == family_category(*self),
    {
        match *self {
            Family::ABeeZee => Category::SansSerif,
            Family::ADLaMDisplay => Category::Display,
            Family::AROneSans => Category::SansSerif,
            Family::Abel => Category::SansSerif,
            Family::AbhayaLibre => Category::Serif,
            Family::Aboreto => Category::Display,
            Family::AbrilFatface => Category::Display,
            Family::AbyssinicaSIL => Category::Serif,
            Family::Aclonica => Category::SansSerif,
            Family::Acme => Category::SansSerif,
            Family::Actor => Category::SansSerif,
        }
    }

    /// Returns every family of the catalog, in declaration order.
    pub fn all() -> (r: Vec<Family>)
        ensures
            r@ == all_families(),
    {
        vec![
            Family::ABeeZee,
            Family::ADLaMDisplay,
            Family::AROneSans,
            Family::Abel,
            Family::AbhayaLibre,
            Family::Aboreto,
            Family::AbrilFatface,
            Family::AbyssinicaSIL,
            Family::Aclonica,
            Family::Acme,
            Family::Actor,
        ]
    }
}

} // verus!
