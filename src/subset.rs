use vstd::prelude::*;

use crate::catalog::{fonts_of, fonts_of_families};
use crate::family::Family;
use crate::font::Font;

verus! {

/// An enumeration of font subsets: the scripts and languages that families cover.
///
/// A family declares one or more subsets.
#[derive(Debug, Clone, Copy, PartialEq, Eq, Structural, PartialOrd, Ord, Hash)]
pub enum Subset {
    Adlam,
    Ethiopic,
    Latin,
    LatinExt,
    Menu,
    Sinhala,
    Vietnamese,
}

/// The families that declare a subset, in catalog order.
pub open spec fn subset_families(s: Subset) -> Seq<Family> {
    match s {
        Subset::Adlam => seq![Family::ADLaMDisplay],
        Subset::Ethiopic => seq![Family::AbyssinicaSIL],
        Subset::Latin => seq![
            Family::ABeeZee,
            Family::ADLaMDisplay,
            Family::AROneSans,
            Family::Abel,
            Family::AbhayaLibre,
            Family::Aboreto,
            Family::AbrilFatface,
            Family::AbyssinicaSIL,
            Family::Aclonica,
            Family::Acme,
            Family::Actor,
        ],
        Subset::LatinExt => seq![
            Family::ABeeZee,
            Family::ADLaMDisplay,
            Family::AROneSans,
            Family::AbhayaLibre,
            Family::Aboreto,
            Family::AbrilFatface,
            Family::AbyssinicaSIL,
        ],
        Subset::Menu => seq![
            Family::ABeeZee,
            Family::ADLaMDisplay,
            Family::AROneSans,
            Family::Abel,
            Family::AbhayaLibre,
            Family::Aboreto,
            Family::AbrilFatface,
            Family::AbyssinicaSIL,
            Family::Aclonica,
            Family::Acme,
            Family::Actor,
        ],
        Subset::Sinhala => seq![Family::AbhayaLibre],
        Subset::Vietnamese => seq![Family::AROneSans],
    }
}

/// The fonts of a subset: those of its families, family by family.
pub open spec fn subset_fonts(s: Subset) -> Seq<Font> {
    fonts_of(subset_families(s))
}

impl Subset {
    /// Returns the families that declare the subset, in catalog order.
    pub fn families(&self) -> (r: Vec<Family>)
        ensures
            r@ == subset_families(*self),
    {
        match *self {
            Subset::Adlam => vec![Family::ADLaMDisplay],
            Subset::Ethiopic => vec![Family::AbyssinicaSIL],
            Subset::Latin => vec![
                Family::ABeeZee,
                Family::ADLaMDisplay,
                Family::AROneSans,
                Family::Abel,
                Family::AbhayaLibre,
                Family::Aboreto,
                Family::AbrilFatface,
                Family::AbyssinicaSIL,
                Family::Aclonica,
                Family::Acme,
                Family::Actor,
            ],
            Subset::LatinExt => vec![
                Family::ABeeZee,
                Family::ADLaMDisplay,
                Family::AROneSans,
                Family::AbhayaLibre,
                Family::Aboreto,
                Family::AbrilFatface,
                Family::AbyssinicaSIL,
            ],
            Subset::Menu => vec![
                Family::ABeeZee,
                Family::ADLaMDisplay,
                Family::AROneSans,
                Family::Abel,
                Family::AbhayaLibre,
                Family::Aboreto,
                Family::AbrilFatface,
                Family::AbyssinicaSIL,
                Family::Aclonica,
                Family::Acme,
                Family::Actor,
            ],
            Subset::Sinhala => vec![Family::AbhayaLibre],
            Subset::Vietnamese => vec![Family::AROneSans],
        }
    }

    /// Returns the fonts of the subset: the fonts of each of its families in turn.
    pub fn fonts(&self) -> (r: Vec<Font>)
        ensures
            r@ == subset_fonts(*self),
    {
        let families = self.families();
        fonts_of_families(&families)
    }
}

} // verus!
