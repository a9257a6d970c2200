use vstd::prelude::*;

use crate::catalog::{fonts_of, fonts_of_families};
use crate::family::Family;
use crate::font::Font;

verus! {

/// An enumeration of font categories.
#[derive(Debug, Clone, Copy, PartialEq, Eq, Structural, PartialOrd, Ord, Hash)]
pub enum Category {
    Display,
    SansSerif,
    Serif,
}

/// The display name of a category, with spaces.
pub open spec fn category_name(c: Category) -> Seq<char> {
    match c {
        Category::Display => "Display"@,
        Category::SansSerif => "Sans Serif"@,
        Category::Serif => "Serif"@,
    }
}

/// The families tagged with a category, in catalog order.
pub open spec fn category_families(c: Category) -> Seq<Family> {
    match c {
        Category::Display => seq![Family::ADLaMDisplay, Family::Aboreto, Family::AbrilFatface],
        Category::SansSerif => seq![
            Family::ABeeZee,
            Family::AROneSans,
            Family::Abel,
            Family::Aclonica,
            Family::Acme,
            Family::Actor,
        ],
        Category::Serif => seq![Family::AbhayaLibre, Family::AbyssinicaSIL],
    }
}

/// The fonts of a category: those of its families, family by family.
pub open spec fn category_fonts(c: Category) -> Seq<Font> {
    fonts_of(category_families(c))
}

/// Every category, in declaration order.
pub open spec fn all_categories() -> Seq<Category> {
    seq![Category::Display, Category::SansSerif, Category::Serif]
}

impl Category {
    /// Returns the display name of the category, with spaces.
    pub fn name(&self) -> (r: String)
        ensures
            r@ == category_name(*self),
    {
        let s: &str = match *self {
            Category::Display => "Display",
            Category::SansSerif => "Sans Serif",
            Category::Serif => "Serif",
        };
        String::from_str(s)
    }

    /// Returns the families within the category, in catalog order.
    pub fn families(&self) -> (r: Vec<Family>)
        ensures
            r@ == category_families(*self),
    {
        match *self {
            Category::Display => vec![Family::ADLaMDisplay, Family::Aboreto, Family::AbrilFatface],
            Category::SansSerif => vec![
                Family::ABeeZee,
                Family::AROneSans,
                Family::Abel,
                Family::Aclonica,
                Family::Acme,
                Family::Actor,
            ],
            Category::Serif => vec![Family::AbhayaLibre, Family::AbyssinicaSIL],
        }
    }

    /// Returns the fonts within the category: the fonts of each of its
    /// families in turn.
    pub fn fonts(&self) -> (r: Vec<Font>)
        ensures
            r@ == category_fonts(*self),
    {
        let families = self.families();
        fonts_of_families(&families)
    }

    /// Returns every category, in declaration order.
    pub fn all() -> (r: Vec<Category>)
        ensures
            r@ == all_categories(),
    {
        vec![Category::Display, Category::SansSerif, Category::Serif]
    }
}

} // verus!
