use vstd::prelude::*;

pub mod catalog;
pub mod category;
pub mod error;
pub mod family;
pub mod fetch;
pub mod font;
pub mod manifest;
pub mod subset;

pub use crate::category::Category;
pub use crate::error::{FontError, StringError};
pub use crate::family::{Family, ID_INCREMENT};
pub use crate::fetch::{Action, CachePath, Event, FontFetch, Stage};
pub use crate::font::Font;
pub use crate::subset::Subset;

verus! {

use crate::catalog::{all_fonts, all_fonts_vec};
use crate::fetch::{cached_start, root_view};
use crate::font::font_is_variable;

/// Starts retrieving the data of the ABeeZee _regular_ font through the disk
/// cache under `cache_root`.
pub fn abeezee_regular(cache_root: Option<String>) -> (r: FontFetch)
    ensures
        r@ == cached_start(Font::ABeeZeeRegular, root_view(cache_root)),
{
    FontFetch::cached(Font::ABeeZeeRegular, cache_root)
}

/// Starts retrieving the data of the ABeeZee _italic_ font through the disk
/// cache under `cache_root`.
pub fn abeezee_italic(cache_root: Option<String>) -> (r: FontFetch)
    ensures
        r@ == cached_start(Font::ABeeZeeItalic, root_view(cache_root)),
{
    FontFetch::cached(Font::ABeeZeeItalic, cache_root)
}

/// Starts retrieving the data of the ADLaM Display _regular_ font through the disk
/// cache under `cache_root`.
pub fn adlam_display_regular(cache_root: Option<String>) -> (r: FontFetch)
    ensures
        r@ == cached_start(Font::ADLaMDisplayRegular, root_view(cache_root)),
{
    FontFetch::cached(Font::ADLaMDisplayRegular, cache_root)
}

/// Starts retrieving the data of the AR One Sans _regular_ font through the disk
/// cache under `cache_root`.
pub fn ar_one_sans_regular(cache_root: Option<String>) -> (r: FontFetch)
    ensures
        r@ == cached_start(Font::AROneSansRegular, root_view(cache_root)),
{
    FontFetch::cached(Font::AROneSansRegular, cache_root)
}

/// Starts retrieving the data of the AR One Sans _medium_ font through the disk
/// cache under `cache_root`.
pub fn ar_one_sans_medium(cache_root: Option<String>) -> (r: FontFetch)
    ensures
        r@ == cached_start(Font::AROneSansMedium, root_view(cache_root)),
{
    FontFetch::cached(Font::AROneSansMedium, cache_root)
}

/// Starts retrieving the data of the AR One Sans _semi bold_ font through the disk
/// cache under `cache_root`.
pub fn ar_one_sans_semi_bold(cache_root: Option<String>) -> (r: FontFetch)
    ensures
        r@ == cached_start(Font::AROneSansSemiBold, root_view(cache_root)),
{
    FontFetch::cached(Font::AROneSansSemiBold, cache_root)
}

/// Starts retrieving the data of the AR One Sans _bold_ font through the disk
/// cache under `cache_root`.
pub fn ar_one_sans_bold(cache_root: Option<String>) -> (r: FontFetch)
    ensures
        r@ == cached_start(Font::AROneSansBold, root_view(cache_root)),
{
    FontFetch::cached(Font::AROneSansBold, cache_root)
}

/// Starts retrieving the data of the AR One Sans _variable_ font through the disk
/// cache under `cache_root`.
pub fn ar_one_sans_variable(cache_root: Option<String>) -> (r: FontFetch)
    ensures
        r@ == cached_start(Font::AROneSansVariable, root_view(cache_root)),
{
    FontFetch::cached(Font::AROneSansVariable, cache_root)
}

/// Starts retrieving the data of the Abel _regular_ font through the disk
/// cache under `cache_root`.
pub fn abel_regular(cache_root: Option<String>) -> (r: FontFetch)
    ensures
        r@ == cached_start(Font::AbelRegular, root_view(cache_root)),
{
    FontFetch::cached(Font::AbelRegular, cache_root)
}

/// Starts retrieving the data of the Abhaya Libre _regular_ font through the disk
/// cache under `cache_root`.
pub fn abhaya_libre_regular(cache_root: Option<String>) -> (r: FontFetch)
    ensures
        r@ == cached_start(Font::AbhayaLibreRegular, root_view(cache_root)),
{
    FontFetch::cached(Font::AbhayaLibreRegular, cache_root)
}

/// Starts retrieving the data of the Abhaya Libre _medium_ font through the disk
/// cache under `cache_root`.
pub fn abhaya_libre_medium(cache_root: Option<String>) -> (r: FontFetch)
    ensures
        r@ == cached_start(Font::AbhayaLibreMedium, root_view(cache_root)),
{
    FontFetch::cached(Font::AbhayaLibreMedium, cache_root)
}

/// Starts retrieving the data of the Abhaya Libre _semi bold_ font through the disk
/// cache under `cache_root`.
pub fn abhaya_libre_semi_bold(cache_root: Option<String>) -> (r: FontFetch)
    ensures
        r@ == cached_start(Font::AbhayaLibreSemiBold, root_view(cache_root)),
{
    FontFetch::cached(Font::AbhayaLibreSemiBold, cache_root)
}

/// Starts retrieving the data of the Abhaya Libre _bold_ font through the disk
/// cache under `cache_root`.
pub fn abhaya_libre_bold(cache_root: Option<String>) -> (r: FontFetch)
    ensures
        r@ == cached_start(Font::AbhayaLibreBold, root_view(cache_root)),
{
    FontFetch::cached(Font::AbhayaLibreBold, cache_root)
}

/// Starts retrieving the data of the Abhaya Libre _extra bold_ font through the disk
/// cache under `cache_root`.
pub fn abhaya_libre_extra_bold(cache_root: Option<String>) -> (r: FontFetch)
    ensures
        r@ == cached_start(Font::AbhayaLibreExtraBold, root_view(cache_root)),
{
    FontFetch::cached(Font::AbhayaLibreExtraBold, cache_root)
}

/// Starts retrieving the data of the Aboreto _regular_ font through the disk
/// cache under `cache_root`.
pub fn aboreto_regular(cache_root: Option<String>) -> (r: FontFetch)
    ensures
        r@ == cached_start(Font::AboretoRegular, root_view(cache_root)),
{
    FontFetch::cached(Font::AboretoRegular, cache_root)
}

/// Starts retrieving the data of the Abril Fatface _regular_ font through the disk
/// cache under `cache_root`.
pub fn abril_fatface_regular(cache_root: Option<String>) -> (r: FontFetch)
    ensures
        r@ == cached_start(Font::AbrilFatfaceRegular, root_view(cache_root)),
{
    FontFetch::cached(Font::AbrilFatfaceRegular, cache_root)
}

/// Starts retrieving the data of the Abyssinica SIL _regular_ font through the disk
/// cache under `cache_root`.
pub fn abyssinica_sil_regular(cache_root: Option<String>) -> (r: FontFetch)
    ensures
        r@ == cached_start(Font::AbyssinicaSILRegular, root_view(cache_root)),
{
    FontFetch::cached(Font::AbyssinicaSILRegular, cache_root)
}

/// Starts retrieving the data of the Aclonica _regular_ font through the disk
/// cache under `cache_root`.
pub fn aclonica_regular(cache_root: Option<String>) -> (r: FontFetch)
    ensures
        r@ == cached_start(Font::AclonicaRegular, root_view(cache_root)),
{
    FontFetch::cached(Font::AclonicaRegular, cache_root)
}

/// Starts retrieving the data of the Acme _regular_ font through the disk
/// cache under `cache_root`.
pub fn acme_regular(cache_root: Option<String>) -> (r: FontFetch)
    ensures
        r@ == cached_start(Font::AcmeRegular, root_view(cache_root)),
{
    FontFetch::cached(Font::AcmeRegular, cache_root)
}

/// Starts retrieving the data of the Actor _regular_ font through the disk
/// cache under `cache_root`.
pub fn actor_regular(cache_root: Option<String>) -> (r: FontFetch)
    ensures
        r@ == cached_start(Font::ActorRegular, root_view(cache_root)),
{
    FontFetch::cached(Font::ActorRegular, cache_root)
}

/// The fonts that use variable-font technology, in catalog order.
pub open spec fn variable_fonts_of() -> Seq<Font> {
    all_fonts().filter(|f: Font| font_is_variable(f))
}

/// The fonts that use static-font technology, in catalog order.
pub open spec fn static_fonts_of() -> Seq<Font> {
    all_fonts().filter(|f: Font| !font_is_variable(f))
}

/// Returns the fonts of the catalog whose technology is variable where
/// `variable` holds, static otherwise, in catalog order.
fn fonts_by_technology(variable: bool) -> (r: Vec<Font>)
    ensures
        r@ == all_fonts().filter(|f: Font| font_is_variable(f) == variable),
{
    let all = all_fonts_vec();
    let ghost pred = |f: Font| font_is_variable(f) == variable;
    let mut out: Vec<Font> = Vec::new();
    let mut i: usize = 0;
    while i < all.len()
        invariant
            i <= all@.len(),
            all@ == all_fonts(),
            pred == (|f: Font| font_is_variable(f) == variable),
            out@ == all@.subrange(0, i as int).filter(pred),
        decreases all@.len() - i,
    {
        let f = all[i];
        proof {
            let prefix = all@.subrange(0, i as int);
            assert(all@.subrange(0, i + 1) =~= prefix.push(f));
            prefix.lemma_filter_push(f, pred);
        }
        if f.is_variable() == variable {
            out.push(f);
        }
        i = i + 1;
    }
    proof {
        assert(all@.subrange(0, i as int) =~= all@);
    }
    out
}

/// Returns the fonts that use variable-font technology, in catalog order.
pub fn variable_fonts() -> (r: Vec<Font>)
    ensures
        r@ == variable_fonts_of(),
{
    let r = fonts_by_technology(true);
    proof {
        assert((|f: Font| font_is_variable(f) == true) =~= (|f: Font| font_is_variable(f)));
    }
    r
}

/// Returns the fonts that use static-font technology, in catalog order.
pub fn static_fonts() -> (r: Vec<Font>)
    ensures
        r@ == static_fonts_of(),
{
    let r = fonts_by_technology(false);
    proof {
        assert((|f: Font| font_is_variable(f) == false) =~= (|f: Font| !font_is_variable(f)));
    }
    r
}

} // verus!
