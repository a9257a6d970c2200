use google_fonts::catalog::all_fonts_vec;
use google_fonts::{static_fonts, variable_fonts, Category, Family, Font, StringError, Subset};

#[test]
fn test_cast_family_font() {
    let fam = Family::ABeeZee;
    let fnt = Font::ABeeZeeRegular;
    assert_eq!(fam, fnt.family());
    assert_eq!(fnt, fam.font());
}

#[test]
fn font_ids_follow_family_blocks() {
    assert_eq!(Font::ABeeZeeItalic.id(), 1);
    assert_eq!(Font::AROneSansBold.id(), 2003);
    assert_eq!(Font::ActorRegular.id(), 10000);
    assert_eq!(Family::AbyssinicaSIL.id(), 7000);
    assert_eq!(Font::AbhayaLibreExtraBold.id(), Family::AbhayaLibre.id() + 4);
}

#[test]
fn identity_round_trip_every_font_and_family() {
    for f in all_fonts_vec() {
        assert_eq!(Font::from_id(f.id()), Some(f));
    }
    for m in Family::all() {
        assert_eq!(Family::from_id(m.id()), Some(m));
    }
}

#[test]
fn unknown_ids_are_not_found() {
    assert_eq!(Font::from_id(5), None);
    assert_eq!(Font::from_id(2005), None);
    assert_eq!(Font::from_id(-1000), None);
    assert_eq!(Font::from_id(11000), None);
    assert_eq!(Family::from_id(1), None);
    assert_eq!(Family::from_id(2004), None);
    assert_eq!(Family::from_id(-1), None);
}

#[test]
fn family_ownership_and_position() {
    assert_eq!(Font::AbhayaLibreExtraBold.family(), Family::AbhayaLibre);
    assert_eq!(Font::AbhayaLibreExtraBold.font_file_idx(), 4);
    assert_eq!(Font::AROneSansVariable.family(), Family::AROneSans);
    assert_eq!(Font::AROneSansVariable.font_file_idx(), 4);
    assert_eq!(Font::ABeeZeeItalic.font_file_idx(), 1);
    assert_eq!(Font::ActorRegular.font_file_idx(), 0);
    for f in all_fonts_vec() {
        let m = f.family();
        let fonts = m.fonts();
        assert_eq!(fonts[f.font_file_idx()], f);
        for other in Family::all() {
            assert_eq!(other.fonts().contains(&f), other == m);
        }
    }
}

#[test]
fn default_font_is_first_of_family() {
    assert_eq!(Family::AROneSans.font(), Font::AROneSansRegular);
    assert_eq!(Family::AbhayaLibre.font(), Font::AbhayaLibreRegular);
    for m in Family::all() {
        assert_eq!(m.font(), m.fonts()[0]);
        assert_eq!(m.font().id(), m.id());
    }
}

#[test]
fn family_fonts_in_file_order() {
    assert_eq!(
        Family::AROneSans.fonts(),
        vec![
            Font::AROneSansRegular,
            Font::AROneSansMedium,
            Font::AROneSansSemiBold,
            Font::AROneSansBold,
            Font::AROneSansVariable,
        ]
    );
    assert_eq!(Family::Acme.fonts(), vec![Font::AcmeRegular]);
}

#[test]
fn category_coverage_partitions_fonts() {
    let mut union: Vec<Font> = Vec::new();
    for c in Category::all() {
        for f in c.fonts() {
            assert_eq!(f.category(), c);
            assert!(!union.contains(&f));
            union.push(f);
        }
    }
    let all = all_fonts_vec();
    assert_eq!(all.len(), 20);
    assert_eq!(union.len(), all.len());
    for f in all {
        assert!(union.contains(&f));
    }
}

#[test]
fn category_lists() {
    assert_eq!(
        Category::Display.families(),
        vec![Family::ADLaMDisplay, Family::Aboreto, Family::AbrilFatface]
    );
    assert_eq!(
        Category::Display.fonts(),
        vec![Font::ADLaMDisplayRegular, Font::AboretoRegular, Font::AbrilFatfaceRegular]
    );
    assert_eq!(Category::Serif.fonts().len(), 6);
    assert_eq!(Category::SansSerif.fonts().len(), 11);
    assert_eq!(Family::AbhayaLibre.category(), Category::Serif);
    assert_eq!(Font::AbrilFatfaceRegular.category(), Category::Display);
}

#[test]
fn subset_lists() {
    assert_eq!(Subset::Vietnamese.families(), vec![Family::AROneSans]);
    assert_eq!(Subset::Vietnamese.fonts(), Family::AROneSans.fonts());
    assert_eq!(Subset::Sinhala.fonts().len(), 5);
    assert_eq!(Subset::Latin.fonts(), all_fonts_vec());
    assert_eq!(Subset::LatinExt.fonts().len(), 16);
    assert_eq!(Subset::Adlam.fonts(), vec![Font::ADLaMDisplayRegular]);
}

#[test]
fn names() {
    assert_eq!(Family::AROneSans.name(), "AR One Sans");
    assert_eq!(Family::AbyssinicaSIL.name(), "Abyssinica SIL");
    assert_eq!(Font::ADLaMDisplayRegular.name(), "ADLaMDisplayRegular");
    assert_eq!(Category::SansSerif.name(), "Sans Serif");
    assert_eq!(Category::Display.name(), "Display");
}

#[test]
fn technology_lists() {
    assert!(Font::AROneSansVariable.is_variable());
    assert!(!Font::AROneSansVariable.is_static());
    assert!(Font::AROneSansBold.is_static());
    assert_eq!(variable_fonts(), vec![Font::AROneSansVariable]);
    let statics = static_fonts();
    assert_eq!(statics.len(), 19);
    assert!(!statics.contains(&Font::AROneSansVariable));
    assert_eq!(statics[0], Font::ABeeZeeRegular);
    assert_eq!(statics[19 - 1], Font::ActorRegular);
}

#[test]
fn string_error_keeps_message() {
    let e = StringError::new("Missing cache directory");
    assert_eq!(e.message(), "Missing cache directory");
}

#[test]
fn name_round_trip_every_font() {
    for f in all_fonts_vec() {
        assert_eq!(Font::from_name(&f.name()), Some(f));
    }
    assert_eq!(Font::from_name("AbhayaLibreSemiBold"), Some(Font::AbhayaLibreSemiBold));
}

#[test]
fn unknown_names_are_not_found() {
    assert_eq!(Font::from_name(""), None);
    assert_eq!(Font::from_name("abeezeeregular"), None);
    assert_eq!(Font::from_name("ABeeZee Regular"), None);
    assert_eq!(Font::from_name("AR One Sans"), None);
}
