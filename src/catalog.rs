use vstd::prelude::*;

use crate::category::{category_families, category_fonts, Category};
use crate::subset::{subset_families, subset_fonts, Subset};
use crate::family::{
    all_families, family_category, family_fonts, family_from_id, family_id,
    lemma_all_families_complete, lemma_family_block, Family,
};
use crate::font::{
    block_start, family_of, font_category, font_from_id, font_id, lemma_font_id_round_trip,
    lemma_font_owner, position_in_family, Font,
};

verus! {

/// The fonts of a sequence of families, concatenated family by family.
pub open spec fn fonts_of(families: Seq<Family>) -> Seq<Font>
    decreases families.len(),
{
    if families.len() == 0 {
        Seq::empty()
    } else {
        fonts_of(families.drop_last()) + family_fonts(families.last())
    }
}

/// Every font of the catalog, family by family.
pub open spec fn all_fonts() -> Seq<Font> {
    fonts_of(all_families())
}

/// Collects the fonts of `families`, family by family.
pub fn fonts_of_families(families: &Vec<Family>) -> (r: Vec<Font>)
    ensures
        r@ == fonts_of(families@),
{
    let mut out: Vec<Font> = Vec::new();
    let mut i: usize = 0;
    while i < families.len()
        invariant
            i <= families@.len(),
            out@ == fonts_of(families@.subrange(0, i as int)),
        decreases families@.len() - i,
    {
        let mut fonts = families[i].fonts();
        out.append(&mut fonts);
        proof {
            let next = families@.subrange(0, i + 1);
            assert(next.drop_last() =~= families@.subrange(0, i as int));
            assert(next.last() == families@[i as int]);
        }
        i = i + 1;
    }
    proof {
        assert(families@.subrange(0, i as int) =~= families@);
    }
    out
}

/// Returns every font of the catalog, family by family.
pub fn all_fonts_vec() -> (r: Vec<Font>)
    ensures
        r@ == all_fonts(),
{
    let families = Family::all();
    fonts_of_families(&families)
}

} // verus!

verus! {

/// A font stands in a family's font list exactly when that family is the one
/// its id block names, and it stands there at its position in the family,
/// and nowhere else.
pub proof fn lemma_family_ownership(f: Font, m: Family)
    ensures
        family_fonts(m).contains(f) <==> m == family_of(f),
        family_fonts(family_of(f))[position_in_family(f)] == f,
        forall|i: int|
            0 <= i < family_fonts(family_of(f)).len() && #[trigger] family_fonts(family_of(f))[i]
                == f ==> i == position_in_family(f),
{
    lemma_font_owner(f);
    lemma_family_block(m);
    lemma_family_block(family_of(f));
    if family_fonts(m).contains(f) {
        let i = choose|i: int| 0 <= i < family_fonts(m).len() && family_fonts(m)[i] == f;
        assert(font_id(f) == family_id(m) + i);
        assert(block_start(font_id(f)) == family_id(m));
    }
    assert(family_fonts(family_of(f))[position_in_family(f)] == f);
}

/// Identity round trip: decoding the id of a font or of a family gives it back.
pub proof fn lemma_identity_round_trip(f: Font, m: Family)
    ensures
        font_from_id(font_id(f)) == Some(f),
        family_from_id(family_id(m)) == Some(m),
{
    lemma_font_id_round_trip(f);
    lemma_family_block(m);
}

/// The fonts of a list of families are the fonts whose family is in the list.
pub proof fn lemma_fonts_of_contains(families: Seq<Family>, f: Font)
    ensures
        fonts_of(families).contains(f) <==> families.contains(family_of(f)),
    decreases families.len(),
{
    if families.len() > 0 {
        let init = families.drop_last();
        let last = families.last();
        lemma_fonts_of_contains(init, f);
        lemma_family_ownership(f, last);
        let a = fonts_of(init);
        let b = family_fonts(last);
        if (a + b).contains(f) {
            let k = choose|k: int| 0 <= k < (a + b).len() && (a + b)[k] == f;
            if k < a.len() {
                assert(a[k] == f);
                let j = choose|j: int| 0 <= j < init.len() && init[j] == family_of(f);
                assert(families[j] == family_of(f));
            } else {
                assert(b[k - a.len()] == f);
                assert(families[families.len() - 1] == family_of(f));
            }
        }
        if families.contains(family_of(f)) {
            let j = choose|j: int| 0 <= j < families.len() && families[j] == family_of(f);
            if j < families.len() - 1 {
                assert(init[j] == family_of(f));
                let k = choose|k: int| 0 <= k < a.len() && a[k] == f;
                assert((a + b)[k] == f);
            } else {
                let k = choose|k: int| 0 <= k < b.len() && b[k] == f;
                assert((a + b)[a.len() + k] == f);
            }
        }
    }
}

/// Concatenating two duplicate-free sequences with no common element gives a
/// duplicate-free sequence.
proof fn lemma_concat_no_duplicates(a: Seq<Font>, b: Seq<Font>)
    requires
        a.no_duplicates(),
        b.no_duplicates(),
        forall|x: Font| a.contains(x) ==> !b.contains(x),
    ensures
        (a + b).no_duplicates(),
{
    let s = a + b;
    assert forall|i: int, j: int| 0 <= i < s.len() && 0 <= j < s.len() && i != j implies s[i]
        != s[j] by {
        if i < a.len() && j >= a.len() {
            assert(a.contains(s[i]));
            assert(b.contains(s[j]) && b[j - a.len()] == s[j]);
        } else if i >= a.len() && j < a.len() {
            assert(a.contains(s[j]));
            assert(b.contains(s[i]) && b[i - a.len()] == s[i]);
        } else if i < a.len() {
            assert(s[i] == a[i] && s[j] == a[j]);
        } else {
            assert(s[i] == b[i - a.len()] && s[j] == b[j - a.len()]);
        }
    }
}

/// The fonts of a duplicate-free list of families are duplicate-free.
pub proof fn lemma_fonts_of_no_duplicates(families: Seq<Family>)
    requires
        families.no_duplicates(),
    ensures
        fonts_of(families).no_duplicates(),
    decreases families.len(),
{
    if families.len() > 0 {
        let init = families.drop_last();
        let last = families.last();
        assert(init.no_duplicates()) by {
            assert forall|i: int, j: int|
                0 <= i < init.len() && 0 <= j < init.len() && i != j implies init[i]
                != init[j] by {
                assert(init[i] == families[i] && init[j] == families[j]);
            }
        }
        lemma_fonts_of_no_duplicates(init);
        let a = fonts_of(init);
        let b = family_fonts(last);
        lemma_family_block(last);
        assert forall|i: int, j: int| 0 <= i < b.len() && 0 <= j < b.len() && i != j implies b[i]
            != b[j] by {
            assert(font_id(b[i]) == family_id(last) + i);
            assert(font_id(b[j]) == family_id(last) + j);
        }
        assert forall|x: Font| a.contains(x) implies !b.contains(x) by {
            lemma_fonts_of_contains(init, x);
            lemma_family_ownership(x, last);
            let j = choose|j: int| 0 <= j < init.len() && init[j] == family_of(x);
            if b.contains(x) {
                assert(families[j] == families[families.len() - 1]);
            }
        }
        lemma_concat_no_duplicates(a, b);
    }
}

/// Every font of the catalog is listed in `all_fonts`, exactly once.
pub proof fn lemma_all_fonts_complete(f: Font)
    ensures
        all_fonts().contains(f),
        all_fonts().no_duplicates(),
{
    lemma_all_families_complete(family_of(f));
    lemma_fonts_of_contains(all_families(), f);
    lemma_fonts_of_no_duplicates(all_families());
}

/// A family is among a category's families exactly when it is tagged with
/// that category, and no category lists a family twice.
pub proof fn lemma_category_families(c: Category, m: Family)
    ensures
        category_families(c).contains(m) <==> family_category(m) == c,
        category_families(c).no_duplicates(),
{
    let s = category_families(c);
    assert forall|i: int, j: int| 0 <= i < s.len() && 0 <= j < s.len() && i != j implies s[i]
        != s[j] by {
        lemma_category_family_ids(c, i);
        lemma_category_family_ids(c, j);
    }
    if s.contains(m) {
        let i = choose|i: int| 0 <= i < s.len() && s[i] == m;
        lemma_category_family_ids(c, i);
    }
    if family_category(m) == c {
        let i: int = match m {
            Family::ABeeZee => 0,
            Family::ADLaMDisplay => 0,
            Family::AROneSans => 1,
            Family::Abel => 2,
            Family::AbhayaLibre => 0,
            Family::Aboreto => 1,
            Family::AbrilFatface => 2,
            Family::AbyssinicaSIL => 1,
            Family::Aclonica => 3,
            Family::Acme => 4,
            Family::Actor => 5,
        };
        assert(s[i] == m);
    }
}

/// Each listed family of a category is tagged with it, and the list climbs
/// in id order.
proof fn lemma_category_family_ids(c: Category, i: int)
    requires
        0 <= i < category_families(c).len(),
    ensures
        family_category(category_families(c)[i]) == c,
        forall|j: int|
            0 <= j < i ==> family_id(#[trigger] category_families(c)[j]) < family_id(
                category_families(c)[i],
            ),
{
    let s = category_families(c);
    assert forall|j: int| 0 <= j < i implies family_id(#[trigger] s[j]) < family_id(s[i]) by {
        if i == 1 {
        } else if i == 2 {
        } else if i == 3 {
        } else if i == 4 {
        } else {
        }
    }
}

/// Category coverage: a font is among a category's fonts exactly when the
/// font's category is that category, so every font stands in exactly one
/// category; no category lists a font twice; and the catalog's font list
/// holds every font, once.
pub proof fn lemma_category_coverage(c: Category, f: Font)
    ensures
        category_fonts(c).contains(f) <==> font_category(f) == c,
        category_fonts(font_category(f)).contains(f),
        category_fonts(c).no_duplicates(),
        all_fonts().contains(f),
        all_fonts().no_duplicates(),
{
    lemma_fonts_of_contains(category_families(c), f);
    lemma_category_families(c, family_of(f));
    lemma_fonts_of_contains(category_families(font_category(f)), f);
    lemma_category_families(font_category(f), family_of(f));
    lemma_fonts_of_no_duplicates(category_families(c));
    lemma_all_fonts_complete(f);
}

} // verus!

verus! {

/// Each subset lists its families in increasing id order.
proof fn lemma_subset_family_ids(s: Subset, i: int)
    requires
        0 <= i < subset_families(s).len(),
    ensures
        forall|j: int|
            0 <= j < i ==> family_id(#[trigger] subset_families(s)[j]) < family_id(
                subset_families(s)[i],
            ),
{
    let fams = subset_families(s);
    assert forall|j: int| 0 <= j < i implies family_id(#[trigger] fams[j]) < family_id(fams[i]) by {
        if i == 1 {
        } else if i == 2 {
        } else if i == 3 {
        } else if i == 4 {
        } else if i == 5 {
        } else if i == 6 {
        } else if i == 7 {
        } else if i == 8 {
        } else if i == 9 {
        } else {
        }
    }
}

/// A font is among a subset's fonts exactly when its family declares the
/// subset, and no subset lists a family or a font twice.
pub proof fn lemma_subset_coverage(s: Subset, f: Font)
    ensures
        subset_fonts(s).contains(f) <==> subset_families(s).contains(family_of(f)),
        subset_families(s).no_duplicates(),
        subset_fonts(s).no_duplicates(),
{
    let fams = subset_families(s);
    assert forall|i: int, j: int|
        0 <= i < fams.len() && 0 <= j < fams.len() && i != j implies fams[i] != fams[j] by {
        lemma_subset_family_ids(s, i);
        lemma_subset_family_ids(s, j);
    }
    lemma_fonts_of_contains(fams, f);
    lemma_fonts_of_no_duplicates(fams);
}

} // verus!
