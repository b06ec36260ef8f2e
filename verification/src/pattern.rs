//! Mapping of a font descriptor onto the native service's pattern entries.
//!
//! The native font-matching service understands patterns: lists of
//! key-value entries where keys are object names such as `family` or
//! `weight` and values are strings or integer codes. This module owns the
//! mapping from the abstract [`FontProperty`] fields to those entries, with
//! an exact specification of which entries are produced for which traits.

use vstd::prelude::*;

use crate::props::nul_free;
use crate::props::FontProperty;
use crate::props::FontPropertyModel;
use crate::props::Slant;

verus! {

/// Weight code the native service uses for regular weight.
pub const WEIGHT_REGULAR: i32 = 80;

/// Weight code the native service uses for bold weight.
pub const WEIGHT_BOLD: i32 = 200;

/// Slant code the native service uses for upright faces.
pub const SLANT_ROMAN: i32 = 0;

/// Slant code the native service uses for italic faces.
pub const SLANT_ITALIC: i32 = 100;

/// Slant code the native service uses for oblique faces.
pub const SLANT_OBLIQUE: i32 = 110;

/// Spacing code the native service uses for monospace fonts.
pub const SPACING_MONO: i32 = 100;

/// One key-value entry of a native pattern, as a plain value.
#[derive(Debug)]
pub enum PatternEntry {
    /// A string-valued entry, such as the family constraint.
    Text(&'static str, String),
    /// An integer-coded entry, such as weight, slant or spacing.
    Num(&'static str, i32),
}

/// Mathematical model of a pattern entry.
#[verifier::ext_equal]
pub enum PatternEntryModel {
    Text(Seq<char>, Seq<char>),
    Num(Seq<char>, int),
}

impl View for PatternEntry {
    type V = PatternEntryModel;

    open spec fn view(&self) -> PatternEntryModel {
        match self {
            PatternEntry::Text(k, v) => PatternEntryModel::Text(k@, v@),
            PatternEntry::Num(k, v) => PatternEntryModel::Num(k@, *v as int),
        }
    }
}

/// The models of a list of pattern entries.
pub open spec fn entry_views(s: Seq<PatternEntry>) -> Seq<PatternEntryModel> {
    s.map_values(|e: PatternEntry| e@)
}

/// An entry whose key — and string value, if any — can be handed to the
/// native service as a C string.
pub open spec fn entry_model_nul_free(e: PatternEntryModel) -> bool {
    match e {
        PatternEntryModel::Text(k, v) => nul_free(k) && nul_free(v),
        PatternEntryModel::Num(k, _) => nul_free(k),
    }
}

/// The integer code for a slant.
pub open spec fn slant_code(s: Slant) -> int {
    match s {
        Slant::Roman => SLANT_ROMAN as int,
        Slant::Italic => SLANT_ITALIC as int,
        Slant::Oblique => SLANT_OBLIQUE as int,
    }
}

/// The integer code for a weight.
pub open spec fn weight_code(bold: bool) -> int {
    if bold {
        WEIGHT_BOLD as int
    } else {
        WEIGHT_REGULAR as int
    }
}

/// The pattern entries a descriptor is translated to: the family constraint
/// exactly when one is set, always the weight and slant codes, and the
/// monospace spacing code exactly when monospace is required.
pub open spec fn property_pattern_model(m: FontPropertyModel) -> Seq<PatternEntryModel> {
    (if m.family.len() > 0 {
        seq![PatternEntryModel::Text("family"@, m.family)]
    } else {
        Seq::<PatternEntryModel>::empty()
    }) + seq![
        PatternEntryModel::Num("weight"@, weight_code(m.bold)),
        PatternEntryModel::Num("slant"@, slant_code(m.slant)),
    ] + (if m.monospace {
        seq![PatternEntryModel::Num("spacing"@, SPACING_MONO as int)]
    } else {
        Seq::<PatternEntryModel>::empty()
    })
}

/// Translate a descriptor into the entry list the native service is given.
pub fn property_entries(p: &FontProperty) -> (r: Vec<PatternEntry>)
    ensures
        entry_views(r@) == property_pattern_model(p@),
        p.wf() ==> forall|k: int|
            0 <= k < entry_views(r@).len() ==> entry_model_nul_free(#[trigger] entry_views(r@)[k]),
{
    proof {
        reveal_strlit("family");
        reveal_strlit("weight");
        reveal_strlit("slant");
        reveal_strlit("spacing");
    }
    let mut r: Vec<PatternEntry> = Vec::new();
    if !p.family.as_str().is_empty() {
        r.push(PatternEntry::Text("family", p.family.clone()));
    }
    let weight: i32 = if p.bold {
        WEIGHT_BOLD
    } else {
        WEIGHT_REGULAR
    };
    r.push(PatternEntry::Num("weight", weight));
    let slant: i32 = match p.slant {
        Slant::Roman => SLANT_ROMAN,
        Slant::Italic => SLANT_ITALIC,
        Slant::Oblique => SLANT_OBLIQUE,
    };
    r.push(PatternEntry::Num("slant", slant));
    if p.monospace {
        r.push(PatternEntry::Num("spacing", SPACING_MONO));
    }
    proof {
        assert(entry_views(r@) =~= property_pattern_model(p@));
        assert forall|k: int|
            p.wf() && 0 <= k < entry_views(r@).len() implies entry_model_nul_free(
            #[trigger] entry_views(r@)[k],
        ) by {
            assert(nul_free("family"@));
            assert(nul_free("weight"@));
            assert(nul_free("slant"@));
            assert(nul_free("spacing"@));
        }
    }
    r
}

} // verus!
