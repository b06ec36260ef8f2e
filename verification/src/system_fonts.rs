//! Font loading utilities for installed system fonts.
//!
//! This is the public surface of the crate: build a [`FontProperty`] with
//! [`FontPropertyBuilder`], enumerate matching family names with
//! [`query_all`] or [`query_specific`], and resolve one descriptor to a
//! concrete font file with [`best_match`].
//!
//! Enumeration results are normalized — exact duplicates removed, names
//! sorted ascending — so callers see one result shape whatever order the
//! native service enumerates in. "Nothing matches" is an empty list or
//! `None`, never an error; the one error the query engine reports is
//! [`FontError::BackendFailure`], raised only when the native font service
//! itself cannot start or fails, a condition callers should treat as fatal.

use vstd::prelude::*;

use crate::backend::apply_entries;
use crate::backend::fc_init;
use crate::backend::list_family_names;
use crate::backend::pattern_best_match;
use crate::backend::pattern_get_num;
use crate::backend::pattern_get_text;
use crate::backend::pattern_new;
use crate::names::normalize_family_names;
use crate::names::strictly_sorted;
use crate::names::views;
use crate::pattern::property_entries;
use crate::props::nul_free;

pub use crate::props::FontError;
pub use crate::props::FontProperty;
pub use crate::props::FontPropertyBuilder;
pub use crate::props::Slant;
pub use crate::props::FAMILY_NAME_MAX_UNITS;

verus! {

/// A font resolved by [`best_match`]: the file holding it, the face index
/// within that file (0 except for multi-face collections), and the family
/// name the backend reports for it.
///
/// The caller turns the path into bytes itself; a match whose file cannot
/// be read is simply dropped rather than reported as an error.
#[derive(Debug)]
pub struct MatchedFont {
    pub family_name: String,
    pub path: String,
    pub face_index: i32,
}

/// Query the family names of all fonts installed in the system.
///
/// Equivalent to [`query_specific`] on the default ("any installed font")
/// descriptor. The result is deduplicated and sorted ascending.
pub fn query_all() -> (r: Result<Vec<String>, FontError>)
    ensures
        r matches Ok(v) ==> strictly_sorted(views(v@)),
        r matches Ok(v) ==> forall|p: int, q: int|
            0 <= p < q < views(v@).len() ==> #[trigger] views(v@)[p] != #[trigger] views(v@)[q],
        r matches Err(e) ==> e == FontError::BackendFailure,
{
    let property = FontProperty::default();
    query_specific(&property)
}

/// Query the family names of the installed fonts matching a descriptor.
///
/// The descriptor's constraints — family, weight, slant, and spacing when
/// monospace is required — are installed into a native pattern exactly as
/// [`crate::pattern::property_pattern_model`] states, and the native
/// service enumerates the fonts matching them. Whatever order and
/// repetition the service reports, the result is normalized: exact
/// duplicates removed, names sorted ascending. Nothing matching is an
/// empty list, not an error; `Err(BackendFailure)` is returned exactly
/// when the native service cannot start or rejects a call.
pub fn query_specific(property: &FontProperty) -> (r: Result<Vec<String>, FontError>)
    requires
        property.wf(),
    ensures
        r matches Ok(v) ==> strictly_sorted(views(v@)),
        r matches Ok(v) ==> forall|p: int, q: int|
            0 <= p < q < views(v@).len() ==> #[trigger] views(v@)[p] != #[trigger] views(v@)[q],
        r matches Err(e) ==> e == FontError::BackendFailure,
{
    let fc = match fc_init() {
        Some(fc) => fc,
        None => {
            return Err(FontError::BackendFailure);
        },
    };
    let mut pat = match pattern_new(&fc) {
        Some(pat) => pat,
        None => {
            return Err(FontError::BackendFailure);
        },
    };
    let entries = property_entries(property);
    if !apply_entries(&mut pat, &entries) {
        return Err(FontError::BackendFailure);
    }
    let raw = match list_family_names(&pat) {
        Some(raw) => raw,
        None => {
            return Err(FontError::BackendFailure);
        },
    };
    Ok(normalize_family_names(&raw))
}

/// Assemble the values read from a matched native pattern into a
/// [`MatchedFont`], applying the fixed defaulting policy: a match without
/// a file path is dropped entirely (the silent-drop policy for results the
/// fetch step could never read), a match without a face index gets index
/// 0, and one without a family entry gets the empty family name.
pub fn matched_font_from_parts(
    path: Option<String>,
    face_index: Option<i32>,
    family_name: Option<String>,
) -> (r: Option<MatchedFont>)
    ensures
        path is None ==> r is None,
        path matches Some(p) ==> (r matches Some(m) && m.path == p),
        path is Some ==> (face_index matches Some(i) ==> (r matches Some(m) && m.face_index == i)),
        path is Some && face_index is None ==> (r matches Some(m) && m.face_index == 0),
        path is Some ==> (family_name matches Some(f) ==> (r matches Some(m) && m.family_name
            == f)),
        path is Some && family_name is None ==> (r matches Some(m) && m.family_name@
            == Seq::<char>::empty()),
{
    let path = match path {
        Some(path) => path,
        None => {
            return None;
        },
    };
    let face_index = match face_index {
        Some(face_index) => face_index,
        None => 0,
    };
    let family_name = match family_name {
        Some(family_name) => family_name,
        None => String::new(),
    };
    Some(MatchedFont { family_name, path, face_index })
}

/// Resolve a descriptor to the single closest installed font.
///
/// The native service's best-match algorithm applies its substitution and
/// fallback rules, so some font is normally found even for absent
/// families. `Err(BackendFailure)` is returned exactly when the native
/// service cannot start or rejects the pattern or one of its entries —
/// the one fatal condition, kept distinct from an ordinary miss.
/// `Ok(None)` means the matcher reported no match, or the match carried no
/// file path (the silent-drop policy of [`matched_font_from_parts`]).
/// `Ok(Some(m))` carries strings read from the service's C strings, so the
/// path and family name are free of NUL characters.
pub fn best_match(property: &FontProperty) -> (r: Result<Option<MatchedFont>, FontError>)
    requires
        property.wf(),
    ensures
        r matches Err(e) ==> e == FontError::BackendFailure,
        r matches Ok(o) ==> (o matches Some(m) ==> nul_free(m.path@) && nul_free(m.family_name@)),
{
    proof {
        reveal_strlit("file");
        reveal_strlit("index");
        reveal_strlit("family");
        assert(nul_free("file"@));
        assert(nul_free("index"@));
        assert(nul_free("family"@));
    }
    let fc = match fc_init() {
        Some(fc) => fc,
        None => {
            return Err(FontError::BackendFailure);
        },
    };
    let mut pat = match pattern_new(&fc) {
        Some(pat) => pat,
        None => {
            return Err(FontError::BackendFailure);
        },
    };
    let entries = property_entries(property);
    if !apply_entries(&mut pat, &entries) {
        return Err(FontError::BackendFailure);
    }
    let matched = match pattern_best_match(&mut pat) {
        Some(matched) => matched,
        None => {
            return Ok(None);
        },
    };
    let path = pattern_get_text(&matched, "file");
    let face_index = pattern_get_num(&matched, "index");
    let family_name = pattern_get_text(&matched, "family");
    Ok(matched_font_from_parts(path, face_index, family_name))
}

} // verus!
