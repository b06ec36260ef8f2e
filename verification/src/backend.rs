//! The fontconfig backend adapter.
//!
//! Every call into the native font-matching service goes through the
//! trusted wrappers of this module. The service's pattern objects are
//! modelled by [`pattern_model`], the list of entries a pattern holds; the
//! wrappers state over that model exactly what each native call does to a
//! pattern. What the service *returns* — which fonts are installed, what
//! the best match for a pattern is — depends on the machine and its
//! configuration, so nothing is promised of those results: the verified
//! callers state what holds of their answer whatever came back.
//!
//! Ownership of every native object (patterns, font sets) lies with the
//! wrapped crate's types, which release it on drop on every path.

use vstd::prelude::*;

use crate::pattern::entry_views;
use crate::pattern::entry_model_nul_free;
use crate::pattern::PatternEntry;
use crate::pattern::PatternEntryModel;
use crate::props::nul_free;

verus! {

#[verifier::external_type_specification]
#[verifier::external_body]
pub struct ExFontconfig(fontconfig::Fontconfig);

#[verifier::external_type_specification]
#[verifier::external_body]
pub struct ExPattern<'fc>(fontconfig::Pattern<'fc>);

/// The entries a native pattern holds, in the order they were added.
pub uninterp spec fn pattern_model(p: fontconfig::Pattern) -> Seq<PatternEntryModel>;

/// Relies on `fontconfig::Fontconfig::new` (`FcInit`): initialises the
/// native font service and returns a handle to it, or `None` if the
/// service cannot start. Initialisation is performed at most once per
/// process inside the native library itself; later calls reuse the
/// already-loaded configuration.
#[verifier::external_body]
pub(crate) fn fc_init() -> Option<fontconfig::Fontconfig> {
    fontconfig::Fontconfig::new()
}

/// Relies on `fontconfig::Pattern::new` (`FcPatternCreate`): a freshly
/// created pattern holds no entries. `None` when the native allocation
/// fails.
#[verifier::external_body]
pub(crate) fn pattern_new<'fc>(fc: &'fc fontconfig::Fontconfig) -> (r: Option<
    fontconfig::Pattern<'fc>,
>)
    ensures
        r matches Some(p) ==> pattern_model(p) == Seq::<PatternEntryModel>::empty(),
{
    fontconfig::Pattern::new(fc).ok()
}

/// Relies on `fontconfig::Pattern::add_string` (`FcPatternAddString`): on
/// success the given string value is appended to the pattern under the
/// given object name; on failure the pattern is unchanged.
#[verifier::external_body]
pub(crate) fn pattern_add_text(pat: &mut fontconfig::Pattern, key: &str, val: &str) -> (r: bool)
    requires
        nul_free(key@),
        nul_free(val@),
    ensures
        r ==> pattern_model(*final(pat)) == pattern_model(*old(pat)).push(
            PatternEntryModel::Text(key@, val@),
        ),
        !r ==> pattern_model(*final(pat)) == pattern_model(*old(pat)),
{
    let mut kb: Vec<u8> = key.as_bytes().to_vec();
    kb.push(0);
    let mut vb: Vec<u8> = val.as_bytes().to_vec();
    vb.push(0);
    match (core::ffi::CStr::from_bytes_with_nul(&kb), core::ffi::CStr::from_bytes_with_nul(&vb)) {
        (Ok(k), Ok(v)) => pat.add_string(k, v).is_ok(),
        _ => false,
    }
}

/// Relies on `fontconfig::Pattern::add_integer` (`FcPatternAddInteger`): on
/// success the given integer value is appended to the pattern under the
/// given object name; on failure the pattern is unchanged.
#[verifier::external_body]
pub(crate) fn pattern_add_num(pat: &mut fontconfig::Pattern, key: &str, val: i32) -> (r: bool)
    requires
        nul_free(key@),
    ensures
        r ==> pattern_model(*final(pat)) == pattern_model(*old(pat)).push(
            PatternEntryModel::Num(key@, val as int),
        ),
        !r ==> pattern_model(*final(pat)) == pattern_model(*old(pat)),
{
    let mut kb: Vec<u8> = key.as_bytes().to_vec();
    kb.push(0);
    match core::ffi::CStr::from_bytes_with_nul(&kb) {
        Ok(k) => pat.add_integer(k, val).is_ok(),
        _ => false,
    }
}

/// Relies on `fontconfig::list_fonts` (`FcFontList`), `FontSet::iter` and
/// `Pattern::get_string` of the `family` object: the family name of every
/// installed font matching the pattern, in the service's own order. Which
/// fonts are installed, and their order, depend on the machine, so nothing
/// is promised of the result; callers normalize it. Fonts whose family
/// entry is missing or not valid UTF-8 are skipped. `None` when the native
/// listing call itself fails.
#[verifier::external_body]
pub(crate) fn list_family_names(pat: &fontconfig::Pattern) -> Option<Vec<String>> {
    match fontconfig::list_fonts(pat, None) {
        Ok(set) => Some(
            set.iter().filter_map(
                |p| p.get_string(fontconfig::FC_FAMILY).ok().map(str::to_owned),
            ).collect(),
        ),
        Err(_) => None,
    }
}

/// Relies on `fontconfig::Pattern::font_match` (`FcConfigSubstitute`,
/// `FcDefaultSubstitute`, `FcFontMatch`): the service's best-match
/// algorithm, with its substitution and fallback rules, applied to the
/// pattern. The answer depends on the machine's fonts and configuration,
/// so nothing is promised of it; substitution also rewrites the queried
/// pattern, so nothing is promised of that afterwards either. `None` when
/// the service reports no match at all.
#[verifier::external_body]
pub(crate) fn pattern_best_match<'a, 'fc>(pat: &'a mut fontconfig::Pattern<'fc>) -> Option<
    fontconfig::Pattern<'a>,
> {
    pat.font_match().ok()
}

/// Relies on `fontconfig::Pattern::get_string` (`FcPatternGetString`): the
/// first string value the pattern holds under the given object name, if
/// there is one and it is valid UTF-8. The values of a matched pattern
/// come from the machine's font database, so nothing is promised of their
/// content — except that the value is read out of a NUL-terminated C
/// string, which ends at its first NUL, so the returned string holds no
/// NUL character.
#[verifier::external_body]
pub(crate) fn pattern_get_text(pat: &fontconfig::Pattern, key: &str) -> (r: Option<String>)
    requires
        nul_free(key@),
    ensures
        r matches Some(s) ==> nul_free(s@),
{
    let mut kb: Vec<u8> = key.as_bytes().to_vec();
    kb.push(0);
    match core::ffi::CStr::from_bytes_with_nul(&kb) {
        Ok(k) => pat.get_string(k).ok().map(str::to_owned),
        _ => None,
    }
}

/// Relies on `fontconfig::Pattern::get_int` (`FcPatternGetInteger`): the
/// first integer value the pattern holds under the given object name, if
/// there is one. The values of a matched pattern come from the machine's
/// font database, so nothing is promised of the result.
#[verifier::external_body]
pub(crate) fn pattern_get_num(pat: &fontconfig::Pattern, key: &str) -> Option<i32>
    requires
        nul_free(key@),
{
    let mut kb: Vec<u8> = key.as_bytes().to_vec();
    kb.push(0);
    match core::ffi::CStr::from_bytes_with_nul(&kb) {
        Ok(k) => pat.get_int(k).ok(),
        _ => None,
    }
}

/// Install a descriptor's entries into a native pattern, in order. Returns
/// `false` — and promises nothing of the partially filled pattern, which
/// callers then discard — as soon as the native service rejects an entry.
pub(crate) fn apply_entries(pat: &mut fontconfig::Pattern, entries: &Vec<PatternEntry>) -> (r:
    bool)
    requires
        pattern_model(*old(pat)) == Seq::<PatternEntryModel>::empty(),
        forall|k: int|
            0 <= k < entry_views(entries@).len() ==> entry_model_nul_free(
                #[trigger] entry_views(entries@)[k],
            ),
    ensures
        r ==> pattern_model(*final(pat)) == entry_views(entries@),
{
    let mut i: usize = 0;
    while i < entries.len()
        invariant
            i <= entries.len(),
            pattern_model(*pat) == entry_views(entries@).take(i as int),
            forall|k: int|
                0 <= k < entry_views(entries@).len() ==> entry_model_nul_free(
                    #[trigger] entry_views(entries@)[k],
                ),
        decreases entries.len() - i,
    {
        proof {
            assert(entry_views(entries@)[i as int] == entries@[i as int]@);
            assert(entry_model_nul_free(entry_views(entries@)[i as int]));
        }
        let ok: bool = match &entries[i] {
            PatternEntry::Text(k, v) => pattern_add_text(pat, k, v.as_str()),
            PatternEntry::Num(k, v) => pattern_add_num(pat, k, *v),
        };
        if !ok {
            return false;
        }
        proof {
            assert(entry_views(entries@).take(i + 1) =~= entry_views(entries@).take(
                i as int,
            ).push(entry_views(entries@)[i as int]));
        }
        i = i + 1;
    }
    proof {
        assert(entry_views(entries@).take(entries@.len() as int) =~= entry_views(entries@));
    }
    true
}

} // verus!
