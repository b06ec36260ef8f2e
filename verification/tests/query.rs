//! Tests of the query engine against the machine's installed fonts.
//!
//! These run against the real native font service; the machine has at
//! least the DejaVu families installed.

use font_loader::system_fonts::best_match;
use font_loader::system_fonts::matched_font_from_parts;
use font_loader::system_fonts::query_all;
use font_loader::system_fonts::query_specific;
use font_loader::system_fonts::FontProperty;
use font_loader::system_fonts::FontPropertyBuilder;

#[test]
fn query_all_equals_query_specific_on_default() {
    let all = query_all().unwrap();
    let specific = query_specific(&FontProperty::default()).unwrap();
    assert_eq!(all, specific);
}

#[test]
fn query_all_equals_query_on_unmodified_build() {
    let all = query_all().unwrap();
    let built = query_specific(&FontPropertyBuilder::new().build()).unwrap();
    assert_eq!(all, built);
}

#[test]
fn empty_family_means_no_constraint() {
    let all = query_all().unwrap();
    let empty = query_specific(&FontPropertyBuilder::new().family("").unwrap().build()).unwrap();
    assert_eq!(all, empty);
}

#[test]
fn query_results_are_sorted_and_distinct() {
    let all = query_all().unwrap();
    assert!(!all.is_empty());
    for pair in all.windows(2) {
        assert!(pair[0] < pair[1]);
    }
}

#[test]
fn query_all_is_deterministic() {
    let first = query_all().unwrap();
    let second = query_all().unwrap();
    assert_eq!(first, second);
}

#[test]
fn query_all_finds_dejavu() {
    let all = query_all().unwrap();
    assert!(all.iter().any(|name| name == "DejaVu Sans"));
}

#[test]
fn monospace_constraint_filters() {
    let mono = query_specific(&FontPropertyBuilder::new().monospace().build()).unwrap();
    assert!(mono.iter().any(|name| name == "DejaVu Sans Mono"));
    // A proportional family must not satisfy a monospace constraint; had the
    // constraint been dropped on the way to the native service, it would.
    assert!(!mono.iter().any(|name| name == "DejaVu Sans"));
    let all = query_all().unwrap();
    assert!(mono.len() < all.len());
}

#[test]
fn family_constraint_filters() {
    let serif = query_specific(
        &FontPropertyBuilder::new().family("DejaVu Serif").unwrap().build(),
    )
    .unwrap();
    assert!(serif.iter().any(|name| name == "DejaVu Serif"));
    assert!(!serif.iter().any(|name| name == "DejaVu Sans Mono"));
}

#[test]
fn best_match_finds_installed_family() {
    let p = FontPropertyBuilder::new().family("DejaVu Sans").unwrap().build();
    let m = best_match(&p)
        .expect("the native font service is available")
        .expect("an installed family must resolve");
    assert!(!m.path.is_empty());
    assert!(m.face_index >= 0);
    assert!(!m.family_name.is_empty());
    assert!(!m.path.contains('\0'));
    assert!(!m.family_name.contains('\0'));
}

#[test]
fn best_match_substitutes_for_absent_family() {
    // The native matcher always applies substitution and fallback rules, so
    // even a family that is certainly absent resolves to some default font.
    let p = FontPropertyBuilder::new()
        .family("ZZZ_Nonexistent_Font_9000")
        .unwrap()
        .build();
    let m = best_match(&p)
        .expect("the native font service is available")
        .expect("substitution yields a fallback font");
    assert!(!m.path.is_empty());
}

#[test]
fn best_match_points_at_a_font_file() {
    let p = FontPropertyBuilder::new().family("DejaVu Sans").unwrap().build();
    let m = best_match(&p)
        .expect("the native font service is available")
        .expect("an installed family must resolve");
    let path = m.path.to_lowercase();
    assert!(
        path.ends_with(".ttf") || path.ends_with(".otf") || path.ends_with(".ttc") || path.ends_with(".pcf.gz")
    );
}

#[test]
fn match_assembly_defaults_missing_parts() {
    let m = matched_font_from_parts(Some("/fonts/a.ttf".to_string()), None, None)
        .expect("a path alone yields a match");
    assert_eq!(m.path, "/fonts/a.ttf");
    assert_eq!(m.face_index, 0);
    assert_eq!(m.family_name, "");
}

#[test]
fn match_assembly_keeps_given_parts() {
    let m = matched_font_from_parts(
        Some("/fonts/a.ttc".to_string()),
        Some(3),
        Some("DejaVu Sans".to_string()),
    )
    .expect("a path alone yields a match");
    assert_eq!(m.path, "/fonts/a.ttc");
    assert_eq!(m.face_index, 3);
    assert_eq!(m.family_name, "DejaVu Sans");
}

#[test]
fn match_assembly_drops_pathless_matches() {
    let m = matched_font_from_parts(None, Some(3), Some("DejaVu Sans".to_string()));
    assert!(m.is_none());
}
