//! Tests of the descriptor builder and the name-normalization policy.

use font_loader::names::normalize_family_names;
use font_loader::pattern::property_entries;
use font_loader::pattern::PatternEntry;
use font_loader::system_fonts::FontError;
use font_loader::system_fonts::FontProperty;
use font_loader::system_fonts::FontPropertyBuilder;
use font_loader::system_fonts::Slant;
use font_loader::system_fonts::FAMILY_NAME_MAX_UNITS;

#[test]
fn unmodified_builder_is_default() {
    let p = FontPropertyBuilder::new().build();
    assert_eq!(p.family, "");
    assert!(!p.bold);
    assert_eq!(p.slant, Slant::Roman);
    assert!(!p.monospace);
    assert!(p.is_well_formed());
}

#[test]
fn family_replaces_previous_family() {
    let p = FontPropertyBuilder::new()
        .family("A")
        .unwrap()
        .family("B")
        .unwrap()
        .build();
    assert_eq!(p.family, "B");
}

#[test]
fn family_too_long_is_invalid_input() {
    let long = "x".repeat(FAMILY_NAME_MAX_UNITS + 1);
    let r = FontPropertyBuilder::new().family(&long);
    assert!(matches!(r, Err(FontError::InvalidInput)));
}

#[test]
fn family_at_limit_is_accepted() {
    let longest = "x".repeat(FAMILY_NAME_MAX_UNITS);
    let p = FontPropertyBuilder::new().family(&longest).unwrap().build();
    assert_eq!(p.family, longest);
}

#[test]
fn family_limit_counts_utf16_units() {
    // Each of these characters costs two UTF-16 code units, so sixteen of
    // them exceed the 31-unit bound even though there are only 16 chars.
    let wide = "\u{1D11E}".repeat(16);
    assert!(matches!(
        FontPropertyBuilder::new().family(&wide),
        Err(FontError::InvalidInput)
    ));
    let narrower = "\u{1D11E}".repeat(15);
    let p = FontPropertyBuilder::new().family(&narrower).unwrap().build();
    assert_eq!(p.family, narrower);
}

#[test]
fn family_with_nul_is_invalid_input() {
    let r = FontPropertyBuilder::new().family("Deja\0Vu");
    assert!(matches!(r, Err(FontError::InvalidInput)));
}

#[test]
fn slant_last_call_wins() {
    let p = FontPropertyBuilder::new().italic().oblique().build();
    assert_eq!(p.slant, Slant::Oblique);
    let p = FontPropertyBuilder::new().oblique().italic().build();
    assert_eq!(p.slant, Slant::Italic);
}

#[test]
fn modifiers_are_idempotent() {
    let p = FontPropertyBuilder::new().bold().bold().monospace().monospace().build();
    assert!(p.bold);
    assert!(p.monospace);
    assert_eq!(p.slant, Slant::Roman);
}

fn expect_num(entry: &PatternEntry, key: &str, val: i32) {
    match entry {
        PatternEntry::Num(k, v) => {
            assert_eq!(*k, key);
            assert_eq!(*v, val);
        }
        PatternEntry::Text(k, _) => panic!("expected {} entry, found text entry {}", key, k),
    }
}

#[test]
fn full_descriptor_maps_to_native_codes() {
    let p = FontPropertyBuilder::new()
        .family("DejaVu Sans")
        .unwrap()
        .bold()
        .italic()
        .monospace()
        .build();
    let entries = property_entries(&p);
    assert_eq!(entries.len(), 4);
    match &entries[0] {
        PatternEntry::Text(k, v) => {
            assert_eq!(*k, "family");
            assert_eq!(v, "DejaVu Sans");
        }
        PatternEntry::Num(k, _) => panic!("expected family entry, found {}", k),
    }
    expect_num(&entries[1], "weight", 200);
    expect_num(&entries[2], "slant", 100);
    expect_num(&entries[3], "spacing", 100);
}

#[test]
fn default_descriptor_maps_to_regular_roman() {
    let entries = property_entries(&FontProperty::default());
    assert_eq!(entries.len(), 2);
    expect_num(&entries[0], "weight", 80);
    expect_num(&entries[1], "slant", 0);
}

#[test]
fn oblique_maps_to_its_own_code() {
    let entries = property_entries(&FontPropertyBuilder::new().oblique().build());
    assert_eq!(entries.len(), 2);
    expect_num(&entries[0], "weight", 80);
    expect_num(&entries[1], "slant", 110);
}

#[test]
fn normalize_sorts_and_dedups() {
    let raw = vec![
        "Consolas".to_string(),
        "Arial".to_string(),
        "Calibri".to_string(),
        "Arial".to_string(),
    ];
    let r = normalize_family_names(&raw);
    assert_eq!(r, vec!["Arial".to_string(), "Calibri".to_string(), "Consolas".to_string()]);
}

#[test]
fn normalize_empty_is_empty() {
    let raw: Vec<String> = Vec::new();
    let r = normalize_family_names(&raw);
    assert!(r.is_empty());
}

#[test]
fn normalize_keeps_already_sorted_order() {
    let raw = vec!["Arial".to_string(), "Calibri".to_string(), "Consolas".to_string()];
    let r = normalize_family_names(&raw);
    assert_eq!(r, raw);
}
