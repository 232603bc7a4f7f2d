use font_engine::estimate::{subset, SubsetRequest};
use font_engine::fraction::Fraction;

fn req(name: &str, characters: &str, format: &str) -> SubsetRequest {
    SubsetRequest {
        font_name: name.to_string(),
        characters: characters.to_string(),
        format: format.to_string(),
    }
}

fn as_f64(f: Fraction) -> f64 {
    f.num as f64 / f.den as f64
}

#[test]
fn subset_empty_characters_floor_of_one() {
    let resp = subset(&req("Inter", "", "woff2")).expect("valid request");
    assert_eq!(resp.character_count, 1);
    assert_eq!(resp.subset_glyph_count, 1);
    assert_eq!(resp.original_glyph_count, 8500);
}

#[test]
fn subset_counts_raw_scalar_occurrences() {
    // duplicates are not collapsed: three code points, not one
    let resp = subset(&req("Inter", "aaa", "woff2")).expect("valid request");
    assert_eq!(resp.character_count, 3);
    assert_eq!(resp.subset_glyph_count, 3);
}

#[test]
fn subset_counts_unicode_scalars_not_bytes() {
    let resp = subset(&req("Noto Sans JP", "\u{65E5}\u{672C}\u{8A9E}", "otf"))
        .expect("valid request");
    assert_eq!(resp.character_count, 3);
}

#[test]
fn subset_glyphs_capped_at_inventory() {
    let characters = "a".repeat(9000);
    let resp = subset(&req("Inter", &characters, "ttf")).expect("valid request");
    assert_eq!(resp.character_count, 9000);
    assert_eq!(resp.subset_glyph_count, 8500);
}

#[test]
fn subset_size_formula() {
    // woff2 keeps its own coefficient; every other valid format shares one
    let cases = [("woff2", 0.35), ("woff", 0.55), ("otf", 0.55), ("ttf", 0.55)];
    for (format, format_ratio) in cases {
        let characters = "abcdefghij";
        let resp = subset(&req("Inter", characters, format)).expect("valid request");
        let subset_ratio = 10.0 / 8500.0;
        let expected = 280.0 * subset_ratio * format_ratio;
        let got = as_f64(resp.subset_size_kb);
        assert!(
            (got - expected).abs() < 1e-9,
            "subset size for {format}: got {got}, expected {expected}"
        );
        assert_eq!(resp.original_size_kb, 280);
    }
}

#[test]
fn subset_rejects_unknown_format() {
    let err = subset(&req("Inter", "abc", "ttc")).expect_err("ttc is not supported");
    assert_eq!(
        err.message(),
        "unsupported format 'ttc'; valid: woff2, woff, otf, ttf"
    );
}

#[test]
fn subset_rejects_blank_font_name() {
    for name in ["", "  ", "\t"] {
        let err = subset(&req(name, "abc", "woff2")).expect_err("blank name");
        assert_eq!(err.message(), "font_name is required");
    }
}

#[test]
fn subset_download_url() {
    let resp = subset(&req("Open Sans", "abc", "woff2")).expect("valid request");
    assert_eq!(resp.download_url, "/cdn/fonts/open-sans/subset.woff2");
    assert_eq!(resp.font_name, "Open Sans");
    assert_eq!(resp.format, "woff2");
}
