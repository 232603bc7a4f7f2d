use font_engine::classify::{analyze, AnalyzeRequest};

fn req(name: &str) -> AnalyzeRequest {
    AnalyzeRequest {
        font_name: name.to_string(),
    }
}

#[test]
fn analyze_noto_descriptor() {
    let resp = analyze(&req("Noto Sans JP Bold")).expect("valid request");
    assert_eq!(resp.font_name, "Noto Sans JP Bold");
    assert_eq!(resp.glyph_count, 22080);
    assert_eq!(resp.format, "otf");
    assert_eq!(resp.size_kb, 4200);
    assert!(!resp.has_variable_axes);
    assert_eq!(resp.color_palettes, 0);
    assert_eq!(resp.opentype_features, vec!["kern", "liga", "calt"]);
    assert_eq!(resp.unicode_ranges, vec!["U+0000-00FF", "U+0100-024F"]);
}

#[test]
fn analyze_match_is_case_insensitive() {
    let resp = analyze(&req("NOTO SERIF")).expect("valid request");
    assert_eq!(resp.glyph_count, 22080);
    assert_eq!(resp.format, "otf");
}

#[test]
fn analyze_fira_descriptor() {
    let resp = analyze(&req("Fira Mono")).expect("valid request");
    assert_eq!(resp.glyph_count, 1617);
    assert_eq!(resp.format, "ttf");
    assert_eq!(resp.size_kb, 132);
    assert!(!resp.has_variable_axes);
    assert_eq!(resp.opentype_features, vec!["kern", "liga", "dlig", "calt"]);
}

#[test]
fn analyze_inter_descriptor() {
    let resp = analyze(&req("Inter Display")).expect("valid request");
    assert_eq!(resp.glyph_count, 3990);
    assert_eq!(resp.format, "otf");
    assert_eq!(resp.size_kb, 94);
    assert!(resp.has_variable_axes);
    assert_eq!(resp.opentype_features, vec!["kern", "ss01", "cv01"]);
}

#[test]
fn analyze_unknown_font_default_descriptor() {
    let resp = analyze(&req("unknown-font")).expect("valid request");
    assert_eq!(resp.glyph_count, 1200);
    assert_eq!(resp.format, "ttf");
    assert_eq!(resp.size_kb, 80);
    assert!(!resp.has_variable_axes);
    assert_eq!(resp.color_palettes, 0);
    assert_eq!(resp.opentype_features, vec!["kern"]);
}

#[test]
fn analyze_priority_noto_before_fira() {
    // order-dependent, first match wins
    let resp = analyze(&req("noto-fira")).expect("valid request");
    assert_eq!(resp.glyph_count, 22080);
    assert_eq!(resp.format, "otf");
}

#[test]
fn analyze_ranges_fixed_for_every_branch() {
    for name in ["Noto Sans", "Fira Code", "Inter", "plain"] {
        let resp = analyze(&req(name)).expect("valid request");
        assert_eq!(resp.unicode_ranges, vec!["U+0000-00FF", "U+0100-024F"]);
    }
}

#[test]
fn analyze_rejects_blank_font_name() {
    for name in ["", "   ", "\t\n"] {
        let err = analyze(&req(name)).expect_err("blank name");
        assert_eq!(err.message(), "font_name is required");
    }
}
