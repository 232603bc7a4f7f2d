use font_engine::estimate::{compress, CompressRequest};
use font_engine::fraction::Fraction;

fn req(name: &str, format: &str, quality: u8) -> CompressRequest {
    CompressRequest {
        font_name: name.to_string(),
        format: format.to_string(),
        quality,
    }
}

fn as_f64(f: Fraction) -> f64 {
    f.num as f64 / f.den as f64
}

#[test]
fn compress_formula_all_formats_and_qualities() {
    let cases = [("woff2", 0.35), ("woff", 0.55), ("otf", 0.90), ("ttf", 0.90)];
    for (format, ratio_base) in cases {
        for quality in [0u8, 1, 25, 50, 75, 99, 100] {
            let resp = compress(&req("Inter", format, quality)).expect("valid request");
            let quality_factor = 0.5 + (quality as f64 / 100.0) * 0.5;
            let expected = 280.0 * ratio_base * quality_factor;
            let got = as_f64(resp.compressed_size_kb);
            assert!(
                (got - expected).abs() < 1e-9,
                "compressed size for {format} q{quality}: got {got}, expected {expected}"
            );
            let expected_ratio = 280.0 / expected;
            let got_ratio = as_f64(resp.ratio);
            assert!(
                (got_ratio - expected_ratio).abs() < 1e-9,
                "ratio for {format} q{quality}: got {got_ratio}, expected {expected_ratio}"
            );
            assert!(got_ratio > 1.0);
            assert_eq!(resp.original_size_kb, 280);
        }
    }
}

#[test]
fn compress_quality_extremes() {
    let cases = [("woff2", 0.35), ("woff", 0.55), ("otf", 0.90), ("ttf", 0.90)];
    for (format, ratio_base) in cases {
        let low = compress(&req("Inter", format, 0)).expect("valid request");
        let got_low = as_f64(low.compressed_size_kb);
        let expected_low = 280.0 * ratio_base * 0.5;
        assert!((got_low - expected_low).abs() < 1e-9);

        let high = compress(&req("Inter", format, 100)).expect("valid request");
        let got_high = as_f64(high.compressed_size_kb);
        let expected_high = 280.0 * ratio_base;
        assert!((got_high - expected_high).abs() < 1e-9);
    }
}

#[test]
fn compress_rejects_unknown_format() {
    let err = compress(&req("Inter", "ttc", 50)).expect_err("ttc is not supported");
    assert_eq!(
        err.message(),
        "unsupported format 'ttc'; valid: woff2, woff, otf, ttf"
    );
}

#[test]
fn compress_format_is_case_sensitive() {
    let err = compress(&req("Inter", "WOFF2", 50)).expect_err("format is not normalized");
    assert_eq!(
        err.message(),
        "unsupported format 'WOFF2'; valid: woff2, woff, otf, ttf"
    );
}

#[test]
fn compress_rejects_quality_above_100() {
    let err = compress(&req("Inter", "woff2", 101)).expect_err("quality too high");
    assert_eq!(err.message(), "quality must be 0-100");
    let err = compress(&req("Inter", "woff2", 255)).expect_err("quality too high");
    assert_eq!(err.message(), "quality must be 0-100");
}

#[test]
fn compress_rejects_blank_font_name() {
    for name in ["", " ", "   ", "\t\n ", "\u{00A0}"] {
        let err = compress(&req(name, "woff2", 50)).expect_err("blank name");
        assert_eq!(err.message(), "font_name is required");
    }
}

#[test]
fn compress_checks_format_before_name_and_quality() {
    let err = compress(&req("", "ttc", 200)).expect_err("invalid format");
    assert_eq!(
        err.message(),
        "unsupported format 'ttc'; valid: woff2, woff, otf, ttf"
    );
    let err = compress(&req("", "woff2", 200)).expect_err("quality checked next");
    assert_eq!(err.message(), "quality must be 0-100");
}

#[test]
fn compress_download_url_slug() {
    let resp = compress(&req("Open Sans", "woff2", 80)).expect("valid request");
    assert_eq!(resp.download_url, "/cdn/fonts/open-sans/open-sans.woff2");
    assert_eq!(resp.font_name, "Open Sans");
    assert_eq!(resp.format, "woff2");
    assert_eq!(resp.quality, 80);
}

#[test]
fn compress_download_url_lowercases_name() {
    let resp = compress(&req("Fira Code Retina", "ttf", 10)).expect("valid request");
    assert_eq!(resp.download_url, "/cdn/fonts/fira-code-retina/fira-code-retina.ttf");
}
