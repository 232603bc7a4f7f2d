use font_engine::text::{contains_chars, is_blank, slugify, str_eq};

#[test]
fn slugify_replaces_spaces_with_hyphens() {
    assert_eq!(slugify("open sans"), "open-sans");
    assert_eq!(slugify("a b c"), "a-b-c");
    assert_eq!(slugify("nospaces"), "nospaces");
    assert_eq!(slugify(""), "");
}

#[test]
fn contains_finds_substrings() {
    assert!(contains_chars("noto sans jp", "noto"));
    assert!(contains_chars("my-fira-code", "fira"));
    assert!(!contains_chars("roboto", "fira"));
    assert!(contains_chars("abc", ""));
    assert!(!contains_chars("ab", "abc"));
}

#[test]
fn blank_detects_whitespace_only_text() {
    assert!(is_blank(""));
    assert!(is_blank("   "));
    assert!(is_blank("\t\r\n"));
    assert!(!is_blank(" a "));
}

#[test]
fn str_eq_compares_characters() {
    assert!(str_eq("woff2", "woff2"));
    assert!(!str_eq("woff2", "woff"));
    assert!(!str_eq("otf", "ttf"));
}
