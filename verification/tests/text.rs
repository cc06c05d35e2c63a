use light::text::{replace, same_text, starts_with, trim_whitespace, is_whitespace};
use light::url::normalize_url;

#[test]
fn trims_unicode_white_space() {
    assert_eq!(trim_whitespace("\u{3000}\t x y \u{a0}\n"), "x y");
    assert_eq!(trim_whitespace("   "), "");
    assert_eq!(trim_whitespace(""), "");
}

#[test]
fn white_space_matches_std() {
    for c in ['\t', '\n', '\u{b}', '\u{c}', '\r', ' ', '\u{85}', '\u{a0}', '\u{1680}', '\u{2000}',
        '\u{200a}', '\u{2028}', '\u{2029}', '\u{202f}', '\u{205f}', '\u{3000}', 'a', '\u{200b}',
        '\u{180e}', '\u{feff}', '\u{1f}'] {
        assert_eq!(is_whitespace(c), c.is_whitespace(), "{:?}", c);
    }
}

#[test]
fn prefix_and_equality() {
    assert!(starts_with("https://x", "https://"));
    assert!(!starts_with("http", "https://"));
    assert!(starts_with("abc", ""));
    assert!(same_text("é", "é"));
    assert!(!same_text("ab", "abc"));
}

#[test]
fn replace_every_occurrence() {
    assert_eq!(replace("a\"b\"", '"', "&quot;"), "a&quot;b&quot;");
    assert_eq!(replace("none", '"', "&quot;"), "none");
}

#[test]
fn normalize_is_idempotent_on_examples() {
    for input in ["example.com", "  localhost:8080 ", "about:blank", "", "127.0.0.1", "http://x"] {
        let once = normalize_url(input);
        assert_eq!(normalize_url(&once), once);
    }
    assert_eq!(normalize_url(""), "https://");
    assert_eq!(normalize_url("127.0.0.1:80"), "http://127.0.0.1:80");
    assert_eq!(normalize_url("\u{3000}example.com"), "https://example.com");
}
