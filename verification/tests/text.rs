use taimi_hud::text::{contains, ends_with, first_piece_of, str_eq, strip_prefix};

#[test]
fn strip_prefix_cases() {
    assert_eq!(strip_prefix("refs/tags/v1", "refs/tags/"), Some("v1"));
    assert_eq!(strip_prefix("abc", "abc"), Some(""));
    assert_eq!(strip_prefix("ab", "abc"), None);
    assert_eq!(strip_prefix("äbc", "ä"), Some("bc"));
}

#[test]
fn suffix_contains_and_equality() {
    assert!(ends_with("taimi.dll", ".dll"));
    assert!(!ends_with("taimi.zip", ".dll"));
    assert!(!ends_with("dll", ".dll"));
    assert!(contains("v1.0.0-rc.2", "-rc."));
    assert!(!contains("v1.0.0", "-rc."));
    assert!(contains("x", ""));
    assert!(str_eq("en", "en"));
    assert!(!str_eq("en", "eng"));
}

#[test]
fn first_piece_splits_at_first_separator() {
    assert_eq!(first_piece_of("rc.1.2", '.'), "rc");
    assert_eq!(first_piece_of("beta", '.'), "beta");
    assert_eq!(first_piece_of(".x", '.'), "");
}
