use gclean::text::contains_str;
use gclean::text::starts_with_str;
use gclean::text::str_eq;

#[test]
fn test_contains_str() {
    assert!(contains_str("config-1.0.0-gentoo-dist", "gentoo"));
    assert!(contains_str("abc", ""));
    assert!(contains_str("", ""));
    assert!(contains_str("abc", "abc"));
    assert!(contains_str("abcabd", "abd"));
    assert!(!contains_str("abc", "abcd"));
    assert!(!contains_str("", "a"));
    assert!(!contains_str("abAc", "ab c"));
}

#[test]
fn test_starts_with_str() {
    assert!(starts_with_str("config-123", "config-"));
    assert!(starts_with_str("abc", ""));
    assert!(!starts_with_str("xconfig-123", "config-"));
    assert!(!starts_with_str("conf", "config-"));
}

#[test]
fn test_str_eq() {
    assert!(str_eq("Gentoo", "Gentoo"));
    assert!(!str_eq("Gentoo", "gentoo"));
    assert!(!str_eq("Gentoo", "Gento"));
    assert!(str_eq("", ""));
}
