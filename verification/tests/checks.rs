use gclean::checks::is_gentoo;
use gclean::checks::is_root;
use gclean::logger::default_log_level;

#[test]
fn test_is_gentoo() {
    assert!(is_gentoo(&Some("Gentoo".to_owned())));
    assert!(!is_gentoo(&Some("Ubuntu".to_owned())));
    assert!(!is_gentoo(&Some("gentoo".to_owned())));
    assert!(!is_gentoo(&None));
}

#[test]
fn test_is_root() {
    assert!(is_root(0));
    assert!(!is_root(1000));
}

#[test]
fn test_default_log_level() {
    assert_eq!(default_log_level(true), "debug");
    assert_eq!(default_log_level(false), "info");
}
