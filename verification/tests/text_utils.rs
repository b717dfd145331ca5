//! The verified text utilities underlying rendering and status parsing.

use systemd_service::text::contains_str;
use systemd_service::text::i32_string;
use systemd_service::text::join_spaced_exec;
use systemd_service::text::starts_with_str;
use systemd_service::text::str_eq;
use systemd_service::text::trim;
use systemd_service::text::u64_string;

#[test]
fn str_eq_compares_contents() {
    assert!(str_eq("abc", "abc"));
    assert!(!str_eq("abc", "abd"));
    assert!(!str_eq("abc", "ab"));
    assert!(str_eq("", ""));
}

#[test]
fn starts_with_checks_prefixes() {
    assert!(starts_with_str("CAP_MKNOD", "CAP_"));
    assert!(!starts_with_str("MKNOD", "CAP_"));
    assert!(!starts_with_str("CA", "CAP_"));
    assert!(starts_with_str("anything", ""));
}

#[test]
fn contains_finds_substrings() {
    assert!(contains_str("hello world", "lo w"));
    assert!(contains_str("foo.service enabled", "foo.service"));
    assert!(!contains_str("bar.service", "foo.service"));
    assert!(contains_str("abc", ""));
    assert!(!contains_str("ab", "abc"));
}

#[test]
fn trim_strips_unicode_whitespace_from_both_ends() {
    assert_eq!(trim("  active\n"), "active");
    assert_eq!(trim("\t\r\n"), "");
    assert_eq!(trim("a b"), "a b");
    assert_eq!(trim("\u{a0}x\u{a0}"), "x");
    assert_eq!(trim(""), "");
}

#[test]
fn decimal_rendering_is_exact() {
    assert_eq!(u64_string(0), "0");
    assert_eq!(u64_string(7), "7");
    assert_eq!(u64_string(1204), "1204");
    assert_eq!(u64_string(18446744073709551615), "18446744073709551615");
    assert_eq!(i32_string(0), "0");
    assert_eq!(i32_string(-1), "-1");
    assert_eq!(i32_string(2147483647), "2147483647");
    assert_eq!(i32_string(-2147483648), "-2147483648");
}

#[test]
fn join_puts_single_spaces_between_elements() {
    assert_eq!(join_spaced_exec(&Vec::new()), "");
    assert_eq!(join_spaced_exec(&vec!["a".to_string()]), "a");
    assert_eq!(
        join_spaced_exec(&vec!["a".to_string(), "b".to_string(), "c".to_string()]),
        "a b c"
    );
}
