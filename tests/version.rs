use enman::version::{compare_versions, parse_part, version_compare};
use std::cmp::Ordering;

#[test]
fn test_compare_versions() {
    assert_eq!(compare_versions("1.0.0", "1.0.1"), Ordering::Less);
    assert_eq!(compare_versions("1.0.1", "1.0.0"), Ordering::Greater);
    assert_eq!(compare_versions("1.0.0", "1.0.0"), Ordering::Equal);
    assert_eq!(compare_versions("2.0.0", "1.9.9"), Ordering::Greater);
}

#[test]
fn compare_versions_uses_semver_not_text_order() {
    // As text "10.0.0" < "9.0.0"; as versions it is greater.
    assert_eq!(compare_versions("10.0.0", "9.0.0"), Ordering::Greater);
    assert_eq!(compare_versions("v1.2.3", "1.2.4"), Ordering::Less);
    assert_eq!(compare_versions("1.0.0-alpha", "1.0.0"), Ordering::Less);
}

#[test]
fn compare_versions_falls_back_to_text_order() {
    assert_eq!(compare_versions("7.2", "7.10"), Ordering::Greater);
    assert_eq!(compare_versions("abc", "abd"), Ordering::Less);
    assert_eq!(compare_versions("same", "same"), Ordering::Equal);
}

#[test]
fn version_compare_is_numeric_per_part() {
    assert_eq!(version_compare("3.10.0", "3.9.1"), Ordering::Greater);
    assert_eq!(version_compare("1.2", "1.2.0"), Ordering::Equal);
    assert_eq!(version_compare("1.2", "1.2.1"), Ordering::Less);
    assert_eq!(version_compare("1.x.5", "1.0.5"), Ordering::Equal);
}

#[test]
fn parse_part_reads_like_u32_parse() {
    assert_eq!(parse_part("42"), 42);
    assert_eq!(parse_part("+7"), 7);
    assert_eq!(parse_part(""), 0);
    assert_eq!(parse_part("12a"), 0);
    assert_eq!(parse_part("4294967295"), 4294967295);
    assert_eq!(parse_part("4294967296"), 0);
}
