//! Parsing and rendering: versions, specifiers, semver ranges.
use nvc::version::{parse_version, u64_to_string, Version};
use nvc::specifier::{parse_specifier, VersionSpecifier};
use nvc::range::parse_range;

fn v(major: u64, minor: u64, patch: u64) -> Version {
    Version { major, minor, patch }
}

#[test]
fn parses_exact_versions() {
    assert_eq!(parse_version("16.2.0"), Some(v(16, 2, 0)));
    assert_eq!(parse_version("v16.14.0"), Some(v(16, 14, 0)));
    assert_eq!(parse_version("0.0.1"), Some(v(0, 0, 1)));
    assert_eq!(parse_version("nonsense"), None);
    assert_eq!(parse_version("16"), None);
    assert_eq!(parse_version("16.2"), None);
    assert_eq!(parse_version("16.2.0.1"), None);
    assert_eq!(parse_version(""), None);
}

#[test]
fn renders_canonically() {
    assert_eq!(v(16, 14, 0).v_str(), "v16.14.0");
    assert_eq!(v(0, 0, 0).v_str(), "v0.0.0");
    assert_eq!(u64_to_string(0), "0");
    assert_eq!(u64_to_string(907), "907");
    assert_eq!(u64_to_string(u64::MAX), "18446744073709551615");
}

#[test]
fn parse_then_render_round_trips() {
    let ver = parse_version("v18.19.1").unwrap();
    assert_eq!(ver.v_str(), "v18.19.1");
}

#[test]
fn parses_specifiers() {
    assert!(matches!(parse_specifier("latest"), Some(VersionSpecifier::Latest)));
    assert!(matches!(parse_specifier("system"), Some(VersionSpecifier::Bypass)));
    assert!(matches!(parse_specifier("lts-latest"), Some(VersionSpecifier::LatestLts)));
    assert!(matches!(parse_specifier("lts/*"), Some(VersionSpecifier::LatestLts)));
    match parse_specifier("lts-gallium") {
        Some(VersionSpecifier::LtsCodename(n)) => assert_eq!(n, "gallium"),
        other => panic!("unexpected: {other:?}"),
    }
    match parse_specifier("lts/hydrogen") {
        Some(VersionSpecifier::LtsCodename(n)) => assert_eq!(n, "hydrogen"),
        other => panic!("unexpected: {other:?}"),
    }
    match parse_specifier("16") {
        Some(VersionSpecifier::PartialPrefix { major, minor }) => {
            assert_eq!(major, 16);
            assert_eq!(minor, None);
        },
        other => panic!("unexpected: {other:?}"),
    }
    match parse_specifier("v16.2") {
        Some(VersionSpecifier::PartialPrefix { major, minor }) => {
            assert_eq!(major, 16);
            assert_eq!(minor, Some(2));
        },
        other => panic!("unexpected: {other:?}"),
    }
    match parse_specifier("18.0.0") {
        Some(VersionSpecifier::Exact(ver)) => assert_eq!(ver, v(18, 0, 0)),
        other => panic!("unexpected: {other:?}"),
    }
    match parse_specifier("my-team-alias") {
        Some(VersionSpecifier::AliasName(n)) => assert_eq!(n, "my-team-alias"),
        other => panic!("unexpected: {other:?}"),
    }
}

#[test]
fn rejects_unparseable_specifiers() {
    assert!(parse_specifier("").is_none());
    assert!(parse_specifier("16.").is_none());
    assert!(parse_specifier("v1.2.3.4").is_none());
    // A numeric component beyond 64 bits has no version to denote.
    assert!(parse_specifier("99999999999999999999").is_none());
}

#[test]
fn range_matches_caret_and_comparators() {
    let r = parse_range("^14.17.0 || >=16.0.0").unwrap();
    assert!(r.matches(&v(14, 17, 0)));
    assert!(r.matches(&v(14, 20, 3)));
    assert!(!r.matches(&v(14, 16, 9)));
    assert!(!r.matches(&v(15, 0, 0)));
    assert!(r.matches(&v(16, 0, 0)));
    assert!(r.matches(&v(18, 4, 0)));
}

#[test]
fn range_matches_tilde_and_wildcards() {
    let tilde = parse_range("~1.2.3").unwrap();
    assert!(tilde.matches(&v(1, 2, 3)));
    assert!(tilde.matches(&v(1, 2, 9)));
    assert!(!tilde.matches(&v(1, 3, 0)));
    let xr = parse_range("1.x").unwrap();
    assert!(xr.matches(&v(1, 5, 2)));
    assert!(!xr.matches(&v(2, 0, 0)));
    let star = parse_range("*").unwrap();
    assert!(star.matches(&v(0, 0, 1)));
    assert!(star.matches(&v(99, 0, 0)));
}

#[test]
fn range_conjunction_bounds_both_sides() {
    let r = parse_range(">=1.2.0 <2").unwrap();
    assert!(r.matches(&v(1, 2, 0)));
    assert!(r.matches(&v(1, 9, 9)));
    assert!(!r.matches(&v(1, 1, 9)));
    assert!(!r.matches(&v(2, 0, 0)));
}

#[test]
fn range_caret_on_zero_majors() {
    let r = parse_range("^0.2.3").unwrap();
    assert!(r.matches(&v(0, 2, 3)));
    assert!(r.matches(&v(0, 2, 9)));
    assert!(!r.matches(&v(0, 3, 0)));
    let tiny = parse_range("^0.0.3").unwrap();
    assert!(tiny.matches(&v(0, 0, 3)));
    assert!(!tiny.matches(&v(0, 0, 4)));
}

#[test]
fn rejects_malformed_ranges() {
    assert!(parse_range(">< 1").is_none());
    assert!(parse_range("1.2.3junk").is_none());
    assert!(parse_range("|| ||").is_some());
    assert!(parse_range("^1.2.3 | 2").is_none());
}
