//! Resolution: prefix picking, range precedence, the context chain.
use nvc::version::Version;
use nvc::specifier::parse_specifier;
use nvc::range::parse_range;
use nvc::resolver::{resolve_specifier, resolve_from_context, resolve_engine_range,
    max_matching_prefix, Resolution, ResolutionError, RangeResolution, ContextChoice};
use nvc::catalog::RemoteVersion;
use nvc::alias::AliasStore;

fn v(major: u64, minor: u64, patch: u64) -> Version {
    Version { major, minor, patch }
}

fn remote(entries: &[(Version, Option<&str>)]) -> Vec<RemoteVersion> {
    entries
        .iter()
        .map(|(ver, lts)| RemoteVersion { version: *ver, lts: lts.map(|s| s.to_string()) })
        .collect()
}

#[test]
fn partial_prefix_picks_unique_maximum() {
    let installed = vec![v(16, 2, 0), v(16, 14, 0), v(18, 0, 0)];
    let spec = parse_specifier("16").unwrap();
    let aliases = AliasStore::new();
    let got = resolve_specifier(&spec, &aliases, &installed, &Vec::new(), false);
    assert_eq!(got, Ok(Resolution::Concrete(v(16, 14, 0))));
}

#[test]
fn partial_prefix_without_match_is_no_matching_version() {
    let installed = vec![v(16, 2, 0), v(18, 0, 0)];
    let spec = parse_specifier("20").unwrap();
    let aliases = AliasStore::new();
    let got = resolve_specifier(&spec, &aliases, &installed, &Vec::new(), false);
    assert_eq!(got, Err(ResolutionError::NoMatchingVersion));
    assert_eq!(max_matching_prefix(&installed, 20, None), None);
}

#[test]
fn engine_range_prefers_highest_installed_satisfier() {
    let range = parse_range("^14.17.0 || >=16.0.0").unwrap();
    let installed = vec![v(14, 17, 0), v(15, 0, 0), v(16, 0, 0)];
    let got = resolve_engine_range(&range, &installed, &remote(&[]));
    assert_eq!(got, RangeResolution::UseInstalled(v(16, 0, 0)));
}

#[test]
fn engine_range_falls_back_to_catalog_when_nothing_installed_satisfies() {
    let range = parse_range("^14.17.0 || >=16.0.0").unwrap();
    let installed = vec![v(15, 0, 0)];
    let catalog = remote(&[(v(16, 0, 0), None), (v(15, 0, 0), None)]);
    let got = resolve_engine_range(&range, &installed, &catalog);
    assert_eq!(got, RangeResolution::NeedsInstall(v(16, 0, 0)));
}

#[test]
fn engine_range_with_no_satisfier_anywhere() {
    let range = parse_range(">=20").unwrap();
    let installed = vec![v(15, 0, 0)];
    let catalog = remote(&[(v(16, 0, 0), None)]);
    assert_eq!(resolve_engine_range(&range, &installed, &catalog), RangeResolution::NoSatisfier);
}

#[test]
fn exact_resolves_only_when_present() {
    let installed = vec![v(16, 2, 0)];
    let aliases = AliasStore::new();
    let hit = parse_specifier("v16.2.0").unwrap();
    assert_eq!(
        resolve_specifier(&hit, &aliases, &installed, &Vec::new(), false),
        Ok(Resolution::Concrete(v(16, 2, 0)))
    );
    let miss = parse_specifier("v16.3.0").unwrap();
    assert_eq!(
        resolve_specifier(&miss, &aliases, &installed, &Vec::new(), false),
        Err(ResolutionError::NoMatchingVersion)
    );
}

#[test]
fn install_resolves_against_the_catalog() {
    let installed = vec![];
    let catalog = remote(&[(v(18, 0, 0), None), (v(18, 4, 0), None)]);
    let aliases = AliasStore::new();
    let spec = parse_specifier("18").unwrap();
    assert_eq!(
        resolve_specifier(&spec, &aliases, &installed, &catalog, true),
        Ok(Resolution::Concrete(v(18, 4, 0)))
    );
}

#[test]
fn latest_picks_overall_maximum() {
    let installed = vec![v(14, 0, 0), v(18, 4, 0), v(16, 20, 1)];
    let aliases = AliasStore::new();
    let spec = parse_specifier("latest").unwrap();
    assert_eq!(
        resolve_specifier(&spec, &aliases, &installed, &Vec::new(), false),
        Ok(Resolution::Concrete(v(18, 4, 0)))
    );
}

#[test]
fn lts_names_resolve_against_catalog_metadata() {
    let catalog = remote(&[
        (v(14, 21, 3), Some("fermium")),
        (v(16, 20, 2), Some("gallium")),
        (v(17, 0, 0), None),
        (v(16, 20, 1), Some("gallium")),
    ]);
    let aliases = AliasStore::new();
    let latest_lts = parse_specifier("lts-latest").unwrap();
    assert_eq!(
        resolve_specifier(&latest_lts, &aliases, &Vec::new(), &catalog, true),
        Ok(Resolution::Concrete(v(16, 20, 2)))
    );
    let by_name = parse_specifier("lts-fermium").unwrap();
    assert_eq!(
        resolve_specifier(&by_name, &aliases, &Vec::new(), &catalog, true),
        Ok(Resolution::Concrete(v(14, 21, 3)))
    );
    let missing = parse_specifier("lts-argon").unwrap();
    assert_eq!(
        resolve_specifier(&missing, &aliases, &Vec::new(), &catalog, true),
        Err(ResolutionError::NoMatchingVersion)
    );
}

#[test]
fn bypass_is_a_sentinel() {
    let spec = parse_specifier("system").unwrap();
    let aliases = AliasStore::new();
    assert_eq!(
        resolve_specifier(&spec, &aliases, &Vec::new(), &Vec::new(), false),
        Ok(Resolution::PathBypass)
    );
}

#[test]
fn alias_specifiers_read_the_store() {
    let mut aliases = AliasStore::new();
    aliases.set("team", v(16, 2, 0));
    let spec = parse_specifier("team").unwrap();
    assert_eq!(
        resolve_specifier(&spec, &aliases, &Vec::new(), &Vec::new(), false),
        Ok(Resolution::Concrete(v(16, 2, 0)))
    );
    let missing = parse_specifier("other").unwrap();
    assert_eq!(
        resolve_specifier(&missing, &aliases, &Vec::new(), &Vec::new(), false),
        Err(ResolutionError::AliasNotFound)
    );
}

#[test]
fn context_chain_prefers_the_version_file() {
    let mut aliases = AliasStore::new();
    aliases.set("default", v(14, 0, 0));
    let installed = vec![v(14, 0, 0), v(16, 2, 0)];
    let ambient = String::from("16");
    let engines = String::from(">=14");
    let got = resolve_from_context(
        Some(&ambient),
        Some(&engines),
        true,
        &aliases,
        &installed,
        &Vec::new(),
        false,
    );
    assert_eq!(got, Ok(ContextChoice::FromFile(Resolution::Concrete(v(16, 2, 0)))));
}

#[test]
fn context_chain_uses_engines_when_no_file() {
    let aliases = AliasStore::new();
    let installed = vec![v(14, 17, 0), v(16, 0, 0)];
    let engines = String::from("^14.17.0 || >=16.0.0");
    let got = resolve_from_context(
        None,
        Some(&engines),
        true,
        &aliases,
        &installed,
        &Vec::new(),
        false,
    );
    assert_eq!(
        got,
        Ok(ContextChoice::FromEngines(RangeResolution::UseInstalled(v(16, 0, 0))))
    );
}

#[test]
fn context_chain_skips_engines_when_disabled() {
    let mut aliases = AliasStore::new();
    aliases.set("default", v(14, 0, 0));
    let engines = String::from(">=16");
    let got = resolve_from_context(
        None,
        Some(&engines),
        false,
        &aliases,
        &vec![v(14, 0, 0)],
        &Vec::new(),
        false,
    );
    assert_eq!(got, Ok(ContextChoice::FromDefault(v(14, 0, 0))));
}

#[test]
fn context_chain_without_any_source_is_unconfigured() {
    let aliases = AliasStore::new();
    let got = resolve_from_context(None, None, true, &aliases, &Vec::new(), &Vec::new(), false);
    assert_eq!(got, Err(ResolutionError::NoVersionConfigured));
}

#[test]
fn context_chain_reports_unparseable_file_text() {
    let aliases = AliasStore::new();
    let ambient = String::from("16.");
    let got = resolve_from_context(
        Some(&ambient),
        None,
        false,
        &aliases,
        &Vec::new(),
        &Vec::new(),
        false,
    );
    assert_eq!(got, Err(ResolutionError::SpecifierUnparseable));
}
