//! Store behaviour: alias round trips, install idempotence, staging
//! invisibility, the uninstall cascade, shell isolation, paths.
use nvc::version::Version;
use nvc::alias::AliasStore;
use nvc::store::LocalStore;
use nvc::shell::ShellLinks;
use nvc::catalog::RemoteVersion;
use nvc::installer::{plan_install, download_url, InstallDecision};
use nvc::commands::{Current, ExecError, plan_exec};
use nvc::config::{NvcConfig, LogLevel, VersionFileStrategy};
use nvc::mirror::mirror_or_default;

fn v(major: u64, minor: u64, patch: u64) -> Version {
    Version { major, minor, patch }
}

fn remote(versions: &[Version]) -> Vec<RemoteVersion> {
    versions.iter().map(|ver| RemoteVersion { version: *ver, lts: None }).collect()
}

#[test]
fn alias_round_trip() {
    let mut store = LocalStore::new();
    store.stage(&v(16, 2, 0));
    store.publish();
    let mut aliases = AliasStore::new();
    aliases.set("team", v(16, 2, 0));
    assert_eq!(aliases.get("team"), Some(v(16, 2, 0)));
    aliases.remove("team");
    assert_eq!(aliases.get("team"), None);
    // Alias removal never touches the installation state.
    assert!(store.is_installed(&v(16, 2, 0)));
}

#[test]
fn alias_overwrite_and_other_names_untouched() {
    let mut aliases = AliasStore::new();
    aliases.set("a", v(1, 0, 0));
    aliases.set("b", v(2, 0, 0));
    aliases.set("a", v(3, 0, 0));
    assert_eq!(aliases.get("a"), Some(v(3, 0, 0)));
    assert_eq!(aliases.get("b"), Some(v(2, 0, 0)));
    assert_eq!(aliases.list().len(), 2);
}

#[test]
fn install_is_idempotent_one_fetch_only() {
    let mut store = LocalStore::new();
    let catalog = remote(&[v(18, 0, 0)]);
    let mut fetches: usize = 0;
    for _ in 0..2 {
        match plan_install(
            &store,
            &catalog,
            &v(18, 0, 0),
            false,
            "https://nodejs.org/dist",
            "linux",
            "x64",
            false,
        ) {
            InstallDecision::Download(_) => {
                fetches += 1;
                store.stage(&v(18, 0, 0));
                let published = store.publish();
                assert_eq!(published, v(18, 0, 0));
            },
            InstallDecision::AlreadyInstalled => {},
            InstallDecision::RemoteVersionNotFound => panic!("catalog has the version"),
        }
    }
    assert_eq!(fetches, 1);
    assert!(store.is_installed(&v(18, 0, 0)));
}

#[test]
fn blind_downloads_are_refused() {
    let store = LocalStore::new();
    let catalog = remote(&[v(16, 0, 0)]);
    let got = plan_install(&store, &catalog, &v(18, 0, 0), false, "m", "linux", "x64", false);
    assert!(matches!(got, InstallDecision::RemoteVersionNotFound));
}

#[test]
fn download_url_shape() {
    let url = download_url("https://nodejs.org/dist", &v(18, 4, 0), "linux", "x64", false);
    assert_eq!(url, "https://nodejs.org/dist/v18.4.0/node-v18.4.0-linux-x64.tar.xz");
    let zip = download_url("https://nodejs.org/dist", &v(18, 4, 0), "win", "x64", true);
    assert_eq!(zip, "https://nodejs.org/dist/v18.4.0/node-v18.4.0-win-x64.zip");
}

#[test]
fn interrupted_install_stays_invisible() {
    let mut store = LocalStore::new();
    store.stage(&v(16, 0, 0));
    store.publish();
    // Staging populated, the final rename never executed.
    store.stage(&v(18, 0, 0));
    assert!(!store.is_installed(&v(18, 0, 0)));
    assert_eq!(store.list().len(), 1);
    store.abandon_staging();
    assert!(!store.is_installed(&v(18, 0, 0)));
    assert!(store.is_installed(&v(16, 0, 0)));
}

#[test]
fn racing_publishes_keep_the_existing_copy() {
    let mut store = LocalStore::new();
    store.stage(&v(18, 0, 0));
    store.publish();
    store.stage(&v(18, 0, 0));
    store.publish();
    assert_eq!(store.list().len(), 1);
}

#[test]
fn uninstall_cascades_over_aliases() {
    let mut store = LocalStore::new();
    store.stage(&v(16, 2, 0));
    store.publish();
    store.stage(&v(14, 0, 0));
    store.publish();
    let mut aliases = AliasStore::new();
    aliases.set("x", v(16, 2, 0));
    aliases.set("default", v(16, 2, 0));
    aliases.set("old", v(14, 0, 0));
    store.uninstall(&v(16, 2, 0), &mut aliases);
    assert_eq!(aliases.get("x"), None);
    assert_eq!(aliases.get("default"), None);
    assert_eq!(aliases.get("old"), Some(v(14, 0, 0)));
    assert!(!store.is_installed(&v(16, 2, 0)));
    assert!(store.is_installed(&v(14, 0, 0)));
}

#[test]
fn shell_sessions_are_isolated() {
    let mut links = ShellLinks::new();
    links.point("/tmp/shell-a", v(16, 2, 0));
    links.point("/tmp/shell-b", v(18, 0, 0));
    assert_eq!(links.current("/tmp/shell-a"), Some(v(16, 2, 0)));
    assert_eq!(links.current("/tmp/shell-b"), Some(v(18, 0, 0)));
    links.point("/tmp/shell-b", v(14, 0, 0));
    assert_eq!(links.current("/tmp/shell-a"), Some(v(16, 2, 0)));
    assert_eq!(links.current("/tmp/shell-b"), Some(v(14, 0, 0)));
    assert_eq!(links.current("/tmp/shell-c"), None);
}

#[test]
fn current_renders_version_or_none() {
    assert_eq!(Current::render(Some(&v(16, 2, 0))), "v16.2.0");
    assert_eq!(Current::render(None), "none");
}

#[test]
fn exec_requires_an_installed_version() {
    let mut store = LocalStore::new();
    store.stage(&v(16, 2, 0));
    store.publish();
    let ok = plan_exec(&store, "/data/nvc", &v(16, 2, 0), false);
    assert_eq!(ok, Ok(String::from("/data/nvc/node-versions/v16.2.0/bin")));
    let missing = plan_exec(&store, "/data/nvc", &v(18, 0, 0), false);
    assert_eq!(missing, Err(ExecError::VersionNotInstalled));
}

#[test]
fn config_paths_follow_the_layout() {
    let config = NvcConfig::new(
        String::from("https://nodejs.org/dist/"),
        Some(String::from("/data/nvc")),
        String::from("x64"),
        None,
        LogLevel::Info,
        VersionFileStrategy::Local,
        false,
        false,
    );
    let base = config.base_dir_with_default(None, None);
    assert_eq!(base, "/data/nvc");
    assert_eq!(config.installations_dir(&base), "/data/nvc/node-versions");
    assert_eq!(config.aliases_dir(&base), "/data/nvc/aliases");
    assert_eq!(config.default_version_dir(&base), "/data/nvc/aliases/default");
}

#[test]
fn base_dir_precedence() {
    let config = NvcConfig::new(
        String::from("https://nodejs.org/dist/"),
        None,
        String::from("x64"),
        None,
        LogLevel::Info,
        VersionFileStrategy::Recursive,
        false,
        true,
    );
    let legacy = String::from("/home/dev/.nvc");
    let modern = String::from("/home/dev/.local/share/nvc");
    assert_eq!(config.base_dir_with_default(Some(&legacy), Some(&modern)), "/home/dev/.nvc");
    assert_eq!(config.base_dir_with_default(None, Some(&modern)), "/home/dev/.local/share/nvc");
    let overridden = config.with_base_dir(Some(String::from("/custom")));
    assert_eq!(overridden.base_dir_with_default(Some(&legacy), Some(&modern)), "/custom");
    assert!(overridden.resolve_engines());
    assert_eq!(*overridden.version_file_strategy(), VersionFileStrategy::Recursive);
}

#[test]
fn mirror_normalizes_or_defaults() {
    assert_eq!(mirror_or_default(None), Some(String::from("https://nodejs.org/dist/")));
    let custom = String::from("HTTPS://Example.COM/Dist");
    let normalized = mirror_or_default(Some(&custom)).unwrap();
    assert_eq!(normalized, "https://example.com/Dist");
    let invalid = String::from("not a url at all");
    assert_eq!(mirror_or_default(Some(&invalid)), None);
}
