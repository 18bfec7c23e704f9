//! Install planning: the decisions of the download-verify-extract-
//! publish pipeline. The surrounding program performs the network
//! and archive work and drives `LocalStore::stage` / `publish`; the
//! decision of whether anything must be fetched at all, and from
//! which URL, is made and proved here.
use vstd::prelude::*;
use vstd::string::*;
use crate::version::{Version, spec_version_chars};
use crate::catalog::{RemoteVersion, spec_catalog_has, catalog_has};
use crate::store::LocalStore;

verus! {

/// What an install request must do next.
#[derive(Clone, Debug)]
pub enum InstallDecision {
    /// The version is already published locally: nothing to fetch.
    AlreadyInstalled,
    /// The catalog does not offer the version: fail fast, never
    /// attempt a blind download.
    RemoteVersionNotFound,
    /// Fetch this URL, stage, then publish.
    Download(String),
}

/// The abstract decision: use the existing installation, fail on a
/// version the catalog lacks, or fetch.
pub enum InstallAction {
    UseExisting,
    FailMissing,
    Fetch,
}

/// The decision rule of the install pipeline's first checkpoint.
pub open spec fn spec_plan_action(installed: bool, remote_has: bool, force: bool) -> InstallAction {
    if installed && !force {
        InstallAction::UseExisting
    } else if !remote_has {
        InstallAction::FailMissing
    } else {
        InstallAction::Fetch
    }
}

/// The download URL: `{mirror}/{version}/node-{version}-{os}-{arch}.{ext}`,
/// with a compressed tarball on Unix-like targets and a zip elsewhere.
pub open spec fn spec_download_url(
    mirror: Seq<char>,
    v: Version,
    os: Seq<char>,
    arch: Seq<char>,
    windows: bool,
) -> Seq<char> {
    mirror + "/"@ + spec_version_chars(v) + "/node-"@ + spec_version_chars(v) + "-"@ + os + "-"@
        + arch + "."@ + (if windows {
        "zip"@
    } else {
        "tar.xz"@
    })
}

/// Builds the download URL for a version.
pub fn download_url(mirror: &str, v: &Version, os: &str, arch: &str, windows: bool) -> (r: String)
    ensures
        r@ == spec_download_url(mirror@, *v, os@, arch@, windows),
{
    let vs = v.v_str();
    let mut s = mirror.to_owned();
    s.append("/");
    s.append(vs.as_str());
    s.append("/node-");
    s.append(vs.as_str());
    s.append("-");
    s.append(os);
    s.append("-");
    s.append(arch);
    s.append(".");
    if windows {
        s.append("zip");
    } else {
        s.append("tar.xz");
    }
    s
}

/// Plans one install request. Idempotence lives in the first clause:
/// a version the store already publishes is never fetched again
/// unless the caller forces a reinstall.
pub fn plan_install(
    store: &LocalStore,
    remote: &Vec<RemoteVersion>,
    v: &Version,
    force: bool,
    mirror: &str,
    os: &str,
    arch: &str,
    windows: bool,
) -> (r: InstallDecision)
    ensures
        spec_plan_action(store.spec_is_installed(*v), spec_catalog_has(remote@, *v), force)
            is UseExisting ==> r is AlreadyInstalled,
        spec_plan_action(store.spec_is_installed(*v), spec_catalog_has(remote@, *v), force)
            is FailMissing ==> r is RemoteVersionNotFound,
        spec_plan_action(store.spec_is_installed(*v), spec_catalog_has(remote@, *v), force)
            is Fetch ==> (r matches InstallDecision::Download(u) && u@ == spec_download_url(
            mirror@,
            *v,
            os@,
            arch@,
            windows,
        )),
{
    if store.is_installed(v) && !force {
        InstallDecision::AlreadyInstalled
    } else if !catalog_has(remote, v) {
        InstallDecision::RemoteVersionNotFound
    } else {
        InstallDecision::Download(download_url(mirror, v, os, arch, windows))
    }
}

/// Law: once a version is published, planning its install again —
/// without a forced reinstall — decides to use the existing
/// installation: the second call fetches nothing, whatever the
/// catalog holds.
pub proof fn lemma_install_idempotent(
    s0: LocalStore,
    s1: LocalStore,
    v: Version,
    remote_has: bool,
)
    requires
        forall|u: Version| s1.spec_is_installed(u) == (s0.spec_is_installed(u) || u == v),
    ensures
        s1.spec_is_installed(v),
        spec_plan_action(s1.spec_is_installed(v), remote_has, false) is UseExisting,
{
    assert(s1.spec_is_installed(v) == (s0.spec_is_installed(v) || v == v));
}

} // verus!
