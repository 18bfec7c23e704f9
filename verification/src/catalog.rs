//! Catalog entries: the remotely available versions with their
//! release metadata, as fetched and parsed from the mirror's index
//! by the surrounding program and handed in as plain values.
use vstd::prelude::*;
use crate::version::Version;

verus! {

/// One remote release: its version and, for LTS lines, the codename.
#[derive(Clone, Debug)]
pub struct RemoteVersion {
    pub version: Version,
    pub lts: Option<String>,
}

/// Whether some catalog entry carries version `v`.
pub open spec fn spec_catalog_has(remote: Seq<RemoteVersion>, v: Version) -> bool {
    exists|k: int| 0 <= k < remote.len() && remote[k].version == v
}

/// Decides catalog membership.
pub fn catalog_has(remote: &Vec<RemoteVersion>, v: &Version) -> (r: bool)
    ensures
        r == spec_catalog_has(remote@, *v),
{
    let n = remote.len();
    let mut i: usize = 0;
    while i < n
        invariant
            i <= n,
            n == remote@.len(),
            forall|k: int| 0 <= k < i ==> remote@[k].version != *v,
        decreases n - i,
    {
        if remote[i].version == *v {
            assert(remote@[i as int].version == *v);
            return true;
        }
        i = i + 1;
    }
    false
}

/// The catalog's bare version list, entry for entry.
pub fn catalog_versions(remote: &Vec<RemoteVersion>) -> (r: Vec<Version>)
    ensures
        r@.len() == remote@.len(),
        forall|k: int| 0 <= k < remote@.len() ==> r@[k] == remote@[k].version,
{
    let n = remote.len();
    let mut out: Vec<Version> = Vec::new();
    let mut i: usize = 0;
    while i < n
        invariant
            i <= n,
            n == remote@.len(),
            out@.len() == i,
            forall|k: int| 0 <= k < i ==> out@[k] == remote@[k].version,
        decreases n - i,
    {
        out.push(remote[i].version);
        i = i + 1;
    }
    out
}

} // verus!
