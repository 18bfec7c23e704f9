//! Version resolution: one concrete version out of a specifier and
//! the candidate sets, and the precedence chain that applies when no
//! explicit specifier was given — nearest version file, then the
//! manifest's engine range when that is enabled, then the `default`
//! alias, and otherwise a configuration error.
use vstd::prelude::*;
use crate::version::Version;
use crate::specifier::{VersionSpecifier, SpecifierView, spec_parse_specifier, spec_prefix_matches,
    prefix_matches, parse_specifier};
use crate::range::{Range, spec_range_matches, spec_parse_range, parse_range};
use crate::catalog::{RemoteVersion, catalog_versions};
use crate::alias::AliasStore;

verus! {

/// Why a resolution failed.
#[derive(Clone, Copy, PartialEq, Eq, Structural, Debug)]
pub enum ResolutionError {
    SpecifierUnparseable,
    NoVersionConfigured,
    NoMatchingVersion,
    AliasNotFound,
}

/// A successful resolution: one concrete version, or the bypass
/// sentinel that tells callers to leave `PATH` as it is.
#[derive(Clone, Copy, PartialEq, Eq, Structural, Debug)]
pub enum Resolution {
    Concrete(Version),
    PathBypass,
}

/// Picks the maximum candidate matching a partial numeric prefix.
pub fn max_matching_prefix(cands: &Vec<Version>, major: u64, minor: Option<u64>) -> (r: Option<
    Version,
>)
    ensures
        r matches Some(b) ==> cands@.contains(b) && spec_prefix_matches(major, minor, b) && forall|
            u: Version,
        | cands@.contains(u) && spec_prefix_matches(major, minor, u) ==> u.spec_le(b),
        r is None ==> forall|u: Version|
            cands@.contains(u) ==> !spec_prefix_matches(major, minor, u),
{
    let n = cands.len();
    let mut best: Option<Version> = None;
    let mut i: usize = 0;
    while i < n
        invariant
            i <= n,
            n == cands@.len(),
            match best {
                Some(b) => cands@.contains(b) && spec_prefix_matches(major, minor, b) && forall|
                    k: int,
                | 0 <= k < i && spec_prefix_matches(major, minor, cands@[k]) ==> cands@[
                    k
                ].spec_le(b),
                None => forall|k: int| 0 <= k < i ==> !spec_prefix_matches(major, minor, cands@[k]),
            },
        decreases n - i,
    {
        let c = cands[i];
        if prefix_matches(major, &minor, &c) {
            proof {
                assert(cands@[i as int] == c);
                assert(cands@.contains(c));
            }
            best = match best {
                Some(b) => if b.lt(&c) {
                    Some(c)
                } else {
                    Some(b)
                },
                None => Some(c),
            };
        }
        i = i + 1;
    }
    proof {
        if best is Some {
            let b = best->0;
            assert forall|u: Version|
                cands@.contains(u) && spec_prefix_matches(major, minor, u) implies u.spec_le(
                b,
            ) by {
                let k = choose|k: int| 0 <= k < cands@.len() && cands@[k] == u;
            }
        } else {
            assert forall|u: Version|
                cands@.contains(u) implies !spec_prefix_matches(major, minor, u) by {
                let k = choose|k: int| 0 <= k < cands@.len() && cands@[k] == u;
            }
        }
    }
    best
}

/// Law: the maximum among the candidates matching a partial prefix
/// is unique: two versions that each match and dominate every
/// matching candidate are one and the same, so a resolution outcome
/// is never a choice among peers.
pub proof fn lemma_prefix_maximum_unique(
    cands: Seq<Version>,
    major: u64,
    minor: Option<u64>,
    a: Version,
    b: Version,
)
    requires
        cands.contains(a),
        spec_prefix_matches(major, minor, a),
        forall|u: Version| cands.contains(u) && spec_prefix_matches(major, minor, u) ==> u.spec_le(a),
        cands.contains(b),
        spec_prefix_matches(major, minor, b),
        forall|u: Version| cands.contains(u) && spec_prefix_matches(major, minor, u) ==> u.spec_le(b),
    ensures
        a == b,
{
    assert(a.spec_le(b));
    assert(b.spec_le(a));
}

/// Picks the maximum candidate outright.
pub fn max_version(cands: &Vec<Version>) -> (r: Option<Version>)
    ensures
        r matches Some(b) ==> cands@.contains(b) && forall|u: Version|
            cands@.contains(u) ==> u.spec_le(b),
        r is None ==> cands@.len() == 0,
{
    let n = cands.len();
    let mut best: Option<Version> = None;
    let mut i: usize = 0;
    while i < n
        invariant
            i <= n,
            n == cands@.len(),
            match best {
                Some(b) => cands@.contains(b) && forall|k: int|
                    0 <= k < i ==> cands@[k].spec_le(b),
                None => i == 0,
            },
        decreases n - i,
    {
        let c = cands[i];
        proof {
            assert(cands@[i as int] == c);
            assert(cands@.contains(c));
        }
        best = match best {
            Some(b) => if b.lt(&c) {
                Some(c)
            } else {
                Some(b)
            },
            None => Some(c),
        };
        i = i + 1;
    }
    proof {
        if best is Some {
            let b = best->0;
            assert forall|u: Version| cands@.contains(u) implies u.spec_le(b) by {
                let k = choose|k: int| 0 <= k < cands@.len() && cands@[k] == u;
            }
        }
    }
    best
}

/// Picks the maximum candidate satisfying a range.
pub fn max_satisfying(cands: &Vec<Version>, range: &Range) -> (r: Option<Version>)
    ensures
        r matches Some(b) ==> cands@.contains(b) && spec_range_matches(range@, b) && forall|
            u: Version,
        | cands@.contains(u) && spec_range_matches(range@, u) ==> u.spec_le(b),
        r is None ==> forall|u: Version| cands@.contains(u) ==> !spec_range_matches(range@, u),
{
    let n = cands.len();
    let mut best: Option<Version> = None;
    let mut i: usize = 0;
    while i < n
        invariant
            i <= n,
            n == cands@.len(),
            match best {
                Some(b) => cands@.contains(b) && spec_range_matches(range@, b) && forall|k: int|
                    0 <= k < i && spec_range_matches(range@, cands@[k]) ==> cands@[k].spec_le(b),
                None => forall|k: int| 0 <= k < i ==> !spec_range_matches(range@, cands@[k]),
            },
        decreases n - i,
    {
        let c = cands[i];
        if range.matches(&c) {
            proof {
                assert(cands@[i as int] == c);
                assert(cands@.contains(c));
            }
            best = match best {
                Some(b) => if b.lt(&c) {
                    Some(c)
                } else {
                    Some(b)
                },
                None => Some(c),
            };
        }
        i = i + 1;
    }
    proof {
        if best is Some {
            let b = best->0;
            assert forall|u: Version|
                cands@.contains(u) && spec_range_matches(range@, u) implies u.spec_le(b) by {
                let k = choose|k: int| 0 <= k < cands@.len() && cands@[k] == u;
            }
        } else {
            assert forall|u: Version|
                cands@.contains(u) implies !spec_range_matches(range@, u) by {
                let k = choose|k: int| 0 <= k < cands@.len() && cands@[k] == u;
            }
        }
    }
    best
}

/// Whether a catalog entry is an LTS release, with the wanted
/// codename when one is given.
pub open spec fn spec_lts_matches(e: RemoteVersion, codename: Option<Seq<char>>) -> bool {
    e.lts is Some && (match codename {
        Some(n) => e.lts->0@ == n,
        None => true,
    })
}

/// The view of an optional codename argument.
pub open spec fn spec_codename_view(c: Option<&String>) -> Option<Seq<char>> {
    match c {
        Some(s) => Some(s@),
        None => None,
    }
}

fn lts_matches(e: &RemoteVersion, codename: Option<&String>) -> (r: bool)
    ensures
        r == spec_lts_matches(*e, spec_codename_view(codename)),
{
    match &e.lts {
        Some(n) => match codename {
            Some(c) => crate::strutil::eq_chars(n.as_str(), c.as_str()),
            None => true,
        },
        None => false,
    }
}

/// Picks the newest LTS entry of the catalog, optionally restricted
/// to one codename.
pub fn max_lts(remote: &Vec<RemoteVersion>, codename: Option<&String>) -> (r: Option<Version>)
    ensures
        r matches Some(b) ==> (exists|k: int|
            0 <= k < remote@.len() && spec_lts_matches(remote@[k], spec_codename_view(codename))
                && remote@[k].version == b) && forall|k: int|
            0 <= k < remote@.len() && spec_lts_matches(remote@[k], spec_codename_view(codename))
                ==> remote@[k].version.spec_le(b),
        r is None ==> forall|k: int|
            0 <= k < remote@.len() ==> !spec_lts_matches(remote@[k], spec_codename_view(codename)),
{
    let n = remote.len();
    let mut best: Option<Version> = None;
    let mut i: usize = 0;
    while i < n
        invariant
            i <= n,
            n == remote@.len(),
            match best {
                Some(b) => (exists|k: int|
                    0 <= k < n && spec_lts_matches(remote@[k], spec_codename_view(codename))
                        && remote@[k].version == b) && forall|k: int|
                    0 <= k < i && spec_lts_matches(remote@[k], spec_codename_view(codename))
                        ==> remote@[k].version.spec_le(b),
                None => forall|k: int|
                    0 <= k < i ==> !spec_lts_matches(remote@[k], spec_codename_view(codename)),
            },
        decreases n - i,
    {
        if lts_matches(&remote[i], codename) {
            let c = remote[i].version;
            proof {
                assert(spec_lts_matches(remote@[i as int], spec_codename_view(codename))
                    && remote@[i as int].version == c);
            }
            best = match best {
                Some(b) => if b.lt(&c) {
                    Some(c)
                } else {
                    Some(b)
                },
                None => Some(c),
            };
        }
        i = i + 1;
    }
    best
}

/// How an engine range resolves against the two candidate sets: an
/// installed satisfier is preferred; only when no installed version
/// satisfies the range does the catalog's best satisfier force an
/// install; and with no satisfier anywhere the range has no match.
#[derive(Clone, Copy, PartialEq, Eq, Structural, Debug)]
pub enum RangeResolution {
    UseInstalled(Version),
    NeedsInstall(Version),
    NoSatisfier,
}

/// Exactly when each `RangeResolution` outcome is right.
pub open spec fn spec_range_resolution_ok(
    alts: Seq<Seq<crate::range::Comparator>>,
    installed: Seq<Version>,
    remote: Seq<RemoteVersion>,
    rr: RangeResolution,
) -> bool {
    match rr {
        RangeResolution::UseInstalled(v) => installed.contains(v) && spec_range_matches(alts, v)
            && forall|u: Version|
            installed.contains(u) && spec_range_matches(alts, u) ==> u.spec_le(v),
        RangeResolution::NeedsInstall(v) => (forall|u: Version|
            installed.contains(u) ==> !spec_range_matches(alts, u)) && (exists|k: int|
            0 <= k < remote.len() && remote[k].version == v) && spec_range_matches(alts, v)
            && forall|k: int|
            0 <= k < remote.len() && spec_range_matches(alts, remote[k].version) ==> remote[
                k
            ].version.spec_le(v),
        RangeResolution::NoSatisfier => (forall|u: Version|
            installed.contains(u) ==> !spec_range_matches(alts, u)) && forall|k: int|
            0 <= k < remote.len() ==> !spec_range_matches(alts, remote[k].version),
    }
}

/// Resolves an engine range: the newest installed satisfier, else
/// the newest catalog satisfier as an install to perform, else no
/// match.
pub fn resolve_engine_range(range: &Range, installed: &Vec<Version>, remote: &Vec<
    RemoteVersion,
>) -> (r: RangeResolution)
    ensures
        spec_range_resolution_ok(range@, installed@, remote@, r),
{
    match max_satisfying(installed, range) {
        Some(v) => RangeResolution::UseInstalled(v),
        None => {
            let rv = catalog_versions(remote);
            match max_satisfying(&rv, range) {
                Some(v) => {
                    proof {
                        let k = choose|k: int| 0 <= k < rv@.len() && rv@[k] == v;
                        assert(remote@[k].version == v);
                        assert forall|k2: int|
                            0 <= k2 < remote@.len() && spec_range_matches(
                                range@,
                                remote@[k2].version,
                            ) implies remote@[k2].version.spec_le(v) by {
                            assert(rv@[k2] == remote@[k2].version);
                            assert(rv@.contains(remote@[k2].version));
                        }
                    }
                    RangeResolution::NeedsInstall(v)
                },
                None => {
                    proof {
                        assert forall|k: int|
                            0 <= k < remote@.len() implies !spec_range_matches(
                            range@,
                            remote@[k].version,
                        ) by {
                            assert(rv@[k] == remote@[k].version);
                            assert(rv@.contains(remote@[k].version));
                        }
                    }
                    RangeResolution::NoSatisfier
                },
            }
        },
    }
}

/// The candidate set a specifier resolves against: the catalog's
/// versions for an install, the published installations otherwise.
pub open spec fn spec_candidates(
    installed: Seq<Version>,
    remote: Seq<RemoteVersion>,
    for_install: bool,
) -> Seq<Version> {
    if for_install {
        Seq::new(remote.len(), |k: int| remote[k].version)
    } else {
        installed
    }
}

/// Exactly when a resolution outcome is right for a specifier.
/// LTS names always resolve against the catalog, which is where the
/// release metadata lives.
pub open spec fn spec_resolution_ok(
    sp: SpecifierView,
    aliases: AliasStore,
    installed: Seq<Version>,
    remote: Seq<RemoteVersion>,
    for_install: bool,
    r: Result<Resolution, ResolutionError>,
) -> bool {
    let cands = spec_candidates(installed, remote, for_install);
    match sp {
        SpecifierView::Exact(v) => if cands.contains(v) {
            r == Ok::<Resolution, ResolutionError>(Resolution::Concrete(v))
        } else {
            r == Err::<Resolution, ResolutionError>(ResolutionError::NoMatchingVersion)
        },
        SpecifierView::PartialPrefix { major, minor } => match r {
            Ok(Resolution::Concrete(v)) => cands.contains(v) && spec_prefix_matches(
                major,
                minor,
                v,
            ) && forall|u: Version|
                cands.contains(u) && spec_prefix_matches(major, minor, u) ==> u.spec_le(v),
            Err(ResolutionError::NoMatchingVersion) => forall|u: Version|
                cands.contains(u) ==> !spec_prefix_matches(major, minor, u),
            _ => false,
        },
        SpecifierView::LtsCodename(n) => match r {
            Ok(Resolution::Concrete(v)) => (exists|k: int|
                0 <= k < remote.len() && spec_lts_matches(remote[k], Some(n)) && remote[k].version
                    == v) && forall|k: int|
                0 <= k < remote.len() && spec_lts_matches(remote[k], Some(n)) ==> remote[
                    k
                ].version.spec_le(v),
            Err(ResolutionError::NoMatchingVersion) => forall|k: int|
                0 <= k < remote.len() ==> !spec_lts_matches(remote[k], Some(n)),
            _ => false,
        },
        SpecifierView::LatestLts => match r {
            Ok(Resolution::Concrete(v)) => (exists|k: int|
                0 <= k < remote.len() && spec_lts_matches(remote[k], None) && remote[k].version
                    == v) && forall|k: int|
                0 <= k < remote.len() && spec_lts_matches(remote[k], None) ==> remote[
                    k
                ].version.spec_le(v),
            Err(ResolutionError::NoMatchingVersion) => forall|k: int|
                0 <= k < remote.len() ==> !spec_lts_matches(remote[k], None),
            _ => false,
        },
        SpecifierView::Latest => match r {
            Ok(Resolution::Concrete(v)) => cands.contains(v) && forall|u: Version|
                cands.contains(u) ==> u.spec_le(v),
            Err(ResolutionError::NoMatchingVersion) => cands.len() == 0,
            _ => false,
        },
        SpecifierView::Bypass => r == Ok::<Resolution, ResolutionError>(Resolution::PathBypass),
        SpecifierView::AliasName(n) => match aliases.spec_get(n) {
            Some(v) => r == Ok::<Resolution, ResolutionError>(Resolution::Concrete(v)),
            None => r == Err::<Resolution, ResolutionError>(ResolutionError::AliasNotFound),
        },
    }
}

/// Resolves one parsed specifier.
pub fn resolve_specifier(
    sp: &VersionSpecifier,
    aliases: &AliasStore,
    installed: &Vec<Version>,
    remote: &Vec<RemoteVersion>,
    for_install: bool,
) -> (r: Result<Resolution, ResolutionError>)
    ensures
        spec_resolution_ok(sp@, *aliases, installed@, remote@, for_install, r),
{
    let ghost gcands = spec_candidates(installed@, remote@, for_install);
    let cands: &Vec<Version>;
    let owned_cands: Vec<Version>;
    if for_install {
        owned_cands = catalog_versions(remote);
        cands = &owned_cands;
        proof {
            assert(cands@ =~= gcands);
        }
    } else {
        cands = installed;
    }
    match sp {
        VersionSpecifier::Exact(v) => {
            let mut has: bool = false;
            let n = cands.len();
            let mut i: usize = 0;
            while i < n
                invariant
                    i <= n,
                    n == cands@.len(),
                    has <==> exists|k: int| 0 <= k < i && cands@[k] == *v,
                decreases n - i,
            {
                if cands[i] == *v {
                    proof {
                        assert(cands@[i as int] == *v);
                    }
                    has = true;
                }
                i = i + 1;
            }
            if has {
                proof {
                    let k = choose|k: int| 0 <= k < n && cands@[k] == *v;
                    assert(cands@.contains(*v));
                }
                Ok(Resolution::Concrete(*v))
            } else {
                proof {
                    if cands@.contains(*v) {
                        let k = choose|k: int| 0 <= k < cands@.len() && cands@[k] == *v;
                    }
                }
                Err(ResolutionError::NoMatchingVersion)
            }
        },
        VersionSpecifier::PartialPrefix { major, minor } => match max_matching_prefix(
            cands,
            *major,
            *minor,
        ) {
            Some(v) => Ok(Resolution::Concrete(v)),
            None => Err(ResolutionError::NoMatchingVersion),
        },
        VersionSpecifier::LtsCodename(n) => match max_lts(remote, Some(n)) {
            Some(v) => Ok(Resolution::Concrete(v)),
            None => Err(ResolutionError::NoMatchingVersion),
        },
        VersionSpecifier::LatestLts => match max_lts(remote, None) {
            Some(v) => Ok(Resolution::Concrete(v)),
            None => Err(ResolutionError::NoMatchingVersion),
        },
        VersionSpecifier::Latest => match max_version(cands) {
            Some(v) => Ok(Resolution::Concrete(v)),
            None => Err(ResolutionError::NoMatchingVersion),
        },
        VersionSpecifier::Bypass => Ok(Resolution::PathBypass),
        VersionSpecifier::AliasName(n) => match aliases.get(n.as_str()) {
            Some(v) => Ok(Resolution::Concrete(v)),
            None => Err(ResolutionError::AliasNotFound),
        },
    }
}

/// Which source of truth decided, when no explicit specifier was
/// given.
#[derive(Clone, Copy, PartialEq, Eq, Structural, Debug)]
pub enum ContextChoice {
    /// The nearest ambient version file decided.
    FromFile(Resolution),
    /// The manifest's engine range decided.
    FromEngines(RangeResolution),
    /// The `default` alias decided.
    FromDefault(Version),
}

/// Resolves with no explicit specifier, in precedence order: the
/// ambient version-file text if any, else the manifest engine range
/// if enabled and present, else the `default` alias, else a
/// configuration error.
pub fn resolve_from_context(
    ambient_text: Option<&String>,
    engine_text: Option<&String>,
    resolve_engines: bool,
    aliases: &AliasStore,
    installed: &Vec<Version>,
    remote: &Vec<RemoteVersion>,
    for_install: bool,
) -> (r: Result<ContextChoice, ResolutionError>)
    ensures
        ambient_text matches Some(t) ==> (match spec_parse_specifier(t@) {
            None => r == Err::<ContextChoice, ResolutionError>(
                ResolutionError::SpecifierUnparseable,
            ),
            Some(sp) => match r {
                Ok(ContextChoice::FromFile(x)) => spec_resolution_ok(
                    sp,
                    *aliases,
                    installed@,
                    remote@,
                    for_install,
                    Ok(x),
                ),
                Err(e) => spec_resolution_ok(
                    sp,
                    *aliases,
                    installed@,
                    remote@,
                    for_install,
                    Err(e),
                ),
                _ => false,
            },
        }),
        ambient_text is None && resolve_engines && engine_text is Some ==> (match
            spec_parse_range(engine_text->0@) {
            None => r == Err::<ContextChoice, ResolutionError>(
                ResolutionError::SpecifierUnparseable,
            ),
            Some(alts) => match r {
                Ok(ContextChoice::FromEngines(rr)) => spec_range_resolution_ok(
                    alts,
                    installed@,
                    remote@,
                    rr,
                ),
                _ => false,
            },
        }),
        ambient_text is None && !(resolve_engines && engine_text is Some) ==> (match
            aliases.spec_get("default"@) {
            Some(v) => r == Ok::<ContextChoice, ResolutionError>(ContextChoice::FromDefault(v)),
            None => r == Err::<ContextChoice, ResolutionError>(
                ResolutionError::NoVersionConfigured,
            ),
        }),
{
    match ambient_text {
        Some(t) => match parse_specifier(t.as_str()) {
            None => Err(ResolutionError::SpecifierUnparseable),
            Some(sp) => match resolve_specifier(&sp, aliases, installed, remote, for_install) {
                Ok(x) => Ok(ContextChoice::FromFile(x)),
                Err(e) => Err(e),
            },
        },
        None => {
            if resolve_engines && engine_text.is_some() {
                let t = match engine_text {
                    Some(t) => t,
                    None => {
                        proof {
                            assert(false);
                        }
                        return Err(ResolutionError::SpecifierUnparseable);
                    },
                };
                match parse_range(t.as_str()) {
                    None => Err(ResolutionError::SpecifierUnparseable),
                    Some(range) => Ok(
                        ContextChoice::FromEngines(
                            resolve_engine_range(&range, installed, remote),
                        ),
                    ),
                }
            } else {
                match aliases.get("default") {
                    Some(v) => Ok(ContextChoice::FromDefault(v)),
                    None => Err(ResolutionError::NoVersionConfigured),
                }
            }
        },
    }
}

} // verus!
