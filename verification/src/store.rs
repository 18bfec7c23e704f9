//! The local store: the set of fully-published installations, plus
//! the one staging slot an install-in-progress occupies. On disk a
//! version is installed exactly when its directory was renamed into
//! place; staging lives elsewhere and is invisible to readers, which
//! is what the contracts here say: only `publish` changes the
//! installed set, and an abandoned staging leaves it untouched.
use vstd::prelude::*;
use crate::version::Version;
use crate::alias::AliasStore;

verus! {

/// Installed versions plus the staging slot.
pub struct LocalStore {
    installed: Vec<Version>,
    staged: Option<Version>,
}

impl LocalStore {
    /// Well-formed: no version is recorded twice.
    pub closed spec fn wf(self) -> bool {
        forall|i: int, j: int|
            0 <= i < j < self.installed@.len() ==> self.installed@[i] != self.installed@[j]
    }

    /// The published versions.
    pub closed spec fn spec_installed(self) -> Seq<Version> {
        self.installed@
    }

    /// Whether `v` is published.
    pub open spec fn spec_is_installed(self, v: Version) -> bool {
        self.spec_installed().contains(v)
    }

    /// What sits in the staging slot.
    pub closed spec fn spec_staged(self) -> Option<Version> {
        self.staged
    }

    /// An empty store.
    pub fn new() -> (r: LocalStore)
        ensures
            r.wf(),
            r.spec_installed().len() == 0,
            r.spec_staged() is None,
    {
        LocalStore { installed: Vec::new(), staged: None }
    }

    /// A store enumerated from disk; the caller hands the published
    /// directories it found, first occurrence of each kept.
    pub fn from_installed(versions: Vec<Version>) -> (r: LocalStore)
        requires
            forall|i: int, j: int| 0 <= i < j < versions@.len() ==> versions@[i] != versions@[j],
        ensures
            r.wf(),
            r.spec_installed() == versions@,
            r.spec_staged() is None,
    {
        LocalStore { installed: versions, staged: None }
    }

    /// Whether `v` is published.
    pub fn is_installed(&self, v: &Version) -> (r: bool)
        ensures
            r == self.spec_is_installed(*v),
    {
        let n = self.installed.len();
        let mut i: usize = 0;
        while i < n
            invariant
                i <= n,
                n == self.installed@.len(),
                forall|k: int| 0 <= k < i ==> self.installed@[k] != *v,
            decreases n - i,
        {
            if self.installed[i] == *v {
                assert(self.installed@.contains(*v));
                return true;
            }
            i = i + 1;
        }
        proof {
            if self.installed@.contains(*v) {
                let k = choose|k: int| 0 <= k < n && self.installed@[k] == *v;
            }
        }
        false
    }

    /// The published versions, in store order; app-facing.
    pub fn list(&self) -> (r: &Vec<Version>)
        ensures
            r@ == self.spec_installed(),
    {
        &self.installed
    }

    /// Fills the staging slot: the download and extraction landed in
    /// a temporary place. The installed set is untouched.
    pub fn stage(&mut self, v: &Version)
        requires
            old(self).wf(),
        ensures
            final(self).wf(),
            final(self).spec_installed() == old(self).spec_installed(),
            final(self).spec_staged() == Some(*v),
    {
        self.staged = Some(*v);
    }

    /// Drops whatever staging holds: the cleanup that runs on any
    /// early exit. The installed set is untouched.
    pub fn abandon_staging(&mut self)
        requires
            old(self).wf(),
        ensures
            final(self).wf(),
            final(self).spec_installed() == old(self).spec_installed(),
            final(self).spec_staged() is None,
    {
        self.staged = None;
    }

    /// The atomic publish: the staged version's directory is renamed
    /// into its final place. When the target already exists — a
    /// concurrent install of the same version won the race — the
    /// existing installation is authoritative and the staged copy is
    /// discarded.
    pub fn publish(&mut self) -> (r: Version)
        requires
            old(self).wf(),
            old(self).spec_staged() is Some,
        ensures
            final(self).wf(),
            r == old(self).spec_staged()->0,
            final(self).spec_staged() is None,
            forall|u: Version|
                final(self).spec_is_installed(u) == (old(self).spec_is_installed(u) || u == r),
    {
        let v = match self.staged {
            Some(v) => v,
            None => {
                proof {
                    assert(false);
                }
                Version { major: 0, minor: 0, patch: 0 }
            },
        };
        self.staged = None;
        if !self.is_installed(&v) {
            let ghost pre = self.installed@;
            self.installed.push(v);
            proof {
                assert(forall|k: int| 0 <= k < pre.len() ==> pre[k] != v);
                assert forall|i: int, j: int|
                    0 <= i < j < self.installed@.len() implies self.installed@[i]
                    != self.installed@[j] by {
                    if j == self.installed@.len() - 1 {
                        assert(self.installed@[i] == pre[i]);
                    }
                }
                assert forall|u: Version|
                    self.spec_is_installed(u) == (pre.contains(u) || u == v) by {
                    if self.installed@.contains(u) {
                        let k = choose|k: int|
                            0 <= k < self.installed@.len() && self.installed@[k] == u;
                        if k < pre.len() {
                            assert(pre[k] == u);
                        }
                    }
                    if pre.contains(u) {
                        let k = choose|k: int| 0 <= k < pre.len() && pre[k] == u;
                        assert(self.installed@[k] == u);
                    }
                    if u == v {
                        assert(self.installed@[self.installed@.len() - 1] == v);
                    }
                }
            }
        }
        v
    }

    /// Removes a published version and sweeps every alias bound to
    /// it, `default` included: one uninstall transaction, so no
    /// dangling alias survives it.
    pub fn uninstall(&mut self, v: &Version, aliases: &mut AliasStore)
        requires
            old(self).wf(),
            old(aliases).wf(),
        ensures
            final(self).wf(),
            final(aliases).wf(),
            !final(self).spec_is_installed(*v),
            forall|u: Version|
                final(self).spec_is_installed(u) == (old(self).spec_is_installed(u) && u != *v),
            final(self).spec_staged() == old(self).spec_staged(),
            forall|n: Seq<char>|
                final(aliases).spec_get(n) == (if old(aliases).spec_get(n) == Some(*v) {
                    None::<Version>
                } else {
                    old(aliases).spec_get(n)
                }),
    {
        let n = self.installed.len();
        let mut i: usize = 0;
        let mut found: bool = false;
        loop
            invariant_except_break
                !found,
            invariant
                i <= n,
                n == self.installed@.len(),
                forall|k: int| 0 <= k < i ==> self.installed@[k] != *v,
            ensures
                found ==> i < n && self.installed@[i as int] == *v,
                !found ==> forall|k: int| 0 <= k < n ==> self.installed@[k] != *v,
            decreases n - i,
        {
            if i >= n {
                break;
            }
            if self.installed[i] == *v {
                found = true;
                break;
            }
            i = i + 1;
        }
        if found {
            let ghost pre = self.installed@;
            self.installed.remove(i);
            proof {
                let post = self.installed@;
                assert(forall|k: int| 0 <= k < i ==> post[k] == pre[k]);
                assert(forall|k: int| i <= k < post.len() ==> post[k] == pre[k + 1]);
                assert(spec_wf_versions(post)) by {
                    assert forall|a: int, b: int|
                        0 <= a < b < post.len() implies post[a] != post[b] by {}
                }
                assert forall|u: Version|
                    post.contains(u) == (pre.contains(u) && u != *v) by {
                    if post.contains(u) {
                        let k = choose|k: int| 0 <= k < post.len() && post[k] == u;
                        if k < i {
                            assert(pre[k] == u);
                            assert(u != *v);
                        } else {
                            assert(pre[k + 1] == u);
                            assert(u != *v);
                        }
                    }
                    if pre.contains(u) && u != *v {
                        let k = choose|k: int| 0 <= k < pre.len() && pre[k] == u;
                        if k < i {
                            assert(post[k] == u);
                        } else {
                            assert(k != i);
                            assert(post[k - 1] == u);
                        }
                    }
                }
            }
        } else {
            proof {
                if self.installed@.contains(*v) {
                    let k = choose|k: int|
                        0 <= k < self.installed@.len() && self.installed@[k] == *v;
                }
            }
        }
        aliases.sweep_target(v);
    }
}

/// No version recorded twice.
pub open spec fn spec_wf_versions(s: Seq<Version>) -> bool {
    forall|i: int, j: int| 0 <= i < j < s.len() ==> s[i] != s[j]
}

/// Law: a staging area written and never published — the shape an
/// interrupted install leaves behind — changes nothing a reader of
/// the installed set can see: every version reads as installed
/// exactly as before.
pub proof fn lemma_staging_invisible(s0: LocalStore, s1: LocalStore, u: Version)
    requires
        s1.spec_installed() == s0.spec_installed(),
    ensures
        s1.spec_is_installed(u) == s0.spec_is_installed(u),
{
}

/// Law: after an uninstall of `v`, any alias that pointed at `v` —
/// including `default` — reads as absent, and `v` reads as not
/// installed; aliases at other versions survive.
pub proof fn lemma_uninstall_cascade(
    s0: LocalStore,
    s1: LocalStore,
    a0: AliasStore,
    a1: AliasStore,
    v: Version,
    n1: Seq<char>,
    n2: Seq<char>,
)
    requires
        a0.spec_get(n1) == Some(v),
        a0.spec_get(n2) == Some(v),
        forall|n: Seq<char>|
            a1.spec_get(n) == (if a0.spec_get(n) == Some(v) {
                None::<Version>
            } else {
                a0.spec_get(n)
            }),
        forall|u: Version| s1.spec_is_installed(u) == (s0.spec_is_installed(u) && u != v),
    ensures
        a1.spec_get(n1) is None,
        a1.spec_get(n2) is None,
        !s1.spec_is_installed(v),
        forall|n: Seq<char>|
            a0.spec_get(n) is Some && a0.spec_get(n) != Some(v) ==> a1.spec_get(n) == a0.spec_get(
                n,
            ),
{
}

} // verus!
