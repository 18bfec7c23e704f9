//! Per-shell current-version links. Each shell session owns one
//! symlink at a path supplied by the environment; repointing it is a
//! temp-write-plus-rename done outside this crate. Here the whole
//! collection of session links is a name table keyed by the session
//! path, and isolation between sessions is proved, not assumed.
use vstd::prelude::*;
use crate::version::Version;
use crate::namemap::NameMap;

verus! {

/// All session links, keyed by session path.
pub struct ShellLinks {
    map: NameMap,
}

impl ShellLinks {
    pub closed spec fn wf(self) -> bool {
        self.map.wf()
    }

    /// The version a session path currently points at.
    pub closed spec fn spec_current(self, p: Seq<char>) -> Option<Version> {
        self.map.spec_get(p)
    }

    /// No session links yet.
    pub fn new() -> (r: ShellLinks)
        ensures
            r.wf(),
            forall|p: Seq<char>| r.spec_current(p) is None,
    {
        ShellLinks { map: NameMap::new() }
    }

    /// Repoints one session link; every other session's link is
    /// untouched.
    pub fn point(&mut self, session_path: &str, v: Version)
        requires
            old(self).wf(),
        ensures
            final(self).wf(),
            forall|p: Seq<char>|
                final(self).spec_current(p) == (if p == session_path@ {
                    Some(v)
                } else {
                    old(self).spec_current(p)
                }),
    {
        self.map.set(session_path, v);
    }

    /// Dereferences one session link.
    pub fn current(&self, session_path: &str) -> (r: Option<Version>)
        ensures
            r == self.spec_current(session_path@),
    {
        self.map.get(session_path)
    }
}

/// Law: two distinct session paths pointed at different versions
/// each read back their own version; repointing either one never
/// changes what the other dereferences to.
pub proof fn lemma_shell_isolation(
    s0: ShellLinks,
    s1: ShellLinks,
    s2: ShellLinks,
    p1: Seq<char>,
    p2: Seq<char>,
    v1: Version,
    v2: Version,
)
    requires
        p1 != p2,
        forall|p: Seq<char>|
            s1.spec_current(p) == (if p == p1 {
                Some(v1)
            } else {
                s0.spec_current(p)
            }),
        forall|p: Seq<char>|
            s2.spec_current(p) == (if p == p2 {
                Some(v2)
            } else {
                s1.spec_current(p)
            }),
    ensures
        s2.spec_current(p1) == Some(v1),
        s2.spec_current(p2) == Some(v2),
        forall|p: Seq<char>| p != p1 && p != p2 ==> s2.spec_current(p) == s0.spec_current(p),
{
}

} // verus!
