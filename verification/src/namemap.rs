//! A small name-to-version table with first-match lookup and unique
//! names: the shared model behind the alias store and the per-shell
//! links. On disk each entry is one symlink; here it is plain data,
//! and every operation says exactly how the lookup function changes.
use vstd::prelude::*;
use vstd::string::*;
use crate::version::Version;
use crate::strutil::eq_chars;

verus! {

/// One named pointer at a version.
#[derive(Clone, Debug)]
pub struct NameEntry {
    pub name: String,
    pub target: Version,
}

/// First-match lookup by name.
pub open spec fn spec_lookup(s: Seq<NameEntry>, n: Seq<char>) -> Option<Version>
    decreases s.len(),
{
    if s.len() == 0 {
        None
    } else if s[0].name@ == n {
        Some(s[0].target)
    } else {
        spec_lookup(s.subrange(1, s.len() as int), n)
    }
}

/// No two entries share a name.
pub open spec fn spec_names_unique(s: Seq<NameEntry>) -> bool {
    forall|i: int, j: int| 0 <= i < j < s.len() ==> s[i].name@ != s[j].name@
}

proof fn lemma_lookup_found(s: Seq<NameEntry>, i: int, n: Seq<char>)
    requires
        0 <= i < s.len(),
        forall|k: int| 0 <= k < i ==> s[k].name@ != n,
        s[i].name@ == n,
    ensures
        spec_lookup(s, n) == Some(s[i].target),
    decreases i,
{
    if i > 0 {
        let t = s.subrange(1, s.len() as int);
        assert(t[i - 1] == s[i]);
        assert(forall|k: int| 0 <= k < i - 1 ==> t[k] == s[k + 1]);
        lemma_lookup_found(t, i - 1, n);
    }
}

proof fn lemma_lookup_absent(s: Seq<NameEntry>, n: Seq<char>)
    requires
        forall|k: int| 0 <= k < s.len() ==> s[k].name@ != n,
    ensures
        spec_lookup(s, n) is None,
    decreases s.len(),
{
    if s.len() > 0 {
        let t = s.subrange(1, s.len() as int);
        assert(forall|k: int| 0 <= k < t.len() ==> t[k] == s[k + 1]);
        lemma_lookup_absent(t, n);
    }
}

proof fn lemma_lookup_push(s: Seq<NameEntry>, e: NameEntry, n: Seq<char>)
    ensures
        s.push(e).len() == s.len() + 1,
        spec_lookup(s.push(e), n) == (if spec_lookup(s, n) is Some {
            spec_lookup(s, n)
        } else if n == e.name@ {
            Some(e.target)
        } else {
            None
        }),
    decreases s.len(),
{
    let p = s.push(e);
    assert(spec_lookup(p, n) == (if p[0].name@ == n {
        Some(p[0].target)
    } else {
        spec_lookup(p.subrange(1, p.len() as int), n)
    }));
    if s.len() == 0 {
        assert(p[0] == e);
        assert(p.subrange(1, p.len() as int) =~= Seq::<NameEntry>::empty());
        assert(spec_lookup(Seq::<NameEntry>::empty(), n) is None);
    } else {
        assert(p[0] == s[0]);
        assert(p.subrange(1, p.len() as int) =~= s.subrange(1, s.len() as int).push(e));
        lemma_lookup_push(s.subrange(1, s.len() as int), e, n);
    }
}

proof fn lemma_none_implies_absent(s: Seq<NameEntry>, n: Seq<char>)
    requires
        spec_lookup(s, n) is None,
    ensures
        forall|k: int| 0 <= k < s.len() ==> s[k].name@ != n,
    decreases s.len(),
{
    if s.len() > 0 {
        let t = s.subrange(1, s.len() as int);
        lemma_none_implies_absent(t, n);
        assert(forall|k: int| 1 <= k < s.len() ==> s[k] == t[k - 1]);
    }
}

proof fn lemma_lookup_in(s: Seq<NameEntry>, n: Seq<char>)
    requires
        spec_lookup(s, n) is Some,
    ensures
        exists|k: int|
            0 <= k < s.len() && s[k].name@ == n && s[k].target == spec_lookup(s, n)->0,
    decreases s.len(),
{
    if s[0].name@ == n {
        assert(s[0].name@ == n && s[0].target == spec_lookup(s, n)->0);
    } else {
        let t = s.subrange(1, s.len() as int);
        lemma_lookup_in(t, n);
        let k = choose|k: int| 0 <= k < t.len() && t[k].name@ == n && t[k].target == spec_lookup(
            t,
            n,
        )->0;
        assert(s[k + 1] == t[k]);
    }
}

proof fn lemma_lookup_remove(s: Seq<NameEntry>, i: int, n: Seq<char>)
    requires
        0 <= i < s.len(),
        forall|k: int| 0 <= k < s.len() && k != i ==> s[k].name@ != s[i].name@,
    ensures
        spec_lookup(s.remove(i), n) == (if n == s[i].name@ {
            None
        } else {
            spec_lookup(s, n)
        }),
    decreases i,
{
    let r = s.remove(i);
    assert(r.len() == s.len() - 1);
    assert(forall|k: int| 0 <= k < i ==> r[k] == s[k]);
    assert(forall|k: int| i <= k < r.len() ==> r[k] == s[k + 1]);
    if i == 0 {
        assert(r =~= s.subrange(1, s.len() as int));
        if n == s[0].name@ {
            assert(forall|k: int| 0 <= k < r.len() ==> r[k].name@ != n);
            lemma_lookup_absent(r, n);
        }
    } else {
        assert(r[0] == s[0]);
        assert(r.subrange(1, r.len() as int) =~= s.subrange(1, s.len() as int).remove(i - 1));
        let t = s.subrange(1, s.len() as int);
        assert(forall|k: int|
            0 <= k < t.len() && k != i - 1 ==> #[trigger] t[k].name@ != t[i - 1].name@);
        lemma_lookup_remove(t, i - 1, n);
    }
}

/// The name table. Every mutator keeps the names unique and states
/// the new lookup function entry-wise.
pub struct NameMap {
    entries: Vec<NameEntry>,
}

impl NameMap {
    /// Well-formed: no two entries share a name.
    pub closed spec fn wf(self) -> bool {
        spec_names_unique(self.entries@)
    }

    /// The lookup function this table denotes.
    pub closed spec fn spec_get(self, n: Seq<char>) -> Option<Version> {
        spec_lookup(self.entries@, n)
    }

    /// The entries, in order.
    pub closed spec fn spec_entries(self) -> Seq<NameEntry> {
        self.entries@
    }

    /// An empty table.
    pub fn new() -> (r: NameMap)
        ensures
            r.wf(),
            forall|n: Seq<char>| r.spec_get(n) is None,
            r.spec_entries().len() == 0,
    {
        let m = NameMap { entries: Vec::new() };
        proof {
            assert forall|n: Seq<char>| m.spec_get(n) is None by {
                lemma_lookup_absent(m.entries@, n);
            }
        }
        m
    }

    fn find_index(&self, name: &str) -> (r: Option<usize>)
        ensures
            match r {
                Some(i) => i < self.entries@.len() && self.entries@[i as int].name@ == name@
                    && forall|k: int| 0 <= k < i ==> self.entries@[k].name@ != name@,
                None => forall|k: int|
                    0 <= k < self.entries@.len() ==> self.entries@[k].name@ != name@,
            },
    {
        let n = self.entries.len();
        let mut i: usize = 0;
        while i < n
            invariant
                i <= n,
                n == self.entries@.len(),
                forall|k: int| 0 <= k < i ==> self.entries@[k].name@ != name@,
            decreases n - i,
        {
            if eq_chars(self.entries[i].name.as_str(), name) {
                return Some(i);
            }
            i = i + 1;
        }
        None
    }

    /// Looks a name up.
    pub fn get(&self, name: &str) -> (r: Option<Version>)
        ensures
            r == self.spec_get(name@),
    {
        match self.find_index(name) {
            Some(i) => {
                proof {
                    lemma_lookup_found(self.entries@, i as int, name@);
                }
                Some(self.entries[i].target)
            },
            None => {
                proof {
                    lemma_lookup_absent(self.entries@, name@);
                }
                None
            },
        }
    }

    /// Removes a name; the rest of the table is untouched.
    pub fn remove(&mut self, name: &str) -> (r: Option<Version>)
        requires
            old(self).wf(),
        ensures
            final(self).wf(),
            r == old(self).spec_get(name@),
            forall|n: Seq<char>|
                final(self).spec_get(n) == (if n == name@ {
                    None::<Version>
                } else {
                    old(self).spec_get(n)
                }),
    {
        match self.find_index(name) {
            Some(i) => {
                proof {
                    lemma_lookup_found(self.entries@, i as int, name@);
                    assert forall|n: Seq<char>|
                        spec_lookup(self.entries@.remove(i as int), n) == (if n == name@ {
                            None::<Version>
                        } else {
                            spec_lookup(self.entries@, n)
                        }) by {
                        lemma_lookup_remove(self.entries@, i as int, n);
                    }
                }
                let ghost pre = self.entries@;
                let e = self.entries.remove(i);
                proof {
                    let post = self.entries@;
                    assert(forall|k: int| 0 <= k < i ==> post[k] == pre[k]);
                    assert(forall|k: int| i <= k < post.len() ==> post[k] == pre[k + 1]);
                    assert(spec_names_unique(post));
                }
                Some(e.target)
            },
            None => {
                proof {
                    lemma_lookup_absent(self.entries@, name@);
                }
                None
            },
        }
    }

    /// Binds a name to a target, overwriting any previous binding.
    pub fn set(&mut self, name: &str, target: Version)
        requires
            old(self).wf(),
        ensures
            final(self).wf(),
            forall|n: Seq<char>|
                final(self).spec_get(n) == (if n == name@ {
                    Some(target)
                } else {
                    old(self).spec_get(n)
                }),
    {
        self.remove(name);
        let ghost mid = *self;
        proof {
            assert(mid.spec_get(name@) is None);
            lemma_none_implies_absent(self.entries@, name@);
        }
        let ghost pre = self.entries@;
        let entry = NameEntry { name: name.to_owned(), target };
        let ghost ge = entry;
        self.entries.push(entry);
        proof {
            assert forall|n: Seq<char>|
                self.spec_get(n) == (if n == name@ {
                    Some(target)
                } else {
                    old(self).spec_get(n)
                }) by {
                lemma_lookup_push(pre, ge, n);
                assert(mid.spec_get(n) == (if n == name@ {
                    None::<Version>
                } else {
                    old(self).spec_get(n)
                }));
                assert(mid.spec_get(n) == spec_lookup(pre, n));
            }
            assert forall|i: int, j: int|
                0 <= i < j < self.entries@.len() implies self.entries@[i].name@
                != self.entries@[j].name@ by {
                if j == self.entries@.len() - 1 {
                    assert(self.entries@[i] == pre[i]);
                }
            }
        }
    }

    /// Removes every entry whose target is `v`; bindings at other
    /// versions are untouched.
    pub fn sweep_target(&mut self, v: &Version)
        requires
            old(self).wf(),
        ensures
            final(self).wf(),
            forall|n: Seq<char>|
                final(self).spec_get(n) == (if old(self).spec_get(n) == Some(*v) {
                    None::<Version>
                } else {
                    old(self).spec_get(n)
                }),
    {
        let mut i: usize = self.entries.len();
        while i > 0
            invariant
                i <= self.entries@.len(),
                spec_names_unique(self.entries@),
                forall|k: int| i <= k < self.entries@.len() ==> self.entries@[k].target != *v,
                forall|n: Seq<char>|
                    spec_lookup(self.entries@, n) == old(self).spec_get(n) || (old(self).spec_get(
                        n,
                    ) == Some(*v) && spec_lookup(self.entries@, n) is None),
            decreases i,
        {
            i = i - 1;
            if self.entries[i].target == *v {
                let ghost pre = self.entries@;
                let ghost nm = self.entries@[i as int].name@;
                proof {
                    assert forall|n: Seq<char>|
                        spec_lookup(pre.remove(i as int), n) == (if n == nm {
                            None::<Version>
                        } else {
                            spec_lookup(pre, n)
                        }) by {
                        lemma_lookup_remove(pre, i as int, n);
                    }
                    lemma_lookup_found(pre, i as int, nm);
                    assert(spec_lookup(pre, nm) == Some(pre[i as int].target));
                }
                self.entries.remove(i);
                proof {
                    let post = self.entries@;
                    assert(forall|k: int| 0 <= k < i ==> post[k] == pre[k]);
                    assert(forall|k: int| i <= k < post.len() ==> post[k] == pre[k + 1]);
                    assert(spec_names_unique(post));
                }
            }
        }
        proof {
            assert forall|n: Seq<char>|
                self.spec_get(n) == (if old(self).spec_get(n) == Some(*v) {
                    None::<Version>
                } else {
                    old(self).spec_get(n)
                }) by {
                if spec_lookup(self.entries@, n) is Some {
                    lemma_lookup_in(self.entries@, n);
                }
            }
        }
    }

    /// The bindings, in table order; app-facing.
    pub fn list(&self) -> (r: &Vec<NameEntry>)
        ensures
            r@ == self.spec_entries(),
    {
        &self.entries
    }
}

} // verus!
