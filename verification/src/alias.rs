//! User-named pointers at versions, `default` among them. On disk
//! each alias is one symlink under the aliases directory, written by
//! temp-name-plus-rename; here the store is modeled as a name table,
//! and every operation states the new lookup function exactly.
//! Targets are always concrete versions, so a lookup never chains.
use vstd::prelude::*;
use crate::version::Version;
use crate::namemap::{NameMap, NameEntry};

verus! {

/// The alias store: a flattened name-to-version table.
pub struct AliasStore {
    map: NameMap,
}

impl AliasStore {
    pub closed spec fn wf(self) -> bool {
        self.map.wf()
    }

    /// The binding of a name, or absence.
    pub closed spec fn spec_get(self, n: Seq<char>) -> Option<Version> {
        self.map.spec_get(n)
    }

    /// The bindings, in store order.
    pub closed spec fn spec_entries(self) -> Seq<NameEntry> {
        self.map.spec_entries()
    }

    /// An empty store.
    pub fn new() -> (r: AliasStore)
        ensures
            r.wf(),
            forall|n: Seq<char>| r.spec_get(n) is None,
    {
        AliasStore { map: NameMap::new() }
    }

    /// Binds `name` to `target`, overwriting any previous binding;
    /// all other names keep their bindings.
    pub fn set(&mut self, name: &str, target: Version)
        requires
            old(self).wf(),
        ensures
            final(self).wf(),
            forall|n: Seq<char>|
                final(self).spec_get(n) == (if n == name@ {
                    Some(target)
                } else {
                    old(self).spec_get(n)
                }),
    {
        self.map.set(name, target);
    }

    /// Reads a binding.
    pub fn get(&self, name: &str) -> (r: Option<Version>)
        ensures
            r == self.spec_get(name@),
    {
        self.map.get(name)
    }

    /// Unbinds a name; all other names keep their bindings.
    pub fn remove(&mut self, name: &str) -> (r: Option<Version>)
        requires
            old(self).wf(),
        ensures
            final(self).wf(),
            r == old(self).spec_get(name@),
            forall|n: Seq<char>|
                final(self).spec_get(n) == (if n == name@ {
                    None::<Version>
                } else {
                    old(self).spec_get(n)
                }),
    {
        self.map.remove(name)
    }

    /// Unbinds every name bound to `v`: the uninstall sweep.
    pub fn sweep_target(&mut self, v: &Version)
        requires
            old(self).wf(),
        ensures
            final(self).wf(),
            forall|n: Seq<char>|
                final(self).spec_get(n) == (if old(self).spec_get(n) == Some(*v) {
                    None::<Version>
                } else {
                    old(self).spec_get(n)
                }),
    {
        self.map.sweep_target(v);
    }

    /// The bindings in store order; app-facing.
    pub fn list(&self) -> (r: &Vec<NameEntry>)
        ensures
            r@ == self.spec_entries(),
    {
        self.map.list()
    }
}

/// Law: setting an alias and reading it back yields exactly the
/// version set; removing it afterwards reads as absent; every other
/// name keeps the binding it had before both steps.
pub proof fn lemma_alias_round_trip(
    a0: AliasStore,
    a1: AliasStore,
    a2: AliasStore,
    name: Seq<char>,
    v: Version,
)
    requires
        forall|n: Seq<char>|
            a1.spec_get(n) == (if n == name {
                Some(v)
            } else {
                a0.spec_get(n)
            }),
        forall|n: Seq<char>|
            a2.spec_get(n) == (if n == name {
                None::<Version>
            } else {
                a1.spec_get(n)
            }),
    ensures
        a1.spec_get(name) == Some(v),
        a2.spec_get(name) is None,
        forall|n: Seq<char>| n != name ==> a2.spec_get(n) == a0.spec_get(n),
{
}

} // verus!
