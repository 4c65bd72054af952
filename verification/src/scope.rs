//! The classifier's fact store: for each module specifier seen so far, the
//! interop support that its importers need.

use vstd::prelude::*;
use crate::node::Text;

verus! {

/// What a consumer of a module needs at run time where modules are not
/// native: the module's default export only, or the module as a whole
/// namespace object.
#[derive(Clone, Copy, Debug, PartialEq, Eq, Structural)]
pub enum InteropKind {
    Default,
    Wildcard,
}

/// The store after a use of `specifier` that needs only the default
/// export: a new entry where there was none, no change where there was one.
pub open spec fn with_default(m: Map<Text, InteropKind>, specifier: Text) -> Map<
    Text,
    InteropKind,
> {
    if m.contains_key(specifier) {
        m
    } else {
        m.insert(specifier, InteropKind::Default)
    }
}

/// The store after a use of `specifier` that needs the whole namespace.
pub open spec fn with_wildcard(m: Map<Text, InteropKind>, specifier: Text) -> Map<
    Text,
    InteropKind,
> {
    m.insert(specifier, InteropKind::Wildcard)
}


/// `entries` names each specifier of `m` once, with the kind that `m` gives it.
pub open spec fn lists(entries: Seq<(String, InteropKind)>, m: Map<Text, InteropKind>) -> bool {
    &&& forall|i: int, j: int| 0 <= i < j < entries.len() ==> entries[i].0@ != entries[j].0@
    &&& forall|i: int|
        0 <= i < entries.len() ==> m.contains_key(#[trigger] entries[i].0@) && m[entries[i].0@]
            == entries[i].1
    &&& forall|s: Text|
        m.contains_key(s) ==> exists|i: int| 0 <= i < entries.len() && #[trigger] entries[i].0@ == s
}

/// A finite map from specifier to kind.
pub struct Scope {
    keys: Vec<String>,
    kinds: Vec<InteropKind>,
}

impl View for Scope {
    type V = Map<Text, InteropKind>;

    closed spec fn view(&self) -> Map<Text, InteropKind> {
        Map::new(
            |s: Text| exists|i: int| 0 <= i < self.keys.len() && self.keys[i]@ == s,
            |s: Text| self.kinds[choose|i: int| 0 <= i < self.keys.len() && self.keys[i]@ == s],
        )
    }
}

impl Scope {
    /// Each specifier has one entry.
    pub closed spec fn wf(&self) -> bool {
        &&& self.keys.len() == self.kinds.len()
        &&& forall|i: int, j: int|
            0 <= i < j < self.keys.len() ==> self.keys[i]@ != self.keys[j]@
    }

    proof fn lemma_entry(&self, i: int)
        requires
            self.wf(),
            0 <= i < self.keys.len(),
        ensures
            self@.contains_key(self.keys[i]@),
            self@[self.keys[i]@] == self.kinds[i],
    {
        let s = self.keys[i]@;
        let j = choose|j: int| 0 <= j < self.keys.len() && self.keys[j]@ == s;
        assert(i == j);
    }

    spec fn domain_upto(&self, n: int) -> Set<Text> {
        Set::new(|s: Text| exists|i: int| 0 <= i < n && self.keys[i]@ == s)
    }

    proof fn lemma_domain(&self, n: int)
        requires
            self.wf(),
            0 <= n <= self.keys.len(),
        ensures
            self.domain_upto(n).finite(),
            self.domain_upto(n).len() == n,
        decreases n,
    {
        if n == 0 {
            assert(self.domain_upto(0) =~= Set::<Text>::empty());
        } else {
            self.lemma_domain(n - 1);
            let last = self.keys[n - 1]@;
            assert(!self.domain_upto(n - 1).contains(last));
            assert(self.domain_upto(n) =~= self.domain_upto(n - 1).insert(last));
        }
    }

    pub fn new() -> (r: Scope)
        ensures
            r.wf(),
            r@ == Map::<Text, InteropKind>::empty(),
    {
        let r = Scope { keys: Vec::new(), kinds: Vec::new() };
        assert(r@ =~= Map::<Text, InteropKind>::empty());
        r
    }

    fn position(&self, specifier: &String) -> (r: Option<usize>)
        requires
            self.wf(),
        ensures
            match r {
                Some(i) => i < self.keys.len() && self.keys[i as int]@ == specifier@,
                None => !self@.contains_key(specifier@),
            },
    {
        let mut i: usize = 0;
        while i < self.keys.len()
            invariant
                i <= self.keys.len(),
                forall|j: int| 0 <= j < i ==> self.keys[j]@ != specifier@,
            decreases self.keys.len() - i,
        {
            if self.keys[i] == *specifier {
                return Some(i);
            }
            i += 1;
        }
        None
    }

    /// The kind recorded for `specifier`, if any.
    pub fn get(&self, specifier: &String) -> (r: Option<InteropKind>)
        requires
            self.wf(),
        ensures
            match r {
                Some(k) => self@.contains_key(specifier@) && self@[specifier@] == k,
                None => !self@.contains_key(specifier@),
            },
    {
        match self.position(specifier) {
            Some(i) => {
                proof {
                    self.lemma_entry(i as int);
                }
                Some(self.kinds[i])
            },
            None => None,
        }
    }

    /// Records a use that needs only the default export.
    pub fn mark_default(&mut self, specifier: &String)
        requires
            old(self).wf(),
        ensures
            final(self).wf(),
            final(self)@ == with_default(old(self)@, specifier@),
    {
        let found = self.position(specifier);
        if found.is_none() {
            let ghost before = *self;
            self.keys.push(specifier.clone());
            self.kinds.push(InteropKind::Default);
            proof {
                let after = *self;
                assert(after.wf());
                assert forall|s: Text| after@.contains_key(s) <==> (before@.contains_key(s) || s
                    == specifier@) by {
                    if before@.contains_key(s) {
                        let i = choose|i: int| 0 <= i < before.keys.len() && before.keys[i]@ == s;
                        assert(after.keys[i]@ == s);
                    }
                    if s == specifier@ {
                        assert(after.keys[before.keys.len() as int]@ == s);
                    }
                }
                assert forall|s: Text| after@.contains_key(s) implies after@[s] == with_default(
                    before@,
                    specifier@,
                )[s] by {
                    let i = choose|i: int| 0 <= i < after.keys.len() && after.keys[i]@ == s;
                    after.lemma_entry(i);
                    if i < before.keys.len() {
                        before.lemma_entry(i);
                    }
                }
                assert(after@ =~= with_default(before@, specifier@));
            }
        }
    }

    /// Records a use that needs the whole namespace.
    pub fn mark_wildcard(&mut self, specifier: &String)
        requires
            old(self).wf(),
        ensures
            final(self).wf(),
            final(self)@ == with_wildcard(old(self)@, specifier@),
    {
        let ghost before = *self;
        match self.position(specifier) {
            Some(i) => {
                self.kinds.set(i, InteropKind::Wildcard);
                proof {
                    let after = *self;
                    assert(after.wf());
                    assert forall|s: Text| after@.contains_key(s) <==> (before@.contains_key(s)
                        || s == specifier@) by {
                        if before@.contains_key(s) {
                            let j = choose|j: int|
                                0 <= j < before.keys.len() && before.keys[j]@ == s;
                            assert(after.keys[j]@ == s);
                        }
                        if s == specifier@ {
                            assert(after.keys[i as int]@ == s);
                        }
                    }
                    assert forall|s: Text| after@.contains_key(s) implies after@[s]
                        == with_wildcard(before@, specifier@)[s] by {
                        let j = choose|j: int| 0 <= j < after.keys.len() && after.keys[j]@ == s;
                        after.lemma_entry(j);
                        before.lemma_entry(j);
                    }
                    assert(after@ =~= with_wildcard(before@, specifier@));
                }
            },
            None => {
                self.keys.push(specifier.clone());
                self.kinds.push(InteropKind::Wildcard);
                proof {
                    let after = *self;
                    assert(after.wf());
                    assert forall|s: Text| after@.contains_key(s) <==> (before@.contains_key(s)
                        || s == specifier@) by {
                        if before@.contains_key(s) {
                            let j = choose|j: int|
                                0 <= j < before.keys.len() && before.keys[j]@ == s;
                            assert(after.keys[j]@ == s);
                        }
                        if s == specifier@ {
                            assert(after.keys[before.keys.len() as int]@ == s);
                        }
                    }
                    assert forall|s: Text| after@.contains_key(s) implies after@[s]
                        == with_wildcard(before@, specifier@)[s] by {
                        let j = choose|j: int| 0 <= j < after.keys.len() && after.keys[j]@ == s;
                        after.lemma_entry(j);
                        if j < before.keys.len() {
                            before.lemma_entry(j);
                        }
                    }
                    assert(after@ =~= with_wildcard(before@, specifier@));
                }
            },
        }
    }

    /// The number of specifiers recorded.
    pub fn len(&self) -> (n: usize)
        requires
            self.wf(),
        ensures
            n == self@.dom().len(),
            self@.dom().finite(),
    {
        proof {
            self.lemma_domain(self.keys.len() as int);
            assert(self.domain_upto(self.keys.len() as int) =~= self@.dom());
        }
        self.keys.len()
    }

    /// Empties the store and hands out what it held, one pair for each
    /// specifier.
    pub fn drain(&mut self) -> (r: Vec<(String, InteropKind)>)
        requires
            old(self).wf(),
        ensures
            final(self).wf(),
            final(self)@ == Map::<Text, InteropKind>::empty(),
            lists(r@, old(self)@),
    {
        let mut out: Vec<(String, InteropKind)> = Vec::new();
        let mut i: usize = 0;
        while i < self.keys.len()
            invariant
                self.wf(),
                i <= self.keys.len(),
                out.len() == i,
                forall|j: int|
                    #![trigger out[j]]
                    0 <= j < i ==> out[j].0@ == self.keys[j]@ && out[j].1 == self.kinds[j],
            decreases self.keys.len() - i,
        {
            let key = self.keys[i].clone();
            let ghost before = out@;
            out.push((key, self.kinds[i]));
            assert forall|j: int| 0 <= j < i implies out[j] == before[j] by {}
            i += 1;
        }
        proof {
            assert forall|j: int| 0 <= j < out.len() implies self@.contains_key(#[trigger] out[j].0@)
                && self@[out[j].0@] == out[j].1 by {
                self.lemma_entry(j);
            }
            assert forall|s: Text| self@.contains_key(s) implies exists|j: int|
                0 <= j < out.len() && #[trigger] out[j].0@ == s by {
                let j = choose|j: int| 0 <= j < self.keys.len() && self.keys[j]@ == s;
                assert(out[j].0@ == s);
            }
        }
        self.keys = Vec::new();
        self.kinds = Vec::new();
        assert(self@ =~= Map::<Text, InteropKind>::empty());
        out
    }
}

} // verus!
