//! A small set of test IDs, used to record which tests are expanded.
//!
//! Backed by a vector of distinct strings; its view is the sequence of
//! members, and membership is stated with [`id_in`].

use vstd::prelude::*;

verus! {

/// True when `id` is the character sequence of some member of `s`.
pub open spec fn id_in(s: Seq<String>, id: Seq<char>) -> bool {
    exists|i: int| 0 <= i < s.len() && s[i]@ == id
}

/// True when no two members of `s` spell the same ID.
pub open spec fn distinct_ids(s: Seq<String>) -> bool {
    forall|i: int, j: int| 0 <= i < j < s.len() ==> s[i]@ != s[j]@
}

/// A set of test IDs with no duplicates.
#[derive(Debug, Clone)]
pub struct IdSet {
    items: Vec<String>,
}

impl View for IdSet {
    type V = Seq<String>;

    closed spec fn view(&self) -> Seq<String> {
        self.items@
    }
}

impl IdSet {
    /// Well-formed: the members are pairwise distinct. Holds for every set
    /// built and kept through this interface.
    pub closed spec fn wf(self) -> bool {
        distinct_ids(self.items@)
    }

    /// The empty set.
    pub fn new() -> (r: Self)
        ensures
            r@.len() == 0,
            r.wf(),
    {
        IdSet { items: Vec::new() }
    }

    /// Whether `id` is a member.
    pub fn contains(&self, id: &str) -> (r: bool)
        ensures
            r == id_in(self@, id@),
    {
        let n = self.items.len();
        for i in 0..n
            invariant
                n == self.items.len(),
                forall|j: int| 0 <= j < i ==> self.items@[j]@ != id@,
        {
            if self.items[i].as_str().eq(id) {
                return true;
            }
        }
        false
    }

    /// Add `id`; a member that is already present is not duplicated.
    pub fn insert(&mut self, id: String)
        requires
            old(self).wf(),
        ensures
            final(self).wf(),
            forall|k: Seq<char>| id_in(final(self)@, k) <==> (id_in(old(self)@, k) || k == id@),
    {
        if !self.contains(id.as_str()) {
            let ghost prev = self.items@;
            self.items.push(id);
            proof {
                assert(self.items@ == prev.push(id));
                assert forall|k: Seq<char>|
                    id_in(self.items@, k) <==> (id_in(prev, k) || k == id@) by {
                    if id_in(prev, k) {
                        let w = choose|i: int| 0 <= i < prev.len() && prev[i]@ == k;
                        assert(self.items@[w]@ == k);
                    }
                    if k == id@ {
                        assert(self.items@[prev.len() as int]@ == k);
                    }
                    if id_in(self.items@, k) {
                        let w = choose|i: int|
                            0 <= i < self.items@.len() && self.items@[i]@ == k;
                        if w < prev.len() {
                            assert(prev[w]@ == k);
                        }
                    }
                }
            }
        }
    }

    /// Remove `id` if it is a member.
    pub fn remove(&mut self, id: &str)
        requires
            old(self).wf(),
        ensures
            final(self).wf(),
            forall|k: Seq<char>| id_in(final(self)@, k) <==> (id_in(old(self)@, k) && k != id@),
    {
        let n = self.items.len();
        for i in 0..n
            invariant
                n == self.items.len(),
                distinct_ids(self.items@),
                self.items@ == old(self).items@,
                forall|j: int| 0 <= j < i ==> self.items@[j]@ != id@,
        {
            if self.items[i].as_str().eq(id) {
                let ghost prev = self.items@;
                self.items.remove(i);
                proof {
                    assert forall|k: Seq<char>|
                        id_in(self.items@, k) <==> (id_in(prev, k) && k != id@) by {
                        if id_in(self.items@, k) {
                            let w = choose|t: int|
                                0 <= t < self.items@.len() && self.items@[t]@ == k;
                            if w < i {
                                assert(prev[w]@ == k);
                            } else {
                                assert(prev[w + 1]@ == k);
                            }
                        }
                        if id_in(prev, k) && k != id@ {
                            let w = choose|t: int| 0 <= t < prev.len() && prev[t]@ == k;
                            if w < i {
                                assert(self.items@[w]@ == k);
                            } else {
                                assert(w != i);
                                assert(self.items@[w - 1]@ == k);
                            }
                        }
                    }
                }
                return;
            }
        }
    }
}

} // verus!
