//! Recorded check states of setup and verify steps, addressed by composite
//! keys of the form `"test-id:section:item-id"`.
//!
//! Backed by a vector of key/value pairs with distinct keys; its view is the
//! sequence of entries, and lookups are stated with [`key_lookup`].

use vstd::prelude::*;

verus! {

/// The value bound to `k` in `s`, taking the latest entry when several
/// spell the same key.
pub open spec fn key_lookup(s: Seq<(String, bool)>, k: Seq<char>) -> Option<bool>
    decreases s.len(),
{
    if s.len() == 0 {
        None
    } else if s.last().0@ == k {
        Some(s.last().1)
    } else {
        key_lookup(s.drop_last(), k)
    }
}

/// True when no two entries of `s` spell the same key.
pub open spec fn distinct_keys(s: Seq<(String, bool)>) -> bool {
    forall|i: int, j: int| 0 <= i < j < s.len() ==> s[i].0@ != s[j].0@
}

/// Check states per composite checklist key. An absent key means the box
/// was never touched and counts as unchecked.
#[derive(Debug, Clone)]
pub struct ChecklistMap {
    entries: Vec<(String, bool)>,
}

impl View for ChecklistMap {
    type V = Seq<(String, bool)>;

    closed spec fn view(&self) -> Seq<(String, bool)> {
        self.entries@
    }
}

impl ChecklistMap {
    /// Well-formed: the keys are pairwise distinct. Holds for every map
    /// built and kept through this interface.
    pub closed spec fn wf(self) -> bool {
        distinct_keys(self.entries@)
    }

    /// The empty map.
    pub fn new() -> (r: Self)
        ensures
            r@.len() == 0,
            r.wf(),
    {
        ChecklistMap { entries: Vec::new() }
    }

    /// Whether the map holds no entry.
    pub fn is_empty(&self) -> (r: bool)
        ensures
            r == (self@.len() == 0),
    {
        self.entries.is_empty()
    }

    /// The value bound to `key`, or `None` when the key is absent.
    pub fn get(&self, key: &str) -> (r: Option<bool>)
        ensures
            r == key_lookup(self@, key@),
    {
        let n = self.entries.len();
        let mut i = n;
        proof {
            assert(self.entries@.subrange(0, n as int) =~= self.entries@);
        }
        while i > 0
            invariant
                i <= n,
                n == self.entries.len(),
                key_lookup(self.entries@, key@) == key_lookup(
                    self.entries@.subrange(0, i as int),
                    key@,
                ),
            decreases i,
        {
            i = i - 1;
            if self.entries[i].0.as_str().eq(key) {
                proof {
                    let pre = self.entries@.subrange(0, i + 1);
                    assert(pre.last() == self.entries@[i as int]);
                }
                return Some(self.entries[i].1);
            }
            proof {
                let pre = self.entries@.subrange(0, i + 1);
                assert(pre.last() == self.entries@[i as int]);
                assert(pre.drop_last() =~= self.entries@.subrange(0, i as int));
            }
        }
        proof {
            assert(self.entries@.subrange(0, 0) =~= Seq::<(String, bool)>::empty());
        }
        None
    }

    /// All entries as plain key/value pairs, in storage order.
    pub fn entries(&self) -> (r: Vec<(String, bool)>)
        ensures
            r@ == self@,
    {
        let mut out: Vec<(String, bool)> = Vec::new();
        let n = self.entries.len();
        for i in 0..n
            invariant
                n == self.entries@.len(),
                out@.len() == i,
                forall|j: int| 0 <= j < i ==> out@[j] == self.entries@[j],
        {
            out.push((self.entries[i].0.clone(), self.entries[i].1));
            proof {
                assert(out@[i as int] == self.entries@[i as int]);
            }
        }
        proof {
            assert(out@ =~= self.entries@);
        }
        out
    }

    /// Bind `key` to `value`, replacing any earlier binding of the key and
    /// leaving every other key unchanged.
    pub fn insert(&mut self, key: String, value: bool)
        requires
            old(self).wf(),
        ensures
            final(self).wf(),
            key_lookup(final(self)@, key@) == Some(value),
            forall|k: Seq<char>| k != key@ ==> key_lookup(final(self)@, k) == key_lookup(
                old(self)@,
                k,
            ),
    {
        let n = self.entries.len();
        for i in 0..n
            invariant
                n == self.entries.len(),
                self.entries@ == old(self).entries@,
                distinct_keys(self.entries@),
                forall|j: int| 0 <= j < i ==> self.entries@[j].0@ != key@,
        {
            if self.entries[i].0.as_str().eq(key.as_str()) {
                let ghost prev = self.entries@;
                self.entries.set(i, (key, value));
                proof {
                    lemma_lookup_update(prev, i as int, (key, value));
                }
                return;
            }
        }
        let ghost prev = self.entries@;
        self.entries.push((key, value));
        proof {
            assert(self.entries@.drop_last() =~= prev);
            assert forall|k: Seq<char>| k != key@ implies key_lookup(self.entries@, k)
                == key_lookup(prev, k) by {
                assert(self.entries@.last().0@ == key@);
            }
        }
    }
}

/// Updating the single entry that spells a key rebinds that key and leaves
/// every other key's lookup unchanged.
proof fn lemma_lookup_update(s: Seq<(String, bool)>, i: int, e: (String, bool))
    requires
        0 <= i < s.len(),
        distinct_keys(s),
        s[i].0@ == e.0@,
        forall|j: int| 0 <= j < i ==> s[j].0@ != e.0@,
    ensures
        key_lookup(s.update(i, e), e.0@) == Some(e.1),
        forall|k: Seq<char>| k != e.0@ ==> key_lookup(s.update(i, e), k) == key_lookup(s, k),
    decreases s.len(),
{
    let t = s.update(i, e);
    if i == s.len() - 1 {
        assert(t.last() == e);
        assert(t.drop_last() =~= s.drop_last());
        assert(key_lookup(t, e.0@) == Some(e.1));
        assert forall|k: Seq<char>| k != e.0@ implies key_lookup(t, k) == key_lookup(s, k) by {
            assert(key_lookup(t, k) == key_lookup(t.drop_last(), k));
            assert(key_lookup(s, k) == key_lookup(s.drop_last(), k));
        }
    } else {
        assert(t.last() == s.last());
        assert(t.drop_last() =~= s.drop_last().update(i, e));
        assert(distinct_keys(s.drop_last()));
        lemma_lookup_update(s.drop_last(), i, e);
        assert(s.last().0@ != e.0@);
        assert(key_lookup(t, e.0@) == key_lookup(t.drop_last(), e.0@));
        assert forall|k: Seq<char>| k != e.0@ implies key_lookup(t, k) == key_lookup(s, k) by {
            if s.last().0@ == k {
                assert(key_lookup(t, k) == Some(t.last().1));
            } else {
                assert(key_lookup(t, k) == key_lookup(t.drop_last(), k));
                assert(key_lookup(s, k) == key_lookup(s.drop_last(), k));
            }
        }
    }
}

} // verus!
