//! Document types for recorded results: per-test outcomes, notes,
//! screenshots, and the check state of individual checklist steps.

use vstd::prelude::*;

use crate::checklist_map::{key_lookup, ChecklistMap};
use crate::clock::now_rfc3339;
use crate::definition::{Test, Testlist};

verus! {

/// Outcome of one test.
#[derive(Debug, Clone, Copy, PartialEq, Eq, Structural)]
pub enum Status {
    Pending,
    Passed,
    Failed,
    Inconclusive,
    Skipped,
}

impl Default for Status {
    /// A fresh result is pending.
    fn default() -> (r: Self)
        ensures
            r == Status::Pending,
    {
        Status::Pending
    }
}

/// Which checklist section a composite key addresses.
#[derive(Debug, Clone, Copy, PartialEq, Eq, Hash, Structural)]
pub enum ChecklistSection {
    Setup,
    Verify,
}

/// The word a section contributes to composite checklist keys.
pub open spec fn section_name(section: ChecklistSection) -> Seq<char> {
    match section {
        ChecklistSection::Setup => "setup"@,
        ChecklistSection::Verify => "verify"@,
    }
}

impl ChecklistSection {
    /// The section's name as it appears inside composite keys.
    pub fn label(self) -> (r: &'static str)
        ensures
            r@ == section_name(self),
    {
        match self {
            ChecklistSection::Setup => "setup",
            ChecklistSection::Verify => "verify",
        }
    }
}

/// The composite key that addresses one checklist step of one test.
pub open spec fn key_seq(test_id: Seq<char>, section: ChecklistSection, item_id: Seq<char>) -> Seq<
    char,
> {
    test_id + ":"@ + section_name(section) + ":"@ + item_id
}

/// Builds the composite key `"test-id:section:item-id"` under which a
/// checklist step's check state is stored.
pub fn checklist_key(test_id: &str, section: ChecklistSection, item_id: &str) -> (r: String)
    ensures
        r@ == key_seq(test_id@, section, item_id@),
{
    let mut s = String::new();
    s.push_str(test_id);
    s.push_str(":");
    s.push_str(section.label());
    s.push_str(":");
    s.push_str(item_id);
    proof {
        assert(s@ =~= key_seq(test_id@, section, item_id@));
    }
    s
}

/// Metadata of a results document.
#[derive(Debug, Clone)]
pub struct ResultsMeta {
    pub testlist: String,
    pub tester: String,
    pub started: String,
    pub completed: Option<String>,
}

/// Recorded outcome of a single test.
///
/// Check states of checklist steps live in the parent document under
/// composite keys; the two trailing fields only carry what older documents
/// stored per result, and are cleared by the migration.
#[derive(Debug, Clone)]
pub struct TestResult {
    pub test_id: String,
    pub status: Status,
    pub notes: Option<String>,
    pub screenshots: Vec<String>,
    pub completed_at: Option<String>,
    pub setup_checked: Option<Vec<bool>>,
    pub verify_checked: Option<Vec<bool>>,
}

/// A result that records no outcome yet for the test `t`.
pub open spec fn pending_for(t: Test, r: TestResult) -> bool {
    &&& r.test_id@ == t.id@
    &&& r.status == Status::Pending
    &&& r.notes is None
    &&& r.screenshots@.len() == 0
    &&& r.completed_at is None
    &&& r.setup_checked is None
    &&& r.verify_checked is None
}

impl TestResult {
    /// A fresh, pending result for the given test.
    pub fn new_pending(test: &Test) -> (r: Self)
        ensures
            pending_for(*test, r),
    {
        TestResult {
            test_id: test.id.clone(),
            status: Status::Pending,
            notes: None,
            screenshots: Vec::new(),
            completed_at: None,
            setup_checked: None,
            verify_checked: None,
        }
    }
}

/// Root of a results document.
#[derive(Debug, Clone)]
pub struct TestlistResults {
    pub meta: ResultsMeta,
    pub results: Vec<TestResult>,
    pub checklist_results: ChecklistMap,
}

/// A results document in the older on-disk shape, where each result carried
/// its check states in the two per-result vectors instead of the composite
/// key map.
#[derive(Debug, Clone)]
pub struct OldResults {
    pub meta: ResultsMeta,
    pub results: Vec<TestResult>,
}

/// The first index in `tests` whose test has the ID `id`, starting the
/// search at `i`.
pub open spec fn find_test_from(tests: Seq<Test>, id: Seq<char>, i: int) -> Option<int>
    decreases tests.len() - i,
{
    if i < 0 || i >= tests.len() {
        None
    } else if tests[i].id@ == id {
        Some(i)
    } else {
        find_test_from(tests, id, i + 1)
    }
}

/// The checklist entries that migrating one old result contributes for one
/// section: one per check state, up to the length of the section's item
/// list, keyed by the item's ID.
pub open spec fn section_entries(
    test_id: Seq<char>,
    section: ChecklistSection,
    items: Seq<crate::definition::ChecklistItem>,
    checked: Option<Vec<bool>>,
) -> Seq<(Seq<char>, bool)> {
    match checked {
        None => Seq::empty(),
        Some(ch) => Seq::new(
            if ch@.len() <= items.len() {
                ch@.len()
            } else {
                items.len()
            },
            |i: int| (key_seq(test_id, section, items[i].id@), ch@[i]),
        ),
    }
}

/// The checklist entries that migrating one old result contributes: its
/// setup states, then its verify states; nothing when no test has its ID.
pub open spec fn result_entries(r: TestResult, tests: Seq<Test>) -> Seq<(Seq<char>, bool)> {
    match find_test_from(tests, r.test_id@, 0) {
        None => Seq::empty(),
        Some(ti) => section_entries(r.test_id@, ChecklistSection::Setup, tests[ti].setup@, r.setup_checked)
            + section_entries(r.test_id@, ChecklistSection::Verify, tests[ti].verify@, r.verify_checked),
    }
}

/// All checklist entries that migrating an old document contributes, in
/// the order the results are listed.
pub open spec fn migration_entries(olds: Seq<TestResult>, tests: Seq<Test>) -> Seq<
    (Seq<char>, bool),
>
    decreases olds.len(),
{
    if olds.len() == 0 {
        Seq::empty()
    } else {
        migration_entries(olds.drop_last(), tests) + result_entries(olds.last(), tests)
    }
}

/// The value bound to `k` by a list of planned entries, the latest entry
/// winning.
pub open spec fn entry_lookup(s: Seq<(Seq<char>, bool)>, k: Seq<char>) -> Option<bool>
    decreases s.len(),
{
    if s.len() == 0 {
        None
    } else if s.last().0 == k {
        Some(s.last().1)
    } else {
        entry_lookup(s.drop_last(), k)
    }
}

/// Appending one planned entry binds its key and leaves other keys as they
/// were.
proof fn lemma_entry_lookup_push(s: Seq<(Seq<char>, bool)>, e: (Seq<char>, bool), k: Seq<char>)
    ensures
        entry_lookup(s.push(e), k) == if e.0 == k {
            Some(e.1)
        } else {
            entry_lookup(s, k)
        },
{
    assert(s.push(e).drop_last() =~= s);
    assert(s.push(e).last() == e);
}

/// A migrated result: the recorded outcome is kept and the per-result check
/// vectors are cleared.
pub open spec fn cleared_like(o: TestResult, n: TestResult) -> bool {
    &&& n.test_id == o.test_id
    &&& n.status == o.status
    &&& n.notes == o.notes
    &&& n.screenshots == o.screenshots
    &&& n.completed_at == o.completed_at
    &&& n.setup_checked is None
    &&& n.verify_checked is None
}

/// The first index in `results` whose entry records the test `id`, starting
/// the search at `i`.
pub open spec fn find_result_from(results: Seq<TestResult>, id: Seq<char>, i: int) -> Option<int>
    decreases results.len() - i,
{
    if i < 0 || i >= results.len() {
        None
    } else if results[i].test_id@ == id {
        Some(i)
    } else {
        find_result_from(results, id, i + 1)
    }
}

/// The index of the first test with the ID `id`, if any.
fn find_test(testlist: &Testlist, id: &str) -> (r: Option<usize>)
    ensures
        match r {
            Some(i) => {
                &&& find_test_from(testlist.tests@, id@, 0) == Some(i as int)
                &&& i < testlist.tests@.len()
            },
            None => find_test_from(testlist.tests@, id@, 0) is None,
        },
{
    let n = testlist.tests.len();
    for i in 0..n
        invariant
            n == testlist.tests@.len(),
            find_test_from(testlist.tests@, id@, 0) == find_test_from(
                testlist.tests@,
                id@,
                i as int,
            ),
    {
        if testlist.tests[i].id.as_str().eq(id) {
            return Some(i);
        }
    }
    None
}

/// Inserts the planned entries of one section of one migrated result, in
/// item order, and tracks the effect against the planned entry list.
fn insert_section_entries(
    map: &mut ChecklistMap,
    or: &TestResult,
    section: ChecklistSection,
    items: &Vec<crate::definition::ChecklistItem>,
    checked: &Vec<bool>,
    m: usize,
    Ghost(e_prev): Ghost<Seq<(Seq<char>, bool)>>,
    Ghost(se): Ghost<Seq<(Seq<char>, bool)>>,
)
    requires
        old(map).wf(),
        m == if checked@.len() <= items@.len() {
            checked@.len()
        } else {
            items@.len()
        },
        se == section_entries(or.test_id@, section, items@, Some(*checked)),
        forall|k: Seq<char>| key_lookup(old(map)@, k) == entry_lookup(e_prev, k),
    ensures
        final(map).wf(),
        forall|k: Seq<char>| key_lookup(final(map)@, k) == entry_lookup(e_prev + se, k),
{
    proof {
        assert(se.take(0) =~= Seq::<(Seq<char>, bool)>::empty());
        assert(e_prev + se.take(0) =~= e_prev);
    }
    for i in 0..m
        invariant
            map.wf(),
            m <= checked@.len(),
            m <= items@.len(),
            se == section_entries(or.test_id@, section, items@, Some(*checked)),
            se.len() == m,
            forall|k: Seq<char>|
                key_lookup(map@, k) == entry_lookup(e_prev + se.take(i as int), k),
    {
        let key = checklist_key(or.test_id.as_str(), section, items[i].id.as_str());
        let ghost keyview = key@;
        map.insert(key, checked[i]);
        proof {
            assert(se[i as int] == (
                key_seq(or.test_id@, section, items@[i as int].id@),
                checked@[i as int],
            ));
            assert(se[i as int].0 == keyview);
            assert((e_prev + se.take(i as int)).push(se[i as int]) =~= e_prev + se.take(i + 1));
            assert forall|k: Seq<char>|
                key_lookup(map@, k) == entry_lookup(e_prev + se.take(i + 1), k) by {
                lemma_entry_lookup_push(e_prev + se.take(i as int), se[i as int], k);
            }
        }
    }
    proof {
        assert(se.take(m as int) =~= se);
    }
}

/// A found result index lies in range and names the searched test.
pub proof fn lemma_find_result_bounds(results: Seq<TestResult>, id: Seq<char>, j: int)
    requires
        find_result_from(results, id, j) is Some,
    ensures
        ({
            let i = find_result_from(results, id, j)->Some_0;
            &&& j <= i < results.len()
            &&& results[i].test_id@ == id
        }),
    decreases results.len() - j,
{
    if !(j < 0 || j >= results.len()) && results[j].test_id@ != id {
        lemma_find_result_bounds(results, id, j + 1);
    }
}

impl TestlistResults {
    /// Fresh results for a testlist: one pending entry per test, no checked
    /// boxes, and metadata naming the document and the tester. The start
    /// timestamp is read from the clock.
    pub fn new_for_testlist(testlist: &Testlist, testlist_path: &str, tester: &str) -> (r: Self)
        ensures
            r.meta.testlist@ == testlist_path@,
            r.meta.tester@ == tester@,
            r.meta.completed is None,
            r.results@.len() == testlist.tests@.len(),
            forall|j: int|
                0 <= j < r.results@.len() ==> pending_for(testlist.tests@[j], #[trigger] r.results@[j]),
            r.checklist_results@.len() == 0,
            r.checklist_results.wf(),
    {
        let mut results: Vec<TestResult> = Vec::new();
        let n = testlist.tests.len();
        for i in 0..n
            invariant
                n == testlist.tests@.len(),
                results@.len() == i,
                forall|j: int|
                    0 <= j < i ==> pending_for(testlist.tests@[j], #[trigger] results@[j]),
        {
            results.push(TestResult::new_pending(&testlist.tests[i]));
        }
        TestlistResults {
            meta: ResultsMeta {
                testlist: testlist_path.to_owned(),
                tester: tester.to_owned(),
                started: now_rfc3339(),
                completed: None,
            },
            results,
            checklist_results: ChecklistMap::new(),
        }
    }

    /// The index of the result entry for the test `test_id`, if any.
    pub fn result_index(&self, test_id: &str) -> (r: Option<usize>)
        ensures
            match r {
                Some(i) => {
                    &&& find_result_from(self.results@, test_id@, 0) == Some(i as int)
                    &&& i < self.results@.len()
                    &&& self.results@[i as int].test_id@ == test_id@
                },
                None => find_result_from(self.results@, test_id@, 0) is None,
            },
    {
        let n = self.results.len();
        for i in 0..n
            invariant
                n == self.results@.len(),
                find_result_from(self.results@, test_id@, 0) == find_result_from(
                    self.results@,
                    test_id@,
                    i as int,
                ),
        {
            if self.results[i].test_id.as_str().eq(test_id) {
                return Some(i);
            }
        }
        None
    }

    /// Rebuilds a document of the older shape into the current one: the
    /// check states that each result carried in its own vectors move into
    /// the composite-key map, keyed by the matching test's item IDs, and
    /// the per-result vectors are cleared. Results naming no known test
    /// keep their outcome but contribute no checklist entries.
    pub fn migrate_from_old(old: OldResults, testlist: &Testlist) -> (r: TestlistResults)
        ensures
            r.meta == old.meta,
            r.results@.len() == old.results@.len(),
            forall|j: int|
                0 <= j < old.results@.len() ==> cleared_like(
                    old.results@[j],
                    #[trigger] r.results@[j],
                ),
            r.checklist_results.wf(),
            forall|k: Seq<char>|
                key_lookup(r.checklist_results@, k) == entry_lookup(
                    migration_entries(old.results@, testlist.tests@),
                    k,
                ),
    {
        let OldResults { meta, results: mut olds } = old;
        let ghost osnap = olds@;
        let ghost tests = testlist.tests@;
        let mut map = ChecklistMap::new();
        let n = olds.len();
        proof {
            assert(osnap.take(0) =~= Seq::<TestResult>::empty());
        }
        for j in 0..n
            invariant
                n == olds@.len(),
                olds@ == osnap,
                map.wf(),
                tests == testlist.tests@,
                forall|k: Seq<char>|
                    key_lookup(map@, k) == entry_lookup(
                        migration_entries(osnap.take(j as int), tests),
                        k,
                    ),
        {
            let or = &olds[j];
            let ghost e_prev = migration_entries(osnap.take(j as int), tests);
            match find_test(testlist, or.test_id.as_str()) {
                Some(ti) => {
                    let t = &testlist.tests[ti];
                    let ghost se = section_entries(
                        or.test_id@,
                        ChecklistSection::Setup,
                        t.setup@,
                        or.setup_checked,
                    );
                    match &or.setup_checked {
                        Some(checked) => {
                            let m = if checked.len() <= t.setup.len() {
                                checked.len()
                            } else {
                                t.setup.len()
                            };
                            insert_section_entries(
                                &mut map,
                                or,
                                ChecklistSection::Setup,
                                &t.setup,
                                checked,
                                m,
                                Ghost(e_prev),
                                Ghost(se),
                            );
                        },
                        None => {
                            proof {
                                assert(e_prev + se =~= e_prev);
                            }
                        },
                    }
                    let ghost e_mid = e_prev + se;
                    let ghost ve = section_entries(
                        or.test_id@,
                        ChecklistSection::Verify,
                        t.verify@,
                        or.verify_checked,
                    );
                    match &or.verify_checked {
                        Some(checked) => {
                            let m = if checked.len() <= t.verify.len() {
                                checked.len()
                            } else {
                                t.verify.len()
                            };
                            insert_section_entries(
                                &mut map,
                                or,
                                ChecklistSection::Verify,
                                &t.verify,
                                checked,
                                m,
                                Ghost(e_mid),
                                Ghost(ve),
                            );
                        },
                        None => {
                            proof {
                                assert(e_mid + ve =~= e_mid);
                            }
                        },
                    }
                    proof {
                        assert(e_prev + result_entries(osnap[j as int], tests) =~= e_mid + ve);
                    }
                },
                None => {
                    proof {
                        assert(e_prev + result_entries(osnap[j as int], tests) =~= e_prev);
                    }
                },
            }
            proof {
                assert(osnap.take(j + 1).drop_last() =~= osnap.take(j as int));
                assert(osnap.take(j + 1).last() == osnap[j as int]);
                assert(migration_entries(osnap.take(j + 1), tests) == e_prev + result_entries(
                    osnap[j as int],
                    tests,
                ));
            }
        }
        proof {
            assert(osnap.take(n as int) =~= osnap);
        }
        let mut results: Vec<TestResult> = Vec::new();
        for j in 0..n
            invariant
                n == olds@.len(),
                olds@.len() == osnap.len(),
                forall|i: int| j <= i < osnap.len() ==> olds@[i] == osnap[i],
                results@.len() == j,
                forall|i: int| 0 <= i < j ==> cleared_like(osnap[i], #[trigger] results@[i]),
        {
            let mut tmp = TestResult {
                test_id: String::new(),
                status: Status::Pending,
                notes: None,
                screenshots: Vec::new(),
                completed_at: None,
                setup_checked: None,
                verify_checked: None,
            };
            olds.set_and_swap(j, &mut tmp);
            tmp.setup_checked = None;
            tmp.verify_checked = None;
            results.push(tmp);
        }
        TestlistResults { meta, results, checklist_results: map }
    }

    /// The result entry for the test `test_id`, writable, or `None` when no
    /// entry records that test.
    pub fn get_result_mut(&mut self, test_id: &str) -> (r: Option<&mut TestResult>)
        ensures
            match r {
                Some(res) => {
                    &&& find_result_from(old(self).results@, test_id@, 0) matches Some(i)
                    &&& *res == old(self).results@[i]
                    &&& final(self).results@ == old(self).results@.update(i, *final(res))
                    &&& final(self).meta == old(self).meta
                    &&& final(self).checklist_results == old(self).checklist_results
                },
                None => {
                    &&& find_result_from(old(self).results@, test_id@, 0) is None
                    &&& *final(self) == *old(self)
                },
            },
    {
        match self.result_index(test_id) {
            Some(i) => Some(&mut self.results[i]),
            None => None,
        }
    }
}

} // verus!
