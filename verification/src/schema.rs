//! The first generation of the document shapes: testlists whose setup and
//! verify steps are bare strings, and results that carry their check
//! states in per-result vectors. Old documents still arrive in this shape;
//! the migration in [`crate::results`] carries them over.

use vstd::prelude::*;

use crate::clock::now_rfc3339;

verus! {

/// Metadata of a testlist definition, first-generation shape.
#[derive(Debug, Clone)]
pub struct Meta {
    pub title: String,
    pub description: String,
    pub created: String,
    pub version: String,
}

/// A single test whose steps are bare strings.
#[derive(Debug, Clone)]
pub struct Test {
    pub id: String,
    pub title: String,
    pub description: String,
    pub setup: Vec<String>,
    pub action: String,
    pub verify: Vec<String>,
    pub suggested_command: Option<String>,
}

/// Root of a first-generation testlist document.
#[derive(Debug, Clone)]
pub struct Testlist {
    pub meta: Meta,
    pub tests: Vec<Test>,
}

/// Outcome of one test, first-generation shape.
#[derive(Debug, Clone, Copy, PartialEq, Eq, Structural)]
pub enum Status {
    Pending,
    Passed,
    Failed,
    Inconclusive,
    Skipped,
}

impl Default for Status {
    /// A fresh result is pending.
    fn default() -> (r: Self)
        ensures
            r == Status::Pending,
    {
        Status::Pending
    }
}

/// Metadata of a results document, first-generation shape.
#[derive(Debug, Clone)]
pub struct ResultsMeta {
    pub testlist: String,
    pub tester: String,
    pub started: String,
    pub completed: Option<String>,
}

/// Recorded outcome of a single test, carrying its check states in the two
/// per-result vectors.
#[derive(Debug, Clone)]
pub struct TestResult {
    pub test_id: String,
    pub status: Status,
    pub notes: Option<String>,
    pub screenshots: Vec<String>,
    pub completed_at: Option<String>,
    pub setup_checked: Option<Vec<bool>>,
    pub verify_checked: Option<Vec<bool>>,
}

/// A fresh result for the test `t`: pending, and with one unchecked box per
/// setup and verify step where the test has any.
pub open spec fn pending_for(t: Test, r: TestResult) -> bool {
    &&& r.test_id@ == t.id@
    &&& r.status == Status::Pending
    &&& r.notes is None
    &&& r.screenshots@.len() == 0
    &&& r.completed_at is None
    &&& (t.setup@.len() == 0 ==> r.setup_checked is None)
    &&& (t.setup@.len() > 0 ==> (r.setup_checked matches Some(v) && v@ == Seq::new(
        t.setup@.len(),
        |i: int| false,
    )))
    &&& (t.verify@.len() == 0 ==> r.verify_checked is None)
    &&& (t.verify@.len() > 0 ==> (r.verify_checked matches Some(v) && v@ == Seq::new(
        t.verify@.len(),
        |i: int| false,
    )))
}

impl TestResult {
    /// A fresh, pending result for the given test.
    pub fn new_pending(test: &Test) -> (r: Self)
        ensures
            pending_for(*test, r),
    {
        let r = TestResult {
            test_id: test.id.clone(),
            status: Status::Pending,
            notes: None,
            screenshots: Vec::new(),
            completed_at: None,
            setup_checked: if test.setup.len() == 0 {
                None
            } else {
                Some(vec![false; test.setup.len()])
            },
            verify_checked: if test.verify.len() == 0 {
                None
            } else {
                Some(vec![false; test.verify.len()])
            },
        };
        proof {
            if test.setup@.len() > 0 {
                assert(r.setup_checked->Some_0@ =~= Seq::new(test.setup@.len(), |i: int| false));
            }
            if test.verify@.len() > 0 {
                assert(r.verify_checked->Some_0@ =~= Seq::new(test.verify@.len(), |i: int| false));
            }
        }
        r
    }
}

/// Root of a first-generation results document.
#[derive(Debug, Clone)]
pub struct Results {
    pub meta: ResultsMeta,
    pub results: Vec<TestResult>,
}

/// The first index in `results` whose entry records the test `id`,
/// starting the search at `i`.
pub open spec fn find_result_from(results: Seq<TestResult>, id: Seq<char>, i: int) -> Option<int>
    decreases results.len() - i,
{
    if i < 0 || i >= results.len() {
        None
    } else if results[i].test_id@ == id {
        Some(i)
    } else {
        find_result_from(results, id, i + 1)
    }
}

impl Results {
    /// Fresh results for a testlist: one pending entry per test and
    /// metadata naming the document and the tester. The start timestamp is
    /// read from the clock.
    pub fn new_for_testlist(testlist: &Testlist, testlist_path: &str, tester: &str) -> (r: Self)
        ensures
            r.meta.testlist@ == testlist_path@,
            r.meta.tester@ == tester@,
            r.meta.completed is None,
            r.results@.len() == testlist.tests@.len(),
            forall|j: int|
                0 <= j < r.results@.len() ==> pending_for(
                    testlist.tests@[j],
                    #[trigger] r.results@[j],
                ),
    {
        let mut results: Vec<TestResult> = Vec::new();
        let n = testlist.tests.len();
        for i in 0..n
            invariant
                n == testlist.tests@.len(),
                results@.len() == i,
                forall|j: int|
                    0 <= j < i ==> pending_for(testlist.tests@[j], #[trigger] results@[j]),
        {
            results.push(TestResult::new_pending(&testlist.tests[i]));
        }
        Results {
            meta: ResultsMeta {
                testlist: testlist_path.to_owned(),
                tester: tester.to_owned(),
                started: now_rfc3339(),
                completed: None,
            },
            results,
        }
    }

    /// The result entry for the test `test_id`, writable, or `None` when no
    /// entry records that test.
    pub fn get_result_mut(&mut self, test_id: &str) -> (r: Option<&mut TestResult>)
        ensures
            match r {
                Some(res) => {
                    &&& find_result_from(old(self).results@, test_id@, 0) matches Some(i)
                    &&& *res == old(self).results@[i]
                    &&& final(self).results@ == old(self).results@.update(i, *final(res))
                    &&& final(self).meta == old(self).meta
                },
                None => {
                    &&& find_result_from(old(self).results@, test_id@, 0) is None
                    &&& *final(self) == *old(self)
                },
            },
    {
        match self.result_index(test_id) {
            Some(i) => Some(&mut self.results[i]),
            None => None,
        }
    }

    /// The index of the result entry for the test `test_id`, if any.
    fn result_index(&self, test_id: &str) -> (r: Option<usize>)
        ensures
            match r {
                Some(i) => {
                    &&& find_result_from(self.results@, test_id@, 0) == Some(i as int)
                    &&& i < self.results@.len()
                },
                None => find_result_from(self.results@, test_id@, 0) is None,
            },
    {
        let n = self.results.len();
        for i in 0..n
            invariant
                n == self.results@.len(),
                find_result_from(self.results@, test_id@, 0) == find_result_from(
                    self.results@,
                    test_id@,
                    i as int,
                ),
        {
            if self.results[i].test_id.as_str().eq(test_id) {
                return Some(i);
            }
        }
        None
    }
}

} // verus!
