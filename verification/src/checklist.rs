//! Queries over recorded checklist check states.

use vstd::prelude::*;

use crate::results::{checklist_key, key_seq, ChecklistSection, TestlistResults};
use crate::transforms::checked_spec;

verus! {

/// How many of the first `n` item IDs are checked for the given test and
/// section.
pub open spec fn count_checked(
    m: Seq<(String, bool)>,
    test_id: Seq<char>,
    section: ChecklistSection,
    ids: Seq<&str>,
    n: int,
) -> int
    decreases n,
{
    if n <= 0 {
        0int
    } else {
        count_checked(m, test_id, section, ids, n - 1) + if checked_spec(
            m,
            key_seq(test_id, section, ids[n - 1]@),
        ) {
            1int
        } else {
            0int
        }
    }
}

/// Whether a checklist step is checked; a step that was never touched
/// counts as unchecked.
pub fn is_checked(
    results: &TestlistResults,
    test_id: &str,
    section: ChecklistSection,
    item_id: &str,
) -> (r: bool)
    ensures
        r == checked_spec(results.checklist_results@, key_seq(test_id@, section, item_id@)),
{
    let key = checklist_key(test_id, section, item_id);
    match results.checklist_results.get(key.as_str()) {
        Some(b) => b,
        None => false,
    }
}

/// Progress of one section of one test: how many of the given steps are
/// checked, out of how many.
pub fn checklist_progress(
    results: &TestlistResults,
    test_id: &str,
    section: ChecklistSection,
    item_ids: &[&str],
) -> (r: (usize, usize))
    ensures
        r.0 == count_checked(
            results.checklist_results@,
            test_id@,
            section,
            item_ids@,
            item_ids@.len() as int,
        ),
        r.1 == item_ids@.len(),
{
    let n = item_ids.len();
    let mut checked: usize = 0;
    proof {
        lemma_count_checked_le(results.checklist_results@, test_id@, section, item_ids@, 0);
    }
    for i in 0..n
        invariant
            n == item_ids@.len(),
            checked == count_checked(
                results.checklist_results@,
                test_id@,
                section,
                item_ids@,
                i as int,
            ),
            checked <= i,
    {
        if is_checked(results, test_id, section, item_ids[i]) {
            checked = checked + 1;
        }
        proof {
            lemma_count_checked_le(
                results.checklist_results@,
                test_id@,
                section,
                item_ids@,
                i + 1,
            );
        }
    }
    (checked, n)
}

/// The checked count never exceeds the number of steps asked about.
proof fn lemma_count_checked_le(
    m: Seq<(String, bool)>,
    test_id: Seq<char>,
    section: ChecklistSection,
    ids: Seq<&str>,
    n: int,
)
    ensures
        0 <= count_checked(m, test_id, section, ids, n) <= if n >= 0 {
            n
        } else {
            0
        },
    decreases n,
{
    if n > 0 {
        lemma_count_checked_le(m, test_id, section, ids, n - 1);
    }
}

} // verus!
