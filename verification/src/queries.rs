//! Read-only queries over the session state: the active test and result,
//! progress counts, and the row arithmetic of the tests pane.

use vstd::prelude::*;

use crate::definition::Test;
use crate::results::{find_result_from, Status, TestResult, TestlistResults};
use crate::rows::{
    lemma_max_rows_before_mono, lemma_row_of_selection_lt_total, lemma_rows_before_le_max,
    lemma_rows_before_mono,
    map_y_from, map_y_spec, max_rows_before, max_total_rows, row_of_selection, rows_before,
    setup_block_rows, sub_offset, test_rows, valid_sub,
};
use crate::state::{AppState, SubSelection};

verus! {

/// The number of results whose status is no longer pending.
pub open spec fn count_completed(s: Seq<TestResult>) -> int
    decreases s.len(),
{
    if s.len() == 0 {
        0int
    } else {
        count_completed(s.drop_last()) + if s.last().status is Pending {
            0int
        } else {
            1int
        }
    }
}

/// The currently selected test definition, or `None` when the selection
/// points past the list.
pub fn current_test(state: &AppState) -> (r: Option<&Test>)
    ensures
        match r {
            Some(t) => {
                &&& (state.selected_test as int) < state.testlist.tests@.len()
                &&& *t == state.testlist.tests@[state.selected_test as int]
            },
            None => state.testlist.tests@.len() <= state.selected_test as int,
        },
{
    if state.selected_test < state.testlist.tests.len() {
        Some(&state.testlist.tests[state.selected_test])
    } else {
        None
    }
}

/// The result entry for a given test ID, or `None` when no entry records it.
pub fn result_for_test<'a>(results: &'a TestlistResults, test_id: &str) -> (r: Option<
    &'a TestResult,
>)
    ensures
        match r {
            Some(res) => {
                &&& find_result_from(results.results@, test_id@, 0) matches Some(i)
                &&& *res == results.results@[i]
            },
            None => find_result_from(results.results@, test_id@, 0) is None,
        },
{
    match results.result_index(test_id) {
        Some(i) => Some(&results.results[i]),
        None => None,
    }
}

/// The result entry of the currently selected test.
pub fn current_result<'a>(state: &'a AppState) -> (r: Option<&'a TestResult>)
    ensures
        match r {
            Some(res) => {
                &&& (state.selected_test as int) < state.testlist.tests@.len()
                &&& find_result_from(
                    state.results.results@,
                    state.testlist.tests@[state.selected_test as int].id@,
                    0,
                ) matches Some(i)
                &&& *res == state.results.results@[i]
            },
            None => state.testlist.tests@.len() <= state.selected_test as int
                || find_result_from(
                state.results.results@,
                state.testlist.tests@[state.selected_test as int].id@,
                0,
            ) is None,
        },
{
    match current_test(state) {
        Some(t) => result_for_test(&state.results, t.id.as_str()),
        None => None,
    }
}

/// How many tests already have a non-pending outcome.
pub fn completed_count(state: &AppState) -> (r: usize)
    ensures
        r == count_completed(state.results.results@),
{
    let n = state.results.results.len();
    let mut count: usize = 0;
    proof {
        assert(state.results.results@.subrange(0, 0) =~= Seq::<TestResult>::empty());
        lemma_count_completed_le(state.results.results@.subrange(0, 0));
    }
    for i in 0..n
        invariant
            n == state.results.results@.len(),
            count == count_completed(state.results.results@.subrange(0, i as int)),
            count <= i,
    {
        proof {
            let pre = state.results.results@.subrange(0, i + 1);
            assert(pre.drop_last() =~= state.results.results@.subrange(0, i as int));
            assert(pre.last() == state.results.results@[i as int]);
        }
        if !matches!(state.results.results[i].status, Status::Pending) {
            count = count + 1;
        }
    }
    proof {
        assert(state.results.results@.subrange(0, n as int) =~= state.results.results@);
    }
    count
}

/// The count never exceeds the number of results.
proof fn lemma_count_completed_le(s: Seq<TestResult>)
    ensures
        0 <= count_completed(s) <= s.len(),
    decreases s.len(),
{
    if s.len() > 0 {
        lemma_count_completed_le(s.drop_last());
    }
}

/// How many rows one test contributes right now.
fn test_row_count(t: &Test, expanded: bool) -> (r: usize)
    requires
        test_rows(*t, true) <= usize::MAX,
    ensures
        r == test_rows(*t, expanded),
{
    if !expanded {
        return 1;
    }
    let setup_block: usize = if t.setup.len() > 0 {
        1 + t.setup.len()
    } else {
        0
    };
    let verify_block: usize = if t.verify.len() > 0 {
        1 + t.verify.len()
    } else {
        0
    };
    1 + setup_block + 1 + verify_block
}

/// The absolute row of the active position `(selected_test,
/// sub_selection)` in the fully rendered list.
pub fn selected_line_number(state: &AppState) -> (r: usize)
    requires
        state.wf(),
    ensures
        r == row_of_selection(
            state.testlist.tests@,
            state.expanded_tests@,
            state.selected_test as int,
            state.sub_selection,
        ),
{
    let ghost tests = state.testlist.tests@;
    let ghost expanded = state.expanded_tests@;
    if state.testlist.tests.len() == 0 {
        return 0;
    }
    let sel = state.selected_test;
    let mut line: usize = 0;
    for i in 0..sel
        invariant
            state.wf(),
            tests == state.testlist.tests@,
            expanded == state.expanded_tests@,
            (sel as int) < tests.len(),
            sel == state.selected_test,
            valid_sub(state.sub_selection, tests[sel as int]),
            line == rows_before(tests, expanded, i as int),
    {
        proof {
            lemma_rows_before_le_max(tests, expanded, i + 1);
            lemma_max_rows_before_mono(tests, i + 1, tests.len() as int);
            lemma_max_rows_before_mono(tests, i + 1, i + 1);
            assert(max_rows_before(tests, i + 1) == max_rows_before(tests, i as int) + test_rows(
                tests[i as int],
                true,
            ));
            lemma_rows_before_le_max(tests, expanded, i as int);
            assert(test_rows(tests[i as int], true) <= max_total_rows(tests)) by {
                lemma_rows_before_mono(tests, expanded, 0, i as int);
                assert(max_rows_before(tests, i as int) >= rows_before(tests, expanded, i as int)
                    >= 0);
            }
        }
        let t = &state.testlist.tests[i];
        let expanded_here = state.expanded_tests.contains(t.id.as_str());
        line = line + test_row_count(t, expanded_here);
    }
    proof {
        lemma_row_of_selection_lt_total(tests, expanded, sel as int, state.sub_selection);
        lemma_max_rows_before_mono(tests, 0, sel as int);
        lemma_max_rows_before_mono(tests, sel as int + 1, tests.len() as int);
        assert(max_rows_before(tests, sel as int + 1) == max_rows_before(tests, sel as int)
            + test_rows(tests[sel as int], true));
        assert(test_rows(tests[sel as int], true) <= max_total_rows(tests));
    }
    let t = &state.testlist.tests[sel];
    if state.expanded_tests.contains(t.id.as_str()) {
        let setup_block: usize = if t.setup.len() > 0 {
            1 + t.setup.len()
        } else {
            0
        };
        proof {
            assert(setup_block == setup_block_rows(tests[sel as int]));
            assert(sub_offset(tests[sel as int], state.sub_selection) >= 0);
        }
        match state.sub_selection {
            SubSelection::Header => line,
            SubSelection::Setup(i) => line + 2 + i,
            SubSelection::Action => line + 1 + setup_block,
            SubSelection::Verify(i) => line + 1 + setup_block + 2 + i,
        }
    } else {
        line
    }
}

/// The test owning absolute row `y` of the tests pane, where rows of an
/// expanded body belong to their test; `None` when `y` lies past the list.
pub fn map_y_to_test_index(state: &AppState, y: usize) -> (r: Option<usize>)
    requires
        state.wf(),
    ensures
        match r {
            Some(i) => map_y_spec(state.testlist.tests@, state.expanded_tests@, y as int) == Some(
                i as int,
            ) && (i as int) < state.testlist.tests@.len(),
            None => map_y_spec(state.testlist.tests@, state.expanded_tests@, y as int) is None,
        },
{
    let ghost tests = state.testlist.tests@;
    let ghost expanded = state.expanded_tests@;
    let n = state.testlist.tests.len();
    let mut rem = y;
    for i in 0..n
        invariant
            state.wf(),
            tests == state.testlist.tests@,
            expanded == state.expanded_tests@,
            n == tests.len(),
            rem <= y,
            map_y_spec(tests, expanded, y as int) == map_y_from(tests, expanded, rem as int, i as int),
    {
        proof {
            lemma_rows_before_le_max(tests, expanded, i as int);
            lemma_max_rows_before_mono(tests, i + 1, tests.len() as int);
            assert(max_rows_before(tests, i + 1) == max_rows_before(tests, i as int) + test_rows(
                tests[i as int],
                true,
            ));
            lemma_rows_before_mono(tests, expanded, 0, i as int);
            assert(max_rows_before(tests, i as int) >= 0);
        }
        let t = &state.testlist.tests[i];
        let expanded_here = state.expanded_tests.contains(t.id.as_str());
        let tr = test_row_count(t, expanded_here);
        if rem < tr {
            return Some(i);
        }
        rem = rem - tr;
    }
    None
}

} // verus!
