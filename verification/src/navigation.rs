//! The selection and navigation state machine of the tests pane: moving
//! through the tree-shaped list of tests and keeping the scroll window over
//! the active row.

use vstd::prelude::*;

use crate::idset::id_in;
use crate::definition::Test;
use crate::queries::selected_line_number;
use crate::rows::{
    lemma_row_of_selection_lt_total, max_total_rows, row_of_selection, valid_sub,
};
use crate::state::{AppState, SubSelection};

verus! {

/// The position after one forward step. Inside an expanded test the order
/// is header, the setup items, the action, the verify items; past the last
/// position of a test the next test's header follows; at the very last
/// position nothing moves. On a collapsed test the step goes straight to
/// the next test's header.
pub open spec fn next_position(
    tests: Seq<Test>,
    expanded: Seq<String>,
    sel: usize,
    sub: SubSelection,
) -> (usize, SubSelection) {
    if tests.len() == 0 || sel as int >= tests.len() {
        (sel, sub)
    } else {
        let t = tests[sel as int];
        if !id_in(expanded, t.id@) {
            if (sel as int) < tests.len() - 1 {
                ((sel + 1) as usize, SubSelection::Header)
            } else {
                (sel, sub)
            }
        } else {
            match sub {
                SubSelection::Header => if t.setup@.len() > 0 {
                    (sel, SubSelection::Setup(0))
                } else {
                    (sel, SubSelection::Action)
                },
                SubSelection::Setup(i) => if i + 1 < t.setup@.len() {
                    (sel, SubSelection::Setup((i + 1) as usize))
                } else {
                    (sel, SubSelection::Action)
                },
                SubSelection::Action => if t.verify@.len() > 0 {
                    (sel, SubSelection::Verify(0))
                } else if (sel as int) < tests.len() - 1 {
                    ((sel + 1) as usize, SubSelection::Header)
                } else {
                    (sel, sub)
                },
                SubSelection::Verify(i) => if i + 1 < t.verify@.len() {
                    (sel, SubSelection::Verify((i + 1) as usize))
                } else if (sel as int) < tests.len() - 1 {
                    ((sel + 1) as usize, SubSelection::Header)
                } else {
                    (sel, sub)
                },
            }
        }
    }
}

/// The position after one backward step: the symmetric inverse of
/// [`next_position`]. From a header the step lands on the previous test's
/// last existing position when that test is expanded, else on its header;
/// at the very first position nothing moves.
pub open spec fn prev_position(
    tests: Seq<Test>,
    expanded: Seq<String>,
    sel: usize,
    sub: SubSelection,
) -> (usize, SubSelection) {
    if tests.len() == 0 || sel as int >= tests.len() {
        (sel, sub)
    } else {
        let t = tests[sel as int];
        if sub is Header {
            if sel > 0 {
                let p = tests[sel as int - 1];
                if id_in(expanded, p.id@) {
                    if p.verify@.len() > 0 {
                        ((sel - 1) as usize, SubSelection::Verify((p.verify@.len() - 1) as usize))
                    } else {
                        ((sel - 1) as usize, SubSelection::Action)
                    }
                } else {
                    ((sel - 1) as usize, SubSelection::Header)
                }
            } else {
                (sel, sub)
            }
        } else if !id_in(expanded, t.id@) {
            (sel, SubSelection::Header)
        } else {
            match sub {
                SubSelection::Header => (sel, sub),
                SubSelection::Setup(i) => if i > 0 {
                    (sel, SubSelection::Setup((i - 1) as usize))
                } else {
                    (sel, SubSelection::Header)
                },
                SubSelection::Action => if t.setup@.len() > 0 {
                    (sel, SubSelection::Setup((t.setup@.len() - 1) as usize))
                } else {
                    (sel, SubSelection::Header)
                },
                SubSelection::Verify(i) => if i > 0 {
                    (sel, SubSelection::Verify((i - 1) as usize))
                } else {
                    (sel, SubSelection::Action)
                },
            }
        }
    }
}

/// Move the selection one position forward. Only the selection changes,
/// exactly as [`next_position`] says, and the selection stays a position
/// that exists.
pub fn select_next(state: &mut AppState)
    requires
        old(state).wf(),
    ensures
        final(state).wf(),
        ({
            let np = next_position(
                old(state).testlist.tests@,
                old(state).expanded_tests@,
                old(state).selected_test,
                old(state).sub_selection,
            );
            *final(state) == (AppState {
                selected_test: np.0,
                sub_selection: np.1,
                ..*old(state)
            })
        }),
{
    let n = state.testlist.tests.len();
    if state.selected_test >= n {
        return ;
    }
    let is_expanded = state.expanded_tests.contains(
        state.testlist.tests[state.selected_test].id.as_str(),
    );
    if !is_expanded {
        if state.selected_test < n - 1 {
            state.selected_test = state.selected_test + 1;
            state.sub_selection = SubSelection::Header;
        }
        return ;
    }
    let setup_count = state.testlist.tests[state.selected_test].setup.len();
    let verify_count = state.testlist.tests[state.selected_test].verify.len();
    match state.sub_selection {
        SubSelection::Header => {
            if setup_count > 0 {
                state.sub_selection = SubSelection::Setup(0);
            } else {
                state.sub_selection = SubSelection::Action;
            }
        },
        SubSelection::Setup(i) => {
            if i + 1 < setup_count {
                state.sub_selection = SubSelection::Setup(i + 1);
            } else {
                state.sub_selection = SubSelection::Action;
            }
        },
        SubSelection::Action => {
            if verify_count > 0 {
                state.sub_selection = SubSelection::Verify(0);
            } else if state.selected_test < n - 1 {
                state.selected_test = state.selected_test + 1;
                state.sub_selection = SubSelection::Header;
            }
        },
        SubSelection::Verify(i) => {
            if i + 1 < verify_count {
                state.sub_selection = SubSelection::Verify(i + 1);
            } else if state.selected_test < n - 1 {
                state.selected_test = state.selected_test + 1;
                state.sub_selection = SubSelection::Header;
            }
        },
    }
}

/// Move the selection one position backward. Only the selection changes,
/// exactly as [`prev_position`] says, and the selection stays a position
/// that exists.
#[verifier::rlimit(40)]
pub fn select_prev(state: &mut AppState)
    requires
        old(state).wf(),
    ensures
        final(state).wf(),
        ({
            let np = prev_position(
                old(state).testlist.tests@,
                old(state).expanded_tests@,
                old(state).selected_test,
                old(state).sub_selection,
            );
            *final(state) == (AppState {
                selected_test: np.0,
                sub_selection: np.1,
                ..*old(state)
            })
        }),
{
    let n = state.testlist.tests.len();
    if state.selected_test >= n {
        return ;
    }
    let is_expanded = state.expanded_tests.contains(
        state.testlist.tests[state.selected_test].id.as_str(),
    );
    if matches!(state.sub_selection, SubSelection::Header) {
        if state.selected_test > 0 {
            state.selected_test = state.selected_test - 1;
            let prev_expanded = state.expanded_tests.contains(
                state.testlist.tests[state.selected_test].id.as_str(),
            );
            if prev_expanded {
                let verify_count = state.testlist.tests[state.selected_test].verify.len();
                if verify_count > 0 {
                    state.sub_selection = SubSelection::Verify(verify_count - 1);
                } else {
                    state.sub_selection = SubSelection::Action;
                }
            } else {
                state.sub_selection = SubSelection::Header;
            }
        }
        return ;
    }
    if !is_expanded {
        state.sub_selection = SubSelection::Header;
        return ;
    }
    let setup_count = state.testlist.tests[state.selected_test].setup.len();
    match state.sub_selection {
        SubSelection::Header => {},
        SubSelection::Setup(i) => {
            if i > 0 {
                state.sub_selection = SubSelection::Setup(i - 1);
            } else {
                state.sub_selection = SubSelection::Header;
            }
        },
        SubSelection::Action => {
            if setup_count > 0 {
                state.sub_selection = SubSelection::Setup(setup_count - 1);
            } else {
                state.sub_selection = SubSelection::Header;
            }
        },
        SubSelection::Verify(i) => {
            if i > 0 {
                state.sub_selection = SubSelection::Verify(i - 1);
            } else {
                state.sub_selection = SubSelection::Action;
            }
        },
    }
}

/// Where the scroll offset lands so that the active row `row` is visible:
/// pulled up to `row` when the window starts below it, pushed down to show
/// `row` as the last visible line when the window ends at or above it,
/// unchanged otherwise.
pub open spec fn scroll_adjusted(row: int, offset: int, visible: int) -> int {
    if row < offset {
        row
    } else if row >= offset + visible {
        row - visible + 1
    } else {
        offset
    }
}

/// Move the scroll window so that the active row is inside it. When the
/// pane has any height, the active row ends up within
/// `[scroll_offset, scroll_offset + visible_height)`.
pub fn adjust_scroll(state: &mut AppState)
    requires
        old(state).wf(),
    ensures
        final(state).wf(),
        ({
            let row = row_of_selection(
                old(state).testlist.tests@,
                old(state).expanded_tests@,
                old(state).selected_test as int,
                old(state).sub_selection,
            );
            &&& *final(state) == (AppState {
                tests_scroll_offset: scroll_adjusted(
                    row,
                    old(state).tests_scroll_offset as int,
                    old(state).tests_visible_height as int,
                ) as usize,
                ..*old(state)
            })
            &&& (old(state).tests_visible_height > 0 ==> final(state).tests_scroll_offset <= row
                < final(state).tests_scroll_offset + old(state).tests_visible_height)
        }),
{
    proof {
        if old(state).testlist.tests@.len() > 0 {
            lemma_row_of_selection_lt_total(
                old(state).testlist.tests@,
                old(state).expanded_tests@,
                old(state).selected_test as int,
                old(state).sub_selection,
            );
        }
    }
    let selected = selected_line_number(state);
    let visible = state.tests_visible_height;
    if selected < state.tests_scroll_offset {
        state.tests_scroll_offset = selected;
    } else if selected - state.tests_scroll_offset >= visible {
        state.tests_scroll_offset = selected - visible + 1;
    }
}

/// Law: one step forward then one step backward returns to the starting
/// position whenever the forward step moved at all. (The forward step does
/// not move exactly at the final position of the list.) On a collapsed
/// test this asks the cursor to sit on the header, where every navigation
/// step leaves it.
pub proof fn lemma_next_then_prev(
    tests: Seq<Test>,
    expanded: Seq<String>,
    sel: usize,
    sub: SubSelection,
)
    requires
        tests.len() <= usize::MAX,
        tests.len() > 0 ==> {
            &&& (sel as int) < tests.len()
            &&& valid_sub(sub, tests[sel as int])
            &&& tests[sel as int].setup@.len() <= usize::MAX
            &&& tests[sel as int].verify@.len() <= usize::MAX
        },
        tests.len() > 0 && (sel as int) < tests.len() && !id_in(expanded, tests[sel as int].id@)
            ==> sub is Header,
    ensures
        ({
            let np = next_position(tests, expanded, sel, sub);
            np != (sel, sub) ==> prev_position(tests, expanded, np.0, np.1) == (sel, sub)
        }),
{
    if tests.len() > 0 {
        let t = tests[sel as int];
        let np = next_position(tests, expanded, sel, sub);
        if np != (sel, sub) {
            if !id_in(expanded, t.id@) {
                assert(prev_position(tests, expanded, np.0, np.1) == (sel, sub));
            } else {
                match sub {
                    SubSelection::Header => {
                        assert(prev_position(tests, expanded, np.0, np.1) == (sel, sub));
                    },
                    SubSelection::Setup(i) => {
                        assert(prev_position(tests, expanded, np.0, np.1) == (sel, sub));
                    },
                    SubSelection::Action => {
                        assert(prev_position(tests, expanded, np.0, np.1) == (sel, sub));
                    },
                    SubSelection::Verify(i) => {
                        assert(prev_position(tests, expanded, np.0, np.1) == (sel, sub));
                    },
                }
            }
        }
    }
}

/// Law: an expanded test with no setup and no verify items exposes only
/// its header and its action line: the forward step goes from the header
/// straight to the action, and from the action straight out of the test.
pub proof fn lemma_empty_body_positions(
    tests: Seq<Test>,
    expanded: Seq<String>,
    sel: usize,
)
    requires
        (sel as int) < tests.len(),
        id_in(expanded, tests[sel as int].id@),
        tests[sel as int].setup@.len() == 0,
        tests[sel as int].verify@.len() == 0,
    ensures
        next_position(tests, expanded, sel, SubSelection::Header) == (sel, SubSelection::Action),
        (sel as int) < tests.len() - 1 ==> next_position(tests, expanded, sel, SubSelection::Action)
            == (((sel + 1) as usize), SubSelection::Header),
        sel as int == tests.len() - 1 ==> next_position(tests, expanded, sel, SubSelection::Action)
            == (sel, SubSelection::Action),
{
}

} // verus!
