//! State transitions outside of pure navigation: pane focus, notes and
//! screenshot editing, expansion, status assignment, checklist toggling,
//! theme, and the quit dialog.

use vstd::prelude::*;

use crate::checklist_map::key_lookup;
use crate::clock::now_rfc3339;
use crate::idset::id_in;
use crate::results::{
    checklist_key, find_result_from, key_seq, lemma_find_result_bounds, ChecklistSection, Status,
    TestResult,
};
use crate::state::{AppState, FocusedPane, SubSelection};

verus! {

/// Whether a checklist key currently counts as checked: an absent key is
/// unchecked.
pub open spec fn checked_spec(m: Seq<(String, bool)>, k: Seq<char>) -> bool {
    match key_lookup(m, k) {
        Some(b) => b,
        None => false,
    }
}

/// A result entry with only its status changed, marked completed at some
/// moment.
pub open spec fn status_set(o: TestResult, n: TestResult, status: Status) -> bool {
    &&& n.test_id == o.test_id
    &&& n.status == status
    &&& n.notes == o.notes
    &&& n.screenshots == o.screenshots
    &&& n.completed_at is Some
    &&& n.setup_checked == o.setup_checked
    &&& n.verify_checked == o.verify_checked
}

/// A result entry with only its notes changed: cleared when the text is
/// empty, else set to the text.
pub open spec fn notes_set(o: TestResult, n: TestResult, text: Seq<char>) -> bool {
    &&& n.test_id == o.test_id
    &&& n.status == o.status
    &&& (text.len() == 0 ==> n.notes is None)
    &&& (text.len() > 0 ==> (n.notes matches Some(s) && s@ == text))
    &&& n.screenshots == o.screenshots
    &&& n.completed_at == o.completed_at
    &&& n.setup_checked == o.setup_checked
    &&& n.verify_checked == o.verify_checked
}

/// A result entry with one screenshot path appended.
pub open spec fn screenshot_added(o: TestResult, n: TestResult, path: Seq<char>) -> bool {
    &&& n.test_id == o.test_id
    &&& n.status == o.status
    &&& n.notes == o.notes
    &&& n.screenshots@.len() == o.screenshots@.len() + 1
    &&& n.screenshots@.subrange(0, o.screenshots@.len() as int) == o.screenshots@
    &&& n.screenshots@.last()@ == path
    &&& n.completed_at == o.completed_at
    &&& n.setup_checked == o.setup_checked
    &&& n.verify_checked == o.verify_checked
}

/// The ID of the selected test, when the selection points into the list.
pub open spec fn selected_id(s: AppState) -> Seq<char> {
    s.testlist.tests@[s.selected_test as int].id@
}

/// Whether the selection points at a test and that test has a result
/// entry.
pub open spec fn has_current_result(s: AppState) -> bool {
    &&& (s.selected_test as int) < s.testlist.tests@.len()
    &&& find_result_from(s.results.results@, selected_id(s), 0) is Some
}

/// Move focus to the next pane in the cycle.
pub fn cycle_focus(state: &mut AppState)
    ensures
        *final(state) == (AppState {
            focused_pane: old(state).focused_pane.next_spec(),
            ..*old(state)
        }),
{
    state.focused_pane = state.focused_pane.next();
}

/// Enter notes editing: load the selected test's notes into the edit
/// buffer, switch the mode on, and focus the notes pane. Without a
/// selected test with a result entry, nothing changes.
/// What entering notes editing does to the state.
pub open spec fn enter_notes_edit_rel(o: AppState, n: AppState) -> bool {
    &&& (!has_current_result(o) ==> n == o)
    &&& (has_current_result(o) ==> {
        let i = find_result_from(o.results.results@, selected_id(o), 0)->Some_0;
        &&& n == (AppState {
            notes_input: n.notes_input,
            editing_notes: true,
            focused_pane: FocusedPane::Notes,
            ..o
        })
        &&& n.notes_input@ == match o.results.results@[i].notes {
            Some(s) => s@,
            None => Seq::<char>::empty(),
        }
    })
}

pub fn enter_notes_edit(state: &mut AppState)
    ensures
        enter_notes_edit_rel(*old(state), *final(state)),
{
    match crate::queries::current_result(state) {
        Some(result) => {
            let notes = match &result.notes {
                Some(s) => s.clone(),
                None => String::new(),
            };
            state.notes_input = notes;
            state.editing_notes = true;
            state.focused_pane = FocusedPane::Notes;
        },
        None => {},
    }
}

/// Commit the notes buffer into the selected test's result (empty text
/// clears the notes), leave editing mode, and return focus to the tests
/// pane.
/// What committing the notes buffer does to the state.
pub open spec fn save_notes_rel(o: AppState, n: AppState) -> bool {
    &&& n == (AppState {
        results: n.results,
        dirty: n.dirty,
        editing_notes: false,
        focused_pane: FocusedPane::Tests,
        ..o
    })
    &&& n.results.meta == o.results.meta
    &&& n.results.checklist_results == o.results.checklist_results
    &&& (!has_current_result(o) ==> n.results == o.results && n.dirty == o.dirty)
    &&& (has_current_result(o) ==> {
        let i = find_result_from(o.results.results@, selected_id(o), 0)->Some_0;
        &&& n.dirty
        &&& n.results.results@ == o.results.results@.update(i, n.results.results@[i])
        &&& notes_set(o.results.results@[i], n.results.results@[i], o.notes_input@)
    })
}

pub fn save_notes(state: &mut AppState)
    ensures
        save_notes_rel(*old(state), *final(state)),
{
    let notes = if state.notes_input.is_empty() {
        None
    } else {
        Some(state.notes_input.clone())
    };
    let test_id = if state.selected_test < state.testlist.tests.len() {
        Some(state.testlist.tests[state.selected_test].id.clone())
    } else {
        None
    };
    match test_id {
        Some(test_id) => {
            match state.results.get_result_mut(test_id.as_str()) {
                Some(result) => {
                    proof {
                        lemma_find_result_bounds(old(state).results.results@, test_id@, 0);
                    }
                    result.notes = notes;
                    state.dirty = true;
                },
                None => {},
            }
        },
        None => {},
    }
    state.editing_notes = false;
    state.focused_pane = FocusedPane::Tests;
}

/// Begin screenshot-path entry for the selected test: clear the input,
/// switch the mode on, and focus the notes pane. Without a selected test,
/// nothing changes.
/// What beginning screenshot-path entry does to the state.
pub open spec fn start_screenshot_rel(o: AppState, n: AppState) -> bool {
    &&& (o.testlist.tests@.len() <= o.selected_test as int ==> n == o)
    &&& (o.testlist.tests@.len() > o.selected_test as int ==> n == (AppState {
        adding_screenshot: true,
        screenshot_input: n.screenshot_input,
        focused_pane: FocusedPane::Notes,
        ..o
    }) && n.screenshot_input@.len() == 0)
}

pub fn start_screenshot(state: &mut AppState)
    ensures
        start_screenshot_rel(*old(state), *final(state)),
{
    if state.selected_test < state.testlist.tests.len() {
        state.adding_screenshot = true;
        state.screenshot_input.clear();
        state.focused_pane = FocusedPane::Notes;
    }
}

/// Abandon screenshot-path entry and return focus to the tests pane.
/// What abandoning screenshot-path entry does to the state.
pub open spec fn cancel_screenshot_rel(o: AppState, n: AppState) -> bool {
    &&& n == (AppState {
        adding_screenshot: false,
        screenshot_input: n.screenshot_input,
        focused_pane: FocusedPane::Tests,
        ..o
    })
    &&& n.screenshot_input@.len() == 0
}

pub fn cancel_screenshot(state: &mut AppState)
    ensures
        cancel_screenshot_rel(*old(state), *final(state)),
{
    state.adding_screenshot = false;
    state.screenshot_input.clear();
    state.focused_pane = FocusedPane::Tests;
}

/// Commit the entered screenshot path to the selected test's result when
/// the path is non-empty, then leave the mode and return focus to the
/// tests pane.
/// What committing the entered screenshot path does to the state.
pub open spec fn confirm_screenshot_rel(o: AppState, n: AppState) -> bool {
    &&& n == (AppState {
        results: n.results,
        dirty: n.dirty,
        adding_screenshot: false,
        screenshot_input: n.screenshot_input,
        focused_pane: FocusedPane::Tests,
        ..o
    })
    &&& n.screenshot_input@.len() == 0
    &&& n.results.meta == o.results.meta
    &&& n.results.checklist_results == o.results.checklist_results
    &&& (o.screenshot_input@.len() == 0 || !has_current_result(o) ==> n.results == o.results
        && n.dirty == o.dirty)
    &&& (o.screenshot_input@.len() > 0 && has_current_result(o) ==> {
        let i = find_result_from(o.results.results@, selected_id(o), 0)->Some_0;
        &&& n.dirty
        &&& n.results.results@ == o.results.results@.update(i, n.results.results@[i])
        &&& screenshot_added(o.results.results@[i], n.results.results@[i], o.screenshot_input@)
    })
}

pub fn confirm_screenshot(state: &mut AppState)
    ensures
        confirm_screenshot_rel(*old(state), *final(state)),
{
    if !state.screenshot_input.is_empty() {
        let path = state.screenshot_input.clone();
        let test_id = if state.selected_test < state.testlist.tests.len() {
            Some(state.testlist.tests[state.selected_test].id.clone())
        } else {
            None
        };
        match test_id {
            Some(test_id) => {
                match state.results.get_result_mut(test_id.as_str()) {
                    Some(result) => {
                        proof {
                            lemma_find_result_bounds(old(state).results.results@, test_id@, 0);
                        }
                        let ghost oldshots = result.screenshots@;
                        result.screenshots.push(path);
                        state.dirty = true;
                        proof {
                            assert(result.screenshots@.subrange(0, oldshots.len() as int)
                                =~= oldshots);
                        }
                    },
                    None => {},
                }
            },
            None => {},
        }
    }
    state.adding_screenshot = false;
    state.screenshot_input.clear();
    state.focused_pane = FocusedPane::Tests;
}

/// Switch between the dark and the light theme.
pub fn toggle_theme(state: &mut AppState)
    ensures
        *final(state) == (AppState { theme: old(state).theme.toggle_spec(), ..*old(state) }),
{
    state.theme = state.theme.toggle();
}

/// Expand the selected test, or collapse it when it is already expanded.
/// Collapsing returns the cursor to the header, so the sub-selection can
/// never dangle into a hidden body.
/// What toggling expansion of the selected test does to the state.
pub open spec fn toggle_expand_rel(o: AppState, n: AppState) -> bool {
    &&& (o.testlist.tests@.len() <= o.selected_test as int ==> n == o)
    &&& (o.testlist.tests@.len() > o.selected_test as int ==> {
        let id = selected_id(o);
        &&& (id_in(o.expanded_tests@, id) ==> n == (AppState {
            expanded_tests: n.expanded_tests,
            sub_selection: SubSelection::Header,
            ..o
        }) && (forall|k: Seq<char>|
            id_in(n.expanded_tests@, k) <==> (id_in(o.expanded_tests@, k) && k != id)))
        &&& (!id_in(o.expanded_tests@, id) ==> n == (AppState {
            expanded_tests: n.expanded_tests,
            ..o
        }) && (forall|k: Seq<char>|
            id_in(n.expanded_tests@, k) <==> (id_in(o.expanded_tests@, k) || k == id)))
    })
}

pub fn toggle_expand(state: &mut AppState)
    requires
        old(state).wf(),
    ensures
        final(state).wf(),
        toggle_expand_rel(*old(state), *final(state)),
{
    if state.selected_test < state.testlist.tests.len() {
        let id = state.testlist.tests[state.selected_test].id.clone();
        if state.expanded_tests.contains(id.as_str()) {
            state.expanded_tests.remove(id.as_str());
            state.sub_selection = SubSelection::Header;
        } else {
            state.expanded_tests.insert(id);
        }
    }
}

/// Ask to quit: with unsaved changes the quit dialog opens, otherwise the
/// session ends right away.
/// What asking to quit does to the state: with unsaved changes the quit
/// dialog opens, otherwise the session ends right away.
pub open spec fn request_quit_rel(o: AppState, n: AppState) -> bool {
    if o.dirty {
        n == (AppState { confirm_quit: true, ..o })
    } else {
        n == (AppState { should_quit: true, ..o })
    }
}

pub fn request_quit(state: &mut AppState)
    ensures
        request_quit_rel(*old(state), *final(state)),
{
    if state.dirty {
        state.confirm_quit = true;
    } else {
        state.should_quit = true;
    }
}

/// Resolve the quit dialog towards saving: the session ends and the
/// results are persisted on the way out.
pub fn confirm_quit(state: &mut AppState)
    ensures
        *final(state) == (AppState { should_quit: true, ..*old(state) }),
{
    state.should_quit = true;
}

/// Resolve the quit dialog towards discarding: the session ends without
/// saving.
pub fn quit_without_saving(state: &mut AppState)
    ensures
        *final(state) == (AppState { should_quit: true, save_on_quit: false, ..*old(state) }),
{
    state.should_quit = true;
    state.save_on_quit = false;
}

/// Dismiss the quit dialog and stay in the session.
pub fn cancel_quit(state: &mut AppState)
    ensures
        *final(state) == (AppState { confirm_quit: false, ..*old(state) }),
{
    state.confirm_quit = false;
}

/// Record an outcome for the selected test and stamp its completion time.
/// Without a selected test with a result entry, nothing changes.
/// What recording an outcome for the selected test does to the state.
pub open spec fn set_status_rel(o: AppState, n: AppState, status: Status) -> bool {
    &&& n == (AppState { results: n.results, dirty: n.dirty, ..o })
    &&& n.results.meta == o.results.meta
    &&& n.results.checklist_results == o.results.checklist_results
    &&& (!has_current_result(o) ==> n.results == o.results && n.dirty == o.dirty)
    &&& (has_current_result(o) ==> {
        let i = find_result_from(o.results.results@, selected_id(o), 0)->Some_0;
        &&& n.dirty
        &&& n.results.results@ == o.results.results@.update(i, n.results.results@[i])
        &&& status_set(o.results.results@[i], n.results.results@[i], status)
    })
}

pub fn set_status(state: &mut AppState, status: Status)
    ensures
        set_status_rel(*old(state), *final(state), status),
{
    let test_id = if state.selected_test < state.testlist.tests.len() {
        Some(state.testlist.tests[state.selected_test].id.clone())
    } else {
        None
    };
    match test_id {
        Some(test_id) => {
            match state.results.get_result_mut(test_id.as_str()) {
                Some(result) => {
                    proof {
                        lemma_find_result_bounds(old(state).results.results@, test_id@, 0);
                    }
                    result.status = status;
                    result.completed_at = Some(now_rfc3339());
                    state.dirty = true;
                },
                None => {},
            }
        },
        None => {},
    }
}

/// Flip the check state of the checklist step under the cursor. On the
/// header or the action line nothing changes; a step that was never
/// touched counts as unchecked and becomes checked.
/// What flipping the checklist step under the cursor does to the state.
pub open spec fn toggle_checklist_rel(o: AppState, n: AppState) -> bool {
    &&& n == (AppState { results: n.results, dirty: n.dirty, ..o })
    &&& n.results.meta == o.results.meta
    &&& n.results.results == o.results.results
    &&& ((o.testlist.tests@.len() <= o.selected_test as int || o.sub_selection is Header
        || o.sub_selection is Action) ==> n == o)
    &&& (o.testlist.tests@.len() > o.selected_test as int ==> {
        let t = o.testlist.tests@[o.selected_test as int];
        &&& (o.sub_selection matches SubSelection::Setup(i) ==> checklist_flipped(
            o,
            n,
            key_seq(t.id@, ChecklistSection::Setup, t.setup@[i as int].id@),
        ))
        &&& (o.sub_selection matches SubSelection::Verify(i) ==> checklist_flipped(
            o,
            n,
            key_seq(t.id@, ChecklistSection::Verify, t.verify@[i as int].id@),
        ))
    })
}

/// The checklist map with exactly one key flipped, and the change marked
/// unsaved.
pub open spec fn checklist_flipped(o: AppState, n: AppState, key: Seq<char>) -> bool {
    &&& n.dirty
    &&& key_lookup(n.results.checklist_results@, key) == Some(
        !checked_spec(o.results.checklist_results@, key),
    )
    &&& forall|k: Seq<char>| k != key ==> key_lookup(n.results.checklist_results@, k)
        == key_lookup(o.results.checklist_results@, k)
}

pub fn toggle_checklist(state: &mut AppState)
    requires
        old(state).wf(),
    ensures
        final(state).wf(),
        toggle_checklist_rel(*old(state), *final(state)),
{
    if state.selected_test >= state.testlist.tests.len() {
        return ;
    }
    let key: Option<String> = {
        let t = &state.testlist.tests[state.selected_test];
        match state.sub_selection {
            SubSelection::Setup(i) => Some(
                checklist_key(t.id.as_str(), ChecklistSection::Setup, t.setup[i].id.as_str()),
            ),
            SubSelection::Verify(i) => Some(
                checklist_key(t.id.as_str(), ChecklistSection::Verify, t.verify[i].id.as_str()),
            ),
            _ => None,
        }
    };
    match key {
        Some(key) => {
            let current = match state.results.checklist_results.get(key.as_str()) {
                Some(b) => b,
                None => false,
            };
            state.results.checklist_results.insert(key, !current);
            state.dirty = true;
        },
        None => {},
    }
}

} // verus!
