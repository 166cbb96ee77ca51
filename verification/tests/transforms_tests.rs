use testlist::definition::{ChecklistItem, Meta, Test, Testlist};
use testlist::results::{Status, TestlistResults};
use testlist::state::{AppState, FocusedPane, SubSelection};
use testlist::transforms::{
    cancel_screenshot, confirm_screenshot, enter_notes_edit, save_notes, set_status,
    start_screenshot, toggle_checklist,
};

fn make_state() -> AppState {
    let testlist = Testlist {
        meta: Meta {
            title: "Test".to_string(),
            description: "".to_string(),
            created: "".to_string(),
            version: "1".to_string(),
        },
        tests: vec![Test {
            id: "t1".to_string(),
            title: "Test 1".to_string(),
            description: "".to_string(),
            setup: vec![ChecklistItem { id: "s0".to_string(), text: "Step".to_string() }],
            action: "Do it".to_string(),
            verify: vec![ChecklistItem { id: "v0".to_string(), text: "Check".to_string() }],
            suggested_command: None,
        }],
    };
    let results = TestlistResults::new_for_testlist(&testlist, "test.ron", "tester");
    AppState::new(testlist, results)
}

#[test]
fn test_set_status() {
    let mut state = make_state();
    set_status(&mut state, Status::Passed);
    assert_eq!(state.results.results[0].status, Status::Passed);
    assert!(state.results.results[0].completed_at.is_some());
    assert!(state.dirty);
}

#[test]
fn test_toggle_checklist_setup() {
    let mut state = make_state();
    state.sub_selection = SubSelection::Setup(0);
    // Expand the test so sub_selection is valid
    state.expanded_tests.insert("t1".to_string());

    toggle_checklist(&mut state);
    assert_eq!(state.results.checklist_results.get("t1:setup:s0"), Some(true));
    assert!(state.dirty);

    // Toggle again
    state.dirty = false;
    toggle_checklist(&mut state);
    assert_eq!(state.results.checklist_results.get("t1:setup:s0"), Some(false));
    assert!(state.dirty);
}

#[test]
fn test_toggle_checklist_verify() {
    let mut state = make_state();
    state.sub_selection = SubSelection::Verify(0);
    toggle_checklist(&mut state);
    assert_eq!(state.results.checklist_results.get("t1:verify:v0"), Some(true));
}

#[test]
fn test_toggle_checklist_header_noop() {
    let mut state = make_state();
    state.sub_selection = SubSelection::Header;
    toggle_checklist(&mut state);
    assert!(!state.dirty);
}

// After editing notes (enter, type, commit), focus must return to the tests
// pane so that status keys work immediately.

#[test]
fn test_bug1_notes_edit_then_status_key() {
    let mut state = make_state();
    assert_eq!(state.focused_pane, FocusedPane::Tests);
    assert_eq!(state.sub_selection, SubSelection::Header);

    // User opens the notes editor
    enter_notes_edit(&mut state);
    assert_eq!(state.focused_pane, FocusedPane::Notes);
    assert!(state.editing_notes);

    // User types some notes
    state.notes_input.push_str("looks good");

    // User commits
    save_notes(&mut state);
    assert!(!state.editing_notes);
    assert_eq!(
        state.focused_pane,
        FocusedPane::Tests,
        "BUG 1: Focus must return to Tests after notes Esc"
    );

    // A status key now works because focus is Tests + Header
    assert_eq!(state.sub_selection, SubSelection::Header);
    set_status(&mut state, Status::Passed);
    assert_eq!(
        state.results.results[0].status,
        Status::Passed,
        "BUG 1: Status key must work after exiting notes"
    );
}

#[test]
fn test_bug1_screenshot_cancel_then_status_key() {
    let mut state = make_state();

    // User starts adding a screenshot
    start_screenshot(&mut state);
    assert_eq!(state.focused_pane, FocusedPane::Notes);
    assert!(state.adding_screenshot);

    // User cancels
    cancel_screenshot(&mut state);
    assert!(!state.adding_screenshot);
    assert_eq!(
        state.focused_pane,
        FocusedPane::Tests,
        "BUG 1: Focus must return to Tests after screenshot Esc"
    );

    // Status key should work
    set_status(&mut state, Status::Failed);
    assert_eq!(state.results.results[0].status, Status::Failed);
}

#[test]
fn test_bug1_screenshot_confirm_then_status_key() {
    let mut state = make_state();

    // User starts adding a screenshot
    start_screenshot(&mut state);
    state.screenshot_input = "/tmp/screenshot.png".to_string();

    // User confirms
    confirm_screenshot(&mut state);
    assert!(!state.adding_screenshot);
    assert_eq!(
        state.focused_pane,
        FocusedPane::Tests,
        "BUG 1: Focus must return to Tests after screenshot Enter"
    );

    // Status key should work
    set_status(&mut state, Status::Inconclusive);
    assert_eq!(state.results.results[0].status, Status::Inconclusive);

    // Screenshot was actually saved
    assert_eq!(state.results.results[0].screenshots.len(), 1);
}

#[test]
fn save_notes_with_empty_buffer_clears_notes() {
    let mut state = make_state();
    enter_notes_edit(&mut state);
    state.notes_input.push_str("temp");
    save_notes(&mut state);
    assert_eq!(state.results.results[0].notes, Some("temp".to_string()));
    enter_notes_edit(&mut state);
    assert_eq!(state.notes_input, "temp");
    state.notes_input.clear();
    save_notes(&mut state);
    assert_eq!(state.results.results[0].notes, None);
}

#[test]
fn confirm_screenshot_with_empty_path_adds_nothing() {
    let mut state = make_state();
    start_screenshot(&mut state);
    confirm_screenshot(&mut state);
    assert!(state.results.results[0].screenshots.is_empty());
    assert!(!state.dirty);
}
