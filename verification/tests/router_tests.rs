use testlist::definition::{ChecklistItem, Meta, Test, Testlist};
use testlist::effect::Effect;
use testlist::results::{Status, TestlistResults};
use testlist::router::{handle_key, handle_mouse, key_bytes, Key, LayoutAreas, PaneRect};
use testlist::state::{AppState, FocusedPane, SubSelection};

fn make_test_state() -> AppState {
    let testlist = Testlist {
        meta: Meta {
            title: "Test".to_string(),
            description: "".to_string(),
            created: "".to_string(),
            version: "1".to_string(),
        },
        tests: vec![Test {
            id: "t1".to_string(),
            title: "Test 1".to_string(),
            description: "".to_string(),
            setup: vec![ChecklistItem { id: "s0".to_string(), text: "Step".to_string() }],
            action: "Do it".to_string(),
            verify: vec![ChecklistItem { id: "v0".to_string(), text: "Check".to_string() }],
            suggested_command: Some("echo hi".to_string()),
        }],
    };
    let results = TestlistResults::new_for_testlist(&testlist, "test.ron", "tester");
    AppState::new(testlist, results)
}

#[test]
fn test_status_key_works_after_notes_editing() {
    let mut state = make_test_state();

    // Initial state: Tests focused
    assert_eq!(state.focused_pane, FocusedPane::Tests);

    // Step 1: Press 'p' — should set status to Passed
    handle_key(&mut state, Key::Char('p'), false, false);
    assert_eq!(state.results.results[0].status, Status::Passed, "Initial 'p' should set Passed");

    // Step 2: Press 'n' — enter notes editing
    handle_key(&mut state, Key::Char('n'), false, false);
    assert!(state.editing_notes, "Should be in editing mode");
    assert_eq!(state.focused_pane, FocusedPane::Notes);

    // Step 3: Type some text
    handle_key(&mut state, Key::Char('h'), false, false);
    handle_key(&mut state, Key::Char('i'), false, false);
    assert_eq!(state.notes_input, "hi");

    // Step 4: Press Esc to save notes
    handle_key(&mut state, Key::Esc, false, false);
    assert!(!state.editing_notes, "Should exit editing mode after Esc");
    assert_eq!(state.focused_pane, FocusedPane::Tests, "Focus should return to Tests after Esc");

    // Verify notes were saved
    assert_eq!(state.results.results[0].notes, Some("hi".to_string()), "Notes should be saved");

    // Step 5: Press 'f' — should change status to Failed
    handle_key(&mut state, Key::Char('f'), false, false);
    assert_eq!(
        state.results.results[0].status,
        Status::Failed,
        "BUG: 'f' should work after notes editing — status should be Failed"
    );

    // Step 6: Press 'i' — should change status to Inconclusive
    handle_key(&mut state, Key::Char('i'), false, false);
    assert_eq!(
        state.results.results[0].status,
        Status::Inconclusive,
        "'i' should work after notes editing"
    );
}

#[test]
fn test_status_key_works_after_notes_then_navigate() {
    let mut state = make_test_state();

    // Edit notes
    handle_key(&mut state, Key::Char('n'), false, false);
    handle_key(&mut state, Key::Char('x'), false, false);
    handle_key(&mut state, Key::Esc, false, false);

    // Navigate down then back up (j then k)
    handle_key(&mut state, Key::Char('j'), false, false);
    handle_key(&mut state, Key::Char('k'), false, false);

    // There's only 1 test, so j does nothing (at boundary)
    assert_eq!(state.selected_test, 0);

    // Try status key
    handle_key(&mut state, Key::Char('p'), false, false);
    assert_eq!(
        state.results.results[0].status,
        Status::Passed,
        "'p' should work after notes + navigation"
    );
}

#[test]
fn quit_confirmation_flow() {
    // With unsaved changes, quit opens the dialog; cancelling returns to
    // the session without the terminate flag; confirming sets it.
    let mut state = make_test_state();
    state.dirty = true;
    handle_key(&mut state, Key::Char('q'), false, false);
    assert!(state.confirm_quit);
    assert!(!state.should_quit);

    // 'n' cancels back to the session.
    handle_key(&mut state, Key::Char('n'), false, false);
    assert!(!state.confirm_quit);
    assert!(!state.should_quit);

    // Quit again, then 'y' confirms: the session ends and saves.
    handle_key(&mut state, Key::Char('q'), false, false);
    handle_key(&mut state, Key::Char('y'), false, false);
    assert!(state.should_quit);
    assert!(state.save_on_quit);
}

#[test]
fn quit_dialog_selector_and_discard() {
    let mut state = make_test_state();
    state.dirty = true;
    handle_key(&mut state, Key::Char('q'), false, false);
    assert_eq!(state.quit_selection, 0);
    handle_key(&mut state, Key::Right, false, false);
    assert_eq!(state.quit_selection, 1);
    handle_key(&mut state, Key::Enter, false, false);
    assert!(state.should_quit);
    assert!(!state.save_on_quit, "Enter on the No answer quits without saving");
}

#[test]
fn quit_without_unsaved_changes_is_immediate() {
    let mut state = make_test_state();
    handle_key(&mut state, Key::Char('q'), false, false);
    assert!(!state.confirm_quit);
    assert!(state.should_quit);
}

#[test]
fn help_popup_consumes_keys_until_dismissed() {
    let mut state = make_test_state();
    handle_key(&mut state, Key::Char('?'), false, false);
    assert!(state.show_help);
    // Other keys are swallowed while help is shown.
    handle_key(&mut state, Key::Char('p'), false, false);
    assert_eq!(state.results.results[0].status, Status::Pending);
    handle_key(&mut state, Key::Esc, false, false);
    assert!(!state.show_help);
}

#[test]
fn terminal_focus_forwards_bytes_and_esc_leaves() {
    let mut state = make_test_state();
    state.focused_pane = FocusedPane::Terminal;

    let effects = handle_key(&mut state, Key::Char('x'), false, true);
    assert_eq!(effects, vec![Effect::SendTerminalBytes(b"x".to_vec())]);

    let effects = handle_key(&mut state, Key::Char('c'), true, true);
    assert_eq!(effects, vec![Effect::SendTerminalBytes(vec![3])]);

    let effects = handle_key(&mut state, Key::Enter, false, true);
    assert_eq!(effects, vec![Effect::SendTerminalBytes(b"\r".to_vec())]);

    let effects = handle_key(&mut state, Key::Up, false, true);
    assert_eq!(effects, vec![Effect::SendTerminalBytes(b"\x1b[A".to_vec())]);

    let effects = handle_key(&mut state, Key::Esc, false, true);
    assert!(effects.is_empty());
    assert_eq!(state.focused_pane, FocusedPane::Tests);
}

#[test]
fn terminal_keys_are_normal_keys_without_a_terminal() {
    let mut state = make_test_state();
    state.focused_pane = FocusedPane::Terminal;
    // Without an embedded terminal the router falls back to normal mode:
    // 'q' quits instead of being forwarded.
    let effects = handle_key(&mut state, Key::Char('q'), false, false);
    assert!(effects.is_empty());
    assert!(state.should_quit);
}

#[test]
fn key_byte_encodings() {
    assert_eq!(key_bytes(Key::Char('a'), false), Some(b"a".to_vec()));
    // Ctrl maps a letter to its ASCII control code: letter byte - 'a' + 1.
    assert_eq!(key_bytes(Key::Char('a'), true), Some(vec![1]));
    assert_eq!(key_bytes(Key::Char('z'), true), Some(vec![26]));
    assert_eq!(key_bytes(Key::Backspace, false), Some(vec![0x7f]));
    assert_eq!(key_bytes(Key::Delete, false), Some(b"\x1b[3~".to_vec()));
    assert_eq!(key_bytes(Key::Home, false), Some(b"\x1b[H".to_vec()));
    assert_eq!(key_bytes(Key::End, false), Some(b"\x1b[F".to_vec()));
    assert_eq!(key_bytes(Key::Left, false), Some(b"\x1b[D".to_vec()));
    assert_eq!(key_bytes(Key::Esc, false), None);
    assert_eq!(key_bytes(Key::Tab, false), None);
    // A multi-byte character comes out as its UTF-8 encoding.
    assert_eq!(key_bytes(Key::Char('é'), false), Some("é".as_bytes().to_vec()));
}

#[test]
fn save_key_emits_save_effect() {
    let mut state = make_test_state();
    let effects = handle_key(&mut state, Key::Char('w'), false, false);
    assert_eq!(effects, vec![Effect::SaveResults]);
}

#[test]
fn command_key_inserts_suggested_command() {
    let mut state = make_test_state();
    let effects = handle_key(&mut state, Key::Char('c'), false, true);
    assert_eq!(effects, vec![Effect::InsertTerminalCommand("echo hi".to_string())]);
    assert_eq!(state.focused_pane, FocusedPane::Terminal);

    // Without a terminal the key does nothing.
    let mut state = make_test_state();
    let effects = handle_key(&mut state, Key::Char('c'), false, false);
    assert!(effects.is_empty());
    assert_eq!(state.focused_pane, FocusedPane::Tests);
}

#[test]
fn space_toggles_checklist_item_under_cursor() {
    let mut state = make_test_state();
    state.expanded_tests.insert("t1".to_string());
    state.sub_selection = SubSelection::Setup(0);
    handle_key(&mut state, Key::Char(' '), false, false);
    assert_eq!(state.results.checklist_results.get("t1:setup:s0"), Some(true));
}

#[test]
fn enter_on_header_expands_and_collapses() {
    let mut state = make_test_state();
    handle_key(&mut state, Key::Enter, false, false);
    assert!(state.expanded_tests.contains("t1"));
    handle_key(&mut state, Key::Enter, false, false);
    assert!(!state.expanded_tests.contains("t1"));
}

fn make_areas() -> LayoutAreas {
    LayoutAreas {
        tests_pane: PaneRect { x: 0, y: 0, width: 40, height: 12 },
        notes_pane: PaneRect { x: 40, y: 0, width: 40, height: 12 },
        terminal_pane: PaneRect { x: 0, y: 12, width: 80, height: 10 },
    }
}

#[test]
fn mouse_click_focuses_and_selects() {
    let mut state = make_test_state();
    let areas = make_areas();
    // Click the notes pane: focus follows.
    handle_mouse(&mut state, 50, 3, &areas);
    assert_eq!(state.focused_pane, FocusedPane::Notes);
    // Click the terminal pane.
    handle_mouse(&mut state, 10, 15, &areas);
    assert_eq!(state.focused_pane, FocusedPane::Terminal);
    // Click the first test's header row (row 1 on screen: below the
    // border): the test is already selected, so the click toggles it.
    handle_mouse(&mut state, 5, 1, &areas);
    assert_eq!(state.focused_pane, FocusedPane::Tests);
    assert!(state.expanded_tests.contains("t1"));
    // A click on the expanded body selects the owning test (it already is
    // the selection, so it collapses again).
    handle_mouse(&mut state, 5, 3, &areas);
    assert!(!state.expanded_tests.contains("t1"));
}

#[test]
fn mouse_is_ignored_during_editing_modes() {
    let mut state = make_test_state();
    let areas = make_areas();
    state.editing_notes = true;
    handle_mouse(&mut state, 50, 3, &areas);
    assert_eq!(state.focused_pane, FocusedPane::Tests);
}
