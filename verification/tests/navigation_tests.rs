use testlist::definition::{ChecklistItem, Meta, Test, Testlist};
use testlist::navigation::{adjust_scroll, select_next, select_prev};
use testlist::results::TestlistResults;
use testlist::state::{AppState, SubSelection};

fn make_state() -> AppState {
    let testlist = Testlist {
        meta: Meta {
            title: "Test".to_string(),
            description: "".to_string(),
            created: "".to_string(),
            version: "1".to_string(),
        },
        tests: vec![
            Test {
                id: "t1".to_string(),
                title: "Test 1".to_string(),
                description: "".to_string(),
                setup: vec![ChecklistItem { id: "s0".to_string(), text: "Step".to_string() }],
                action: "Do it".to_string(),
                verify: vec![ChecklistItem { id: "v0".to_string(), text: "Check".to_string() }],
                suggested_command: None,
            },
            Test {
                id: "t2".to_string(),
                title: "Test 2".to_string(),
                description: "".to_string(),
                setup: vec![],
                action: "Do it".to_string(),
                verify: vec![],
                suggested_command: None,
            },
        ],
    };
    let results = TestlistResults::new_for_testlist(&testlist, "test.ron", "tester");
    AppState::new(testlist, results)
}

#[test]
fn test_select_next_collapsed() {
    let mut state = make_state();
    assert_eq!(state.selected_test, 0);
    select_next(&mut state);
    assert_eq!(state.selected_test, 1);
    assert_eq!(state.sub_selection, SubSelection::Header);
}

#[test]
fn test_select_next_expanded() {
    let mut state = make_state();
    state.expanded_tests.insert("t1".to_string());
    // Header -> Setup(0)
    select_next(&mut state);
    assert_eq!(state.sub_selection, SubSelection::Setup(0));
    // Setup(0) -> Action
    select_next(&mut state);
    assert_eq!(state.sub_selection, SubSelection::Action);
    // Action -> Verify(0)
    select_next(&mut state);
    assert_eq!(state.sub_selection, SubSelection::Verify(0));
    // Verify(0) -> next test
    select_next(&mut state);
    assert_eq!(state.selected_test, 1);
    assert_eq!(state.sub_selection, SubSelection::Header);
}

#[test]
fn test_select_prev_to_expanded() {
    let mut state = make_state();
    state.expanded_tests.insert("t1".to_string());
    state.selected_test = 1;
    state.sub_selection = SubSelection::Header;
    // Should go to last item of expanded t1
    select_prev(&mut state);
    assert_eq!(state.selected_test, 0);
    assert_eq!(state.sub_selection, SubSelection::Verify(0));
}

#[test]
fn test_select_prev_at_top() {
    let mut state = make_state();
    select_prev(&mut state);
    assert_eq!(state.selected_test, 0);
    assert_eq!(state.sub_selection, SubSelection::Header);
}

#[test]
fn next_then_prev_returns_to_start() {
    let mut state = make_state();
    state.expanded_tests.insert("t1".to_string());
    // From Setup(0): one forward step, one backward step.
    select_next(&mut state);
    assert_eq!(state.sub_selection, SubSelection::Setup(0));
    select_next(&mut state);
    select_prev(&mut state);
    assert_eq!(state.selected_test, 0);
    assert_eq!(state.sub_selection, SubSelection::Setup(0));
    // Across a test boundary: Verify(0) -> t2 Header -> back.
    state.sub_selection = SubSelection::Verify(0);
    select_next(&mut state);
    assert_eq!(state.selected_test, 1);
    select_prev(&mut state);
    assert_eq!(state.selected_test, 0);
    assert_eq!(state.sub_selection, SubSelection::Verify(0));
}

#[test]
fn expanded_empty_body_exposes_header_and_action_only() {
    let mut state = make_state();
    // t2 has no setup and no verify items.
    state.expanded_tests.insert("t2".to_string());
    state.selected_test = 1;
    state.sub_selection = SubSelection::Header;
    select_next(&mut state);
    assert_eq!(state.sub_selection, SubSelection::Action);
    // t2 is the last test: the forward step past its action is a no-op.
    select_next(&mut state);
    assert_eq!(state.selected_test, 1);
    assert_eq!(state.sub_selection, SubSelection::Action);
}

#[test]
fn adjust_scroll_keeps_selection_visible() {
    let mut state = make_state();
    state.expanded_tests.insert("t1".to_string());
    state.tests_visible_height = 2;
    // Move to the action line of the expanded first test: rows are
    // header(0), "Setup:"(1), step(2), action(3), "Verify:"(4), check(5).
    state.sub_selection = SubSelection::Action;
    adjust_scroll(&mut state);
    assert_eq!(state.tests_scroll_offset, 2); // row 3 visible in [2, 4)
    // Back to the header: the window is pulled up to row 0.
    state.sub_selection = SubSelection::Header;
    adjust_scroll(&mut state);
    assert_eq!(state.tests_scroll_offset, 0);
}

#[test]
fn navigation_is_a_no_op_on_an_empty_list() {
    let testlist = Testlist {
        meta: Meta {
            title: "Empty".to_string(),
            description: "".to_string(),
            created: "".to_string(),
            version: "1".to_string(),
        },
        tests: vec![],
    };
    let results = TestlistResults::new_for_testlist(&testlist, "test.ron", "tester");
    let mut state = AppState::new(testlist, results);
    select_next(&mut state);
    select_prev(&mut state);
    adjust_scroll(&mut state);
    assert_eq!(state.selected_test, 0);
    assert_eq!(state.sub_selection, SubSelection::Header);
    assert_eq!(state.tests_scroll_offset, 0);
}
