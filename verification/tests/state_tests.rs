use testlist::state::{FocusedPane, SubSelection, Theme};

#[test]
fn test_theme_default_is_dark() {
    assert_eq!(Theme::default(), Theme::Dark);
}

#[test]
fn test_theme_toggle() {
    assert_eq!(Theme::Dark.toggle(), Theme::Light);
    assert_eq!(Theme::Light.toggle(), Theme::Dark);
}

#[test]
fn test_focused_pane_next() {
    assert_eq!(FocusedPane::Tests.next(), FocusedPane::Notes);
    assert_eq!(FocusedPane::Notes.next(), FocusedPane::Terminal);
    assert_eq!(FocusedPane::Terminal.next(), FocusedPane::Tests);
}

#[test]
fn test_focused_pane_default() {
    assert_eq!(FocusedPane::default(), FocusedPane::Tests);
}

#[test]
fn test_sub_selection_equality() {
    assert_eq!(SubSelection::Header, SubSelection::Header);
    assert_eq!(SubSelection::Setup(0), SubSelection::Setup(0));
    assert_ne!(SubSelection::Setup(0), SubSelection::Setup(1));
    assert_eq!(SubSelection::Action, SubSelection::Action);
    assert_eq!(SubSelection::Verify(2), SubSelection::Verify(2));
    assert_ne!(SubSelection::Setup(0), SubSelection::Verify(0));
}

#[test]
fn mod_test_theme_default_is_dark() {
    assert_eq!(Theme::default(), Theme::Dark);
}

#[test]
fn mod_test_theme_toggle() {
    assert_eq!(Theme::Dark.toggle(), Theme::Light);
    assert_eq!(Theme::Light.toggle(), Theme::Dark);
}

#[test]
fn mod_test_focused_pane_next() {
    assert_eq!(FocusedPane::Tests.next(), FocusedPane::Notes);
    assert_eq!(FocusedPane::Notes.next(), FocusedPane::Terminal);
    assert_eq!(FocusedPane::Terminal.next(), FocusedPane::Tests);
}

#[test]
fn mod_test_focused_pane_default() {
    assert_eq!(FocusedPane::default(), FocusedPane::Tests);
}

#[test]
fn mod_test_sub_selection_equality() {
    assert_eq!(SubSelection::Header, SubSelection::Header);
    assert_eq!(SubSelection::Setup(0), SubSelection::Setup(0));
    assert_ne!(SubSelection::Setup(0), SubSelection::Setup(1));
    assert_eq!(SubSelection::Action, SubSelection::Action);
    assert_eq!(SubSelection::Verify(2), SubSelection::Verify(2));
    assert_ne!(SubSelection::Setup(0), SubSelection::Verify(0));
}
