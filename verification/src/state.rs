//! Core state types: pane focus, sub-selection within an expanded test,
//! the colour theme, and the whole mutable session state.

use vstd::prelude::*;

use crate::definition::Testlist;
use crate::idset::IdSet;
use crate::results::TestlistResults;
use crate::rows::{max_total_rows, valid_sub};

verus! {

/// Which pane currently holds input focus.
#[derive(Debug, Clone, Copy, PartialEq, Eq, Structural)]
pub enum FocusedPane {
    Tests,
    Notes,
    Terminal,
}

impl Default for FocusedPane {
    /// Focus starts on the tests pane.
    fn default() -> (r: Self)
        ensures
            r == FocusedPane::Tests,
    {
        FocusedPane::Tests
    }
}

impl FocusedPane {
    /// Cycle to the next pane: Tests, Notes, Terminal, and back to Tests.
    pub fn next(self) -> (r: Self)
        ensures
            r == self.next_spec(),
    {
        match self {
            FocusedPane::Tests => FocusedPane::Notes,
            FocusedPane::Notes => FocusedPane::Terminal,
            FocusedPane::Terminal => FocusedPane::Tests,
        }
    }

    /// The cycling order of the three panes.
    pub open spec fn next_spec(self) -> Self {
        match self {
            FocusedPane::Tests => FocusedPane::Notes,
            FocusedPane::Notes => FocusedPane::Terminal,
            FocusedPane::Terminal => FocusedPane::Tests,
        }
    }
}

/// The fine-grained cursor position inside an expanded test's body.
#[derive(Debug, Clone, Copy, PartialEq, Eq, Structural)]
pub enum SubSelection {
    /// The test header row itself.
    Header,
    /// A setup checklist item, by index.
    Setup(usize),
    /// The action line.
    Action,
    /// A verify checklist item, by index.
    Verify(usize),
}

/// Colour theme of the interface.
#[derive(Debug, Clone, Copy, PartialEq, Eq, Structural)]
pub enum Theme {
    Dark,
    Light,
}

impl Default for Theme {
    /// The dark theme is the initial theme.
    fn default() -> (r: Self)
        ensures
            r == Theme::Dark,
    {
        Theme::Dark
    }
}

impl Theme {
    /// The other theme.
    pub open spec fn toggle_spec(self) -> Self {
        match self {
            Theme::Dark => Theme::Light,
            Theme::Light => Theme::Dark,
        }
    }

    /// Switch between the dark and the light theme.
    pub fn toggle(self) -> (r: Self)
        ensures
            r == self.toggle_spec(),
    {
        match self {
            Theme::Dark => Theme::Light,
            Theme::Light => Theme::Dark,
        }
    }
}

/// The whole mutable state of an interactive session. The embedded
/// terminal is owned by the session driver and handed to the router only
/// as a presence flag plus a byte sink, so this state stays plain data.
pub struct AppState {
    pub testlist: Testlist,
    pub results: TestlistResults,
    /// Index of the active test; 0 when the list is empty.
    pub selected_test: usize,
    /// Cursor inside the active test's body; meaningful when expanded.
    pub sub_selection: SubSelection,
    pub focused_pane: FocusedPane,
    /// IDs of the tests currently showing their body.
    pub expanded_tests: IdSet,
    pub should_quit: bool,
    /// Cleared when the user resolves the quit dialog towards "discard".
    pub save_on_quit: bool,
    pub editing_notes: bool,
    pub notes_input: String,
    pub adding_screenshot: bool,
    pub screenshot_input: String,
    /// Last size handed to the embedded terminal, as (rows, cols).
    pub terminal_size: (u16, u16),
    pub tests_scroll_offset: usize,
    /// Height of the tests pane body, updated from the latest layout.
    pub tests_visible_height: usize,
    pub dirty: bool,
    pub confirm_quit: bool,
    /// Selector inside the quit dialog: 0 is "save and quit", 1 is "quit
    /// without saving".
    pub quit_selection: usize,
    pub show_help: bool,
    pub theme: Theme,
}

impl AppState {
    /// Well-formed session state: the selection points at an existing test
    /// and an existing sub-position, the collections keep their internal
    /// shape, and the testlist is small enough for row arithmetic.
    pub open spec fn wf(self) -> bool {
        &&& self.expanded_tests.wf()
        &&& self.results.checklist_results.wf()
        &&& (self.testlist.tests@.len() == 0 ==> self.selected_test == 0)
        &&& (self.testlist.tests@.len() > 0 ==> {
            &&& (self.selected_test as int) < self.testlist.tests@.len()
            &&& valid_sub(self.sub_selection, self.testlist.tests@[self.selected_test as int])
        })
        &&& self.quit_selection <= 1
        &&& max_total_rows(self.testlist.tests@) < usize::MAX
    }

    /// A fresh session over a testlist and its results: the first test is
    /// selected at its header, the tests pane has focus, nothing is
    /// expanded, and no mode is active.
    pub fn new(testlist: Testlist, results: TestlistResults) -> (r: Self)
        requires
            max_total_rows(testlist.tests@) < usize::MAX,
            results.checklist_results.wf(),
        ensures
            r.wf(),
            r.testlist == testlist,
            r.results == results,
            r.selected_test == 0,
            r.sub_selection == SubSelection::Header,
            r.focused_pane == FocusedPane::Tests,
            r.expanded_tests@.len() == 0,
            !r.should_quit,
            r.save_on_quit,
            !r.editing_notes,
            r.notes_input@.len() == 0,
            !r.adding_screenshot,
            r.screenshot_input@.len() == 0,
            r.terminal_size == (24u16, 80u16),
            r.tests_scroll_offset == 0,
            r.tests_visible_height == 20,
            !r.dirty,
            !r.confirm_quit,
            r.quit_selection == 0,
            !r.show_help,
            r.theme == Theme::Dark,
    {
        AppState {
            testlist,
            results,
            selected_test: 0,
            sub_selection: SubSelection::Header,
            focused_pane: FocusedPane::Tests,
            expanded_tests: IdSet::new(),
            should_quit: false,
            save_on_quit: true,
            editing_notes: false,
            notes_input: String::new(),
            adding_screenshot: false,
            screenshot_input: String::new(),
            terminal_size: (24, 80),
            tests_scroll_offset: 0,
            tests_visible_height: 20,
            dirty: false,
            confirm_quit: false,
            quit_selection: 0,
            show_help: false,
            theme: Theme::Dark,
        }
    }
}

} // verus!
