//! The focus-aware input router: one key or mouse event goes in, the state
//! changes and a list of effects for the session driver comes out.
//!
//! Five mutually exclusive modes are checked in a fixed priority order on
//! every key: the quit dialog, the help popup, notes editing, screenshot
//! path entry, and normal dispatch. Normal dispatch further depends on
//! which pane has focus. Status keys act whenever the tests pane has
//! focus, on whatever test is selected, regardless of the sub-position;
//! a mouse click on an expanded test's body selects the owning test.

use vstd::prelude::*;

use crate::effect::Effect;
use crate::navigation::{next_position, prev_position, select_next, select_prev};
use crate::queries::map_y_to_test_index;
use crate::results::Status;
use crate::rows::map_y_spec;
use crate::state::{AppState, FocusedPane, SubSelection};
use crate::term::{char_bytes, ctrl_byte, ctrl_code};
use crate::transforms::{
    cancel_quit, cancel_screenshot, cancel_screenshot_rel, confirm_quit, confirm_screenshot,
    confirm_screenshot_rel, cycle_focus, enter_notes_edit, enter_notes_edit_rel, quit_without_saving,
    request_quit, request_quit_rel, save_notes, save_notes_rel, set_status, set_status_rel,
    start_screenshot, start_screenshot_rel, toggle_checklist, toggle_checklist_rel, toggle_expand,
    toggle_expand_rel,
};

verus! {

/// A keyboard key as the router sees it, already freed from any backend's
/// event type. `Other` stands for every key the application ignores.
#[derive(Debug, Clone, Copy, PartialEq, Eq, Structural)]
pub enum Key {
    Char(char),
    Enter,
    Esc,
    Tab,
    Backspace,
    Delete,
    Up,
    Down,
    Left,
    Right,
    Home,
    End,
    Other,
}

/// The escape sequence sent to the terminal for each special key, or
/// `None` for keys that never reach the terminal.
pub open spec fn fixed_key_bytes(key: Key) -> Option<Seq<u8>> {
    match key {
        Key::Enter => Some(seq![13u8]),
        Key::Backspace => Some(seq![127u8]),
        Key::Delete => Some(seq![27u8, 91u8, 51u8, 126u8]),
        Key::Up => Some(seq![27u8, 91u8, 65u8]),
        Key::Down => Some(seq![27u8, 91u8, 66u8]),
        Key::Right => Some(seq![27u8, 91u8, 67u8]),
        Key::Left => Some(seq![27u8, 91u8, 68u8]),
        Key::Home => Some(seq![27u8, 91u8, 72u8]),
        Key::End => Some(seq![27u8, 91u8, 70u8]),
        _ => None,
    }
}

/// Encode one key for the embedded terminal: a plain character becomes its
/// UTF-8 bytes, a character with Ctrl held becomes its ASCII control byte,
/// and the special keys become their escape sequences.
pub fn key_bytes(key: Key, ctrl: bool) -> (r: Option<Vec<u8>>)
    ensures
        key matches Key::Char(c) ==> {
            &&& (ctrl ==> (r matches Some(b) && b@ == seq![ctrl_code(c)]))
            &&& (!ctrl ==> (r matches Some(b) && 1 <= b@.len() <= 4 && vstd::utf8::valid_utf8(b@)
                && vstd::utf8::decode_utf8(b@) == seq![c] && ((c as u32) < 128 ==> b@ == seq![
                c as u8,
            ])))
        },
        !(key is Char) ==> match fixed_key_bytes(key) {
            Some(s) => r matches Some(b) && b@ == s,
            None => r is None,
        },
{
    match key {
        Key::Char(c) => {
            if ctrl {
                let mut v: Vec<u8> = Vec::new();
                v.push(ctrl_byte(c));
                proof {
                    assert(v@ =~= seq![ctrl_code(c)]);
                }
                Some(v)
            } else {
                Some(char_bytes(c))
            }
        },
        Key::Enter => Some(byte_seq1(13)),
        Key::Backspace => Some(byte_seq1(127)),
        Key::Delete => {
            let mut v = byte_seq3(27, 91, 51);
            v.push(126);
            proof {
                assert(v@ =~= seq![27u8, 91u8, 51u8, 126u8]);
            }
            Some(v)
        },
        Key::Up => Some(byte_seq3(27, 91, 65)),
        Key::Down => Some(byte_seq3(27, 91, 66)),
        Key::Right => Some(byte_seq3(27, 91, 67)),
        Key::Left => Some(byte_seq3(27, 91, 68)),
        Key::Home => Some(byte_seq3(27, 91, 72)),
        Key::End => Some(byte_seq3(27, 91, 70)),
        _ => None,
    }
}

/// A one-byte sequence.
fn byte_seq1(a: u8) -> (r: Vec<u8>)
    ensures
        r@ == seq![a],
{
    let mut v: Vec<u8> = Vec::new();
    v.push(a);
    proof {
        assert(v@ =~= seq![a]);
    }
    v
}

/// A three-byte sequence.
fn byte_seq3(a: u8, b: u8, c: u8) -> (r: Vec<u8>)
    ensures
        r@ == seq![a, b, c],
{
    let mut v: Vec<u8> = Vec::new();
    v.push(a);
    v.push(b);
    v.push(c);
    proof {
        assert(v@ =~= seq![a, b, c]);
    }
    v
}

/// How a key resolves the quit dialog: arrows and vi keys move the yes/no
/// selector, Enter takes the selected answer, `y` saves and quits, `n` and
/// Esc stay in the session.
pub open spec fn quit_dialog_rel(o: AppState, n: AppState, key: Key) -> bool {
    match key {
        Key::Left => n == (AppState { quit_selection: 0usize, ..o }),
        Key::Right => n == (AppState { quit_selection: 1usize, ..o }),
        Key::Enter => if o.quit_selection == 0 {
            n == (AppState { should_quit: true, ..o })
        } else {
            n == (AppState { should_quit: true, save_on_quit: false, ..o })
        },
        Key::Esc => n == (AppState { confirm_quit: false, ..o }),
        Key::Char(c) => if c == 'h' {
            n == (AppState { quit_selection: 0usize, ..o })
        } else if c == 'l' {
            n == (AppState { quit_selection: 1usize, ..o })
        } else if c == 'y' || c == 'Y' {
            n == (AppState { should_quit: true, ..o })
        } else if c == 'n' || c == 'N' {
            n == (AppState { confirm_quit: false, ..o })
        } else {
            n == o
        },
        _ => n == o,
    }
}

/// The help popup consumes only its dismiss keys.
pub open spec fn help_rel(o: AppState, n: AppState, key: Key) -> bool {
    match key {
        Key::Esc => n == (AppState { show_help: false, ..o }),
        Key::Char(c) => if c == '?' {
            n == (AppState { show_help: false, ..o })
        } else {
            n == o
        },
        _ => n == o,
    }
}

/// Notes editing: characters append, Enter appends a newline, Backspace
/// removes the last character, Esc commits the buffer and leaves the mode.
pub open spec fn notes_mode_rel(o: AppState, n: AppState, key: Key) -> bool {
    match key {
        Key::Esc => save_notes_rel(o, n),
        Key::Enter => n == (AppState { notes_input: n.notes_input, ..o }) && n.notes_input@
            == o.notes_input@.push('\n'),
        Key::Backspace => n == (AppState { notes_input: n.notes_input, ..o }) && n.notes_input@
            == if o.notes_input@.len() > 0 {
            o.notes_input@.drop_last()
        } else {
            o.notes_input@
        },
        Key::Char(c) => n == (AppState { notes_input: n.notes_input, ..o }) && n.notes_input@
            == o.notes_input@.push(c),
        _ => n == o,
    }
}

/// Screenshot-path entry: same editing as notes, but Enter commits the
/// path and Esc discards it, both leaving the mode.
pub open spec fn screenshot_mode_rel(o: AppState, n: AppState, key: Key) -> bool {
    match key {
        Key::Esc => cancel_screenshot_rel(o, n),
        Key::Enter => confirm_screenshot_rel(o, n),
        Key::Backspace => n == (AppState { screenshot_input: n.screenshot_input, ..o })
            && n.screenshot_input@ == if o.screenshot_input@.len() > 0 {
            o.screenshot_input@.drop_last()
        } else {
            o.screenshot_input@
        },
        Key::Char(c) => n == (AppState { screenshot_input: n.screenshot_input, ..o })
            && n.screenshot_input@ == o.screenshot_input@.push(c),
        _ => n == o,
    }
}

/// The bytes that one key press forwards to the terminal.
pub open spec fn sent_key_bytes(key: Key, ctrl: bool, effects: Seq<Effect>) -> bool {
    match key {
        Key::Char(c) => effects.len() == 1 && (effects[0] matches Effect::SendTerminalBytes(b) && (
        ctrl ==> b@ == seq![ctrl_code(c)]) && (!ctrl ==> vstd::utf8::decode_utf8(b@) == seq![c] && 1
            <= b@.len() <= 4 && ((c as u32) < 128 ==> b@ == seq![c as u8]))),
        _ => match fixed_key_bytes(key) {
            Some(s) => effects.len() == 1 && (effects[0] matches Effect::SendTerminalBytes(b) && b@
                == s),
            None => effects.len() == 0,
        },
    }
}

/// With the terminal focused, Esc returns focus to the tests pane and Tab
/// cycles it, both without touching the terminal; every other key is
/// translated and forwarded as bytes.
pub open spec fn terminal_key_rel(
    o: AppState,
    n: AppState,
    key: Key,
    ctrl: bool,
    effects: Seq<Effect>,
) -> bool {
    match key {
        Key::Esc => effects.len() == 0 && n == (AppState {
            focused_pane: FocusedPane::Tests,
            ..o
        }),
        Key::Tab => effects.len() == 0 && n == (AppState {
            focused_pane: o.focused_pane.next_spec(),
            ..o
        }),
        _ => n == o && sent_key_bytes(key, ctrl, effects),
    }
}

/// Moving down in the tests pane, when it has focus.
pub open spec fn nav_next_rel(o: AppState, n: AppState) -> bool {
    if o.focused_pane is Tests {
        let np = next_position(o.testlist.tests@, o.expanded_tests@, o.selected_test, o.sub_selection);
        n == (AppState { selected_test: np.0, sub_selection: np.1, ..o })
    } else {
        n == o
    }
}

/// Moving up in the tests pane, when it has focus.
pub open spec fn nav_prev_rel(o: AppState, n: AppState) -> bool {
    if o.focused_pane is Tests {
        let np = prev_position(o.testlist.tests@, o.expanded_tests@, o.selected_test, o.sub_selection);
        n == (AppState { selected_test: np.0, sub_selection: np.1, ..o })
    } else {
        n == o
    }
}

/// Enter and Space in the tests pane: on the header they toggle expansion,
/// on a setup or verify step they toggle its check box, on the action line
/// they do nothing.
pub open spec fn expand_or_toggle_rel(o: AppState, n: AppState) -> bool {
    if o.focused_pane is Tests {
        match o.sub_selection {
            SubSelection::Header => toggle_expand_rel(o, n),
            SubSelection::Setup(_) => toggle_checklist_rel(o, n),
            SubSelection::Verify(_) => toggle_checklist_rel(o, n),
            SubSelection::Action => n == o,
        }
    } else {
        n == o
    }
}

/// The `c` key: with an embedded terminal present and a suggested command
/// on the selected test, the command is typed into the terminal and the
/// terminal takes focus; otherwise nothing happens.
pub open spec fn run_command_rel(
    o: AppState,
    n: AppState,
    has_terminal: bool,
    effects: Seq<Effect>,
) -> bool {
    let has_cmd = (o.selected_test as int) < o.testlist.tests@.len()
        && o.testlist.tests@[o.selected_test as int].suggested_command is Some;
    if has_cmd && has_terminal {
        &&& effects.len() == 1
        &&& (effects[0] matches Effect::InsertTerminalCommand(cmd) && cmd@ == o.testlist.tests@[
            o.selected_test as int
        ].suggested_command->Some_0@)
        &&& n == (AppState { focused_pane: FocusedPane::Terminal, ..o })
    } else {
        effects.len() == 0 && n == o
    }
}

/// Normal-mode dispatch of a character key.
pub open spec fn normal_char_rel(
    o: AppState,
    n: AppState,
    c: char,
    has_terminal: bool,
    effects: Seq<Effect>,
) -> bool {
    if c == 'q' {
        effects.len() == 0 && request_quit_rel(o, n)
    } else if c == 'k' {
        effects.len() == 0 && nav_prev_rel(o, n)
    } else if c == 'j' {
        effects.len() == 0 && nav_next_rel(o, n)
    } else if c == 'l' || c == ' ' {
        effects.len() == 0 && expand_or_toggle_rel(o, n)
    } else if c == 'n' {
        effects.len() == 0 && if o.focused_pane is Tests {
            enter_notes_edit_rel(o, n)
        } else {
            n == o
        }
    } else if c == 'a' {
        effects.len() == 0 && if o.focused_pane is Tests {
            start_screenshot_rel(o, n)
        } else {
            n == o
        }
    } else if c == 'p' {
        effects.len() == 0 && if o.focused_pane is Tests {
            set_status_rel(o, n, Status::Passed)
        } else {
            n == o
        }
    } else if c == 'f' {
        effects.len() == 0 && if o.focused_pane is Tests {
            set_status_rel(o, n, Status::Failed)
        } else {
            n == o
        }
    } else if c == 'i' {
        effects.len() == 0 && if o.focused_pane is Tests {
            set_status_rel(o, n, Status::Inconclusive)
        } else {
            n == o
        }
    } else if c == 's' {
        effects.len() == 0 && if o.focused_pane is Tests {
            set_status_rel(o, n, Status::Skipped)
        } else {
            n == o
        }
    } else if c == 'c' {
        run_command_rel(o, n, has_terminal, effects)
    } else if c == 't' {
        effects.len() == 0 && n == (AppState { theme: o.theme.toggle_spec(), ..o })
    } else if c == '?' {
        effects.len() == 0 && n == (AppState { show_help: true, ..o })
    } else if c == 'w' {
        effects =~= seq![Effect::SaveResults] && n == o
    } else {
        effects.len() == 0 && n == o
    }
}

/// Normal-mode dispatch of any key.
pub open spec fn normal_key_rel(
    o: AppState,
    n: AppState,
    key: Key,
    has_terminal: bool,
    effects: Seq<Effect>,
) -> bool {
    match key {
        Key::Char(c) => normal_char_rel(o, n, c, has_terminal, effects),
        Key::Tab => effects.len() == 0 && n == (AppState {
            focused_pane: o.focused_pane.next_spec(),
            ..o
        }),
        Key::Up => effects.len() == 0 && nav_prev_rel(o, n),
        Key::Down => effects.len() == 0 && nav_next_rel(o, n),
        Key::Enter => effects.len() == 0 && expand_or_toggle_rel(o, n),
        _ => effects.len() == 0 && n == o,
    }
}

/// The whole routing of one key event, mode by mode in priority order.
pub open spec fn route_key_rel(
    o: AppState,
    n: AppState,
    key: Key,
    ctrl: bool,
    has_terminal: bool,
    effects: Seq<Effect>,
) -> bool {
    if o.confirm_quit {
        effects.len() == 0 && quit_dialog_rel(o, n, key)
    } else if o.show_help {
        effects.len() == 0 && help_rel(o, n, key)
    } else if o.editing_notes {
        effects.len() == 0 && notes_mode_rel(o, n, key)
    } else if o.adding_screenshot {
        effects.len() == 0 && screenshot_mode_rel(o, n, key)
    } else if o.focused_pane is Terminal && has_terminal {
        terminal_key_rel(o, n, key, ctrl, effects)
    } else {
        normal_key_rel(o, n, key, has_terminal, effects)
    }
}

/// One pane's rectangle on the screen, in terminal cells.
#[derive(Debug, Clone, Copy, PartialEq, Eq, Structural)]
pub struct PaneRect {
    pub x: u16,
    pub y: u16,
    pub width: u16,
    pub height: u16,
}

/// Whether a point lies inside a pane's rectangle.
pub open spec fn rect_contains(r: PaneRect, x: u16, y: u16) -> bool {
    &&& r.x <= x < r.x + r.width
    &&& r.y <= y < r.y + r.height
}

impl PaneRect {
    /// Whether the point `(x, y)` lies inside this rectangle.
    pub fn contains(&self, x: u16, y: u16) -> (r: bool)
        ensures
            r == rect_contains(*self, x, y),
    {
        let x32 = x as u32;
        let y32 = y as u32;
        x32 >= self.x as u32 && x32 < self.x as u32 + self.width as u32 && y32 >= self.y as u32
            && y32 < self.y as u32 + self.height as u32
    }
}

/// The three pane rectangles of the latest drawn frame, kept to route
/// mouse clicks and to notice terminal-pane resizes.
#[derive(Debug, Clone, Copy, PartialEq, Eq, Structural)]
pub struct LayoutAreas {
    pub tests_pane: PaneRect,
    pub notes_pane: PaneRect,
    pub terminal_pane: PaneRect,
}

/// The absolute tests-pane row that a click at screen row `y` lands on:
/// the row inside the pane body (below the border) plus the scroll
/// offset, clamped to the machine's range.
pub open spec fn click_row(o: AppState, areas: LayoutAreas, y: u16) -> int {
    let rel = if y >= areas.tests_pane.y + 1 {
        y - (areas.tests_pane.y + 1)
    } else {
        0
    };
    if rel + o.tests_scroll_offset <= usize::MAX {
        rel + o.tests_scroll_offset
    } else {
        usize::MAX as int
    }
}

/// What a primary click at `(x, y)` does. During editing modes and dialogs
/// clicks are ignored. A click inside a pane focuses it; inside the tests
/// pane it additionally selects the test owning the clicked row — the rows
/// of an expanded body belong to their test — or toggles expansion when
/// that test was already selected.
pub open spec fn mouse_rel(o: AppState, n: AppState, x: u16, y: u16, areas: LayoutAreas) -> bool {
    if o.editing_notes || o.adding_screenshot || o.confirm_quit || o.show_help {
        n == o
    } else if rect_contains(areas.tests_pane, x, y) {
        match map_y_spec(o.testlist.tests@, o.expanded_tests@, click_row(o, areas, y)) {
            Some(i) => if i == o.selected_test as int {
                toggle_expand_rel((AppState { focused_pane: FocusedPane::Tests, ..o }), n)
            } else {
                n == (AppState {
                    focused_pane: FocusedPane::Tests,
                    selected_test: i as usize,
                    sub_selection: SubSelection::Header,
                    ..o
                })
            },
            None => n == (AppState { focused_pane: FocusedPane::Tests, ..o }),
        }
    } else if rect_contains(areas.notes_pane, x, y) {
        n == (AppState { focused_pane: FocusedPane::Notes, ..o })
    } else if rect_contains(areas.terminal_pane, x, y) {
        n == (AppState { focused_pane: FocusedPane::Terminal, ..o })
    } else {
        n == o
    }
}

/// Route one primary mouse click. The caller filters the event kind: only
/// a left-button press reaches this function.
pub fn handle_mouse(state: &mut AppState, x: u16, y: u16, areas: &LayoutAreas)
    requires
        old(state).wf(),
    ensures
        final(state).wf(),
        mouse_rel(*old(state), *final(state), x, y, *areas),
{
    if state.editing_notes || state.adding_screenshot || state.confirm_quit || state.show_help {
        return ;
    }
    if areas.tests_pane.contains(x, y) {
        state.focused_pane = FocusedPane::Tests;
        let top = areas.tests_pane.y.saturating_add(1);
        let relative_y = y.saturating_sub(top);
        let absolute_y = (relative_y as usize).saturating_add(state.tests_scroll_offset);
        proof {
            if areas.tests_pane.y as int + 1 <= u16::MAX {
                assert(top == areas.tests_pane.y + 1);
            } else {
                assert(areas.tests_pane.y == u16::MAX && top == u16::MAX);
                assert(y < areas.tests_pane.y + 1);
            }
            assert(absolute_y as int == click_row(*old(state), *areas, y));
        }
        match map_y_to_test_index(state, absolute_y) {
            Some(test_idx) => {
                if test_idx == state.selected_test {
                    toggle_expand(state);
                } else {
                    state.selected_test = test_idx;
                    state.sub_selection = SubSelection::Header;
                }
            },
            None => {},
        }
    } else if areas.notes_pane.contains(x, y) {
        state.focused_pane = FocusedPane::Notes;
    } else if areas.terminal_pane.contains(x, y) {
        state.focused_pane = FocusedPane::Terminal;
    }
}

/// The inner height or width of a bordered pane: two cells go to the
/// border.
pub open spec fn inner_size(outer: u16) -> u16 {
    if outer >= 2 {
        (outer - 2) as u16
    } else {
        0
    }
}

/// Take the derived sizes of a freshly drawn frame into the state: the
/// tests pane's visible height, and the terminal pane's inner size. The
/// result says which size the embedded terminal must be given now, or
/// `None` when its size is unchanged.
pub fn apply_layout(state: &mut AppState, areas: &LayoutAreas) -> (resize: Option<(u16, u16)>)
    requires
        old(state).wf(),
    ensures
        final(state).wf(),
        *final(state) == (AppState {
            tests_visible_height: inner_size(areas.tests_pane.height) as usize,
            terminal_size: (
                inner_size(areas.terminal_pane.height),
                inner_size(areas.terminal_pane.width),
            ),
            ..*old(state)
        }),
        resize == if (
            inner_size(areas.terminal_pane.height),
            inner_size(areas.terminal_pane.width),
        ) != old(state).terminal_size {
            Some(
                (inner_size(areas.terminal_pane.height), inner_size(areas.terminal_pane.width)),
            )
        } else {
            None::<(u16, u16)>
        },
{
    state.tests_visible_height = areas.tests_pane.height.saturating_sub(2) as usize;
    let new_rows = areas.terminal_pane.height.saturating_sub(2);
    let new_cols = areas.terminal_pane.width.saturating_sub(2);
    let changed = new_rows != state.terminal_size.0 || new_cols != state.terminal_size.1;
    state.terminal_size = (new_rows, new_cols);
    if changed {
        Some((new_rows, new_cols))
    } else {
        None
    }
}

/// Keys while editing notes.
fn handle_notes_editing(state: &mut AppState, key: Key)
    requires
        old(state).wf(),
    ensures
        final(state).wf(),
        notes_mode_rel(*old(state), *final(state), key),
{
    match key {
        Key::Esc => save_notes(state),
        Key::Enter => state.notes_input.push('\n'),
        Key::Backspace => {
            let _ = state.notes_input.pop();
        },
        Key::Char(c) => state.notes_input.push(c),
        _ => {},
    }
}

/// Keys while entering a screenshot path.
fn handle_screenshot_input(state: &mut AppState, key: Key)
    requires
        old(state).wf(),
    ensures
        final(state).wf(),
        screenshot_mode_rel(*old(state), *final(state), key),
{
    match key {
        Key::Esc => cancel_screenshot(state),
        Key::Enter => confirm_screenshot(state),
        Key::Backspace => {
            let _ = state.screenshot_input.pop();
        },
        Key::Char(c) => state.screenshot_input.push(c),
        _ => {},
    }
}

/// Enter or Space in the tests pane.
fn expand_or_toggle(state: &mut AppState)
    requires
        old(state).wf(),
    ensures
        final(state).wf(),
        expand_or_toggle_rel(*old(state), *final(state)),
{
    if matches!(state.focused_pane, FocusedPane::Tests) {
        match state.sub_selection {
            SubSelection::Header => toggle_expand(state),
            SubSelection::Setup(_) => toggle_checklist(state),
            SubSelection::Verify(_) => toggle_checklist(state),
            SubSelection::Action => {},
        }
    }
}

/// Route one key event: the mode decides, in the fixed priority order,
/// what the key means; the returned effects tell the driver what to do
/// outside the state.
#[verifier::rlimit(80)]
pub fn handle_key(state: &mut AppState, key: Key, ctrl: bool, has_terminal: bool) -> (effects: Vec<
    Effect,
>)
    requires
        old(state).wf(),
    ensures
        final(state).wf(),
        route_key_rel(*old(state), *final(state), key, ctrl, has_terminal, effects@),
{
    if state.confirm_quit {
        match key {
            Key::Left => state.quit_selection = 0,
            Key::Right => state.quit_selection = 1,
            Key::Enter => {
                if state.quit_selection == 0 {
                    confirm_quit(state);
                } else {
                    quit_without_saving(state);
                }
            },
            Key::Esc => cancel_quit(state),
            Key::Char(c) => {
                if c == 'h' {
                    state.quit_selection = 0;
                } else if c == 'l' {
                    state.quit_selection = 1;
                } else if c == 'y' || c == 'Y' {
                    confirm_quit(state);
                } else if c == 'n' || c == 'N' {
                    cancel_quit(state);
                }
            },
            _ => {},
        }
        return Vec::new();
    }
    if state.show_help {
        match key {
            Key::Esc => state.show_help = false,
            Key::Char(c) => {
                if c == '?' {
                    state.show_help = false;
                }
            },
            _ => {},
        }
        return Vec::new();
    }
    if state.editing_notes {
        handle_notes_editing(state, key);
        return Vec::new();
    }
    if state.adding_screenshot {
        handle_screenshot_input(state, key);
        return Vec::new();
    }
    if matches!(state.focused_pane, FocusedPane::Terminal) && has_terminal {
        match key {
            Key::Esc => {
                state.focused_pane = FocusedPane::Tests;
                return Vec::new();
            },
            Key::Tab => {
                cycle_focus(state);
                return Vec::new();
            },
            _ => {
                match key_bytes(key, ctrl) {
                    Some(b) => {
                        let mut effects: Vec<Effect> = Vec::new();
                        effects.push(Effect::SendTerminalBytes(b));
                        return effects;
                    },
                    None => {
                        return Vec::new();
                    },
                }
            },
        }
    }
    match key {
        Key::Char(c) => {
            if c == 'q' {
                request_quit(state);
            } else if c == 'k' {
                if matches!(state.focused_pane, FocusedPane::Tests) {
                    select_prev(state);
                }
            } else if c == 'j' {
                if matches!(state.focused_pane, FocusedPane::Tests) {
                    select_next(state);
                }
            } else if c == 'l' || c == ' ' {
                expand_or_toggle(state);
            } else if c == 'n' {
                if matches!(state.focused_pane, FocusedPane::Tests) {
                    enter_notes_edit(state);
                }
            } else if c == 'a' {
                if matches!(state.focused_pane, FocusedPane::Tests) {
                    start_screenshot(state);
                }
            } else if c == 'p' {
                if matches!(state.focused_pane, FocusedPane::Tests) {
                    set_status(state, Status::Passed);
                }
            } else if c == 'f' {
                if matches!(state.focused_pane, FocusedPane::Tests) {
                    set_status(state, Status::Failed);
                }
            } else if c == 'i' {
                if matches!(state.focused_pane, FocusedPane::Tests) {
                    set_status(state, Status::Inconclusive);
                }
            } else if c == 's' {
                if matches!(state.focused_pane, FocusedPane::Tests) {
                    set_status(state, Status::Skipped);
                }
            } else if c == 'c' {
                let cmd: Option<String> = if state.selected_test < state.testlist.tests.len() {
                    match &state.testlist.tests[state.selected_test].suggested_command {
                        Some(s) => Some(s.clone()),
                        None => None,
                    }
                } else {
                    None
                };
                match cmd {
                    Some(cmd) => {
                        if has_terminal {
                            state.focused_pane = FocusedPane::Terminal;
                            let mut effects: Vec<Effect> = Vec::new();
                            effects.push(Effect::InsertTerminalCommand(cmd));
                            return effects;
                        }
                    },
                    None => {},
                }
            } else if c == 't' {
                state.theme = state.theme.toggle();
            } else if c == '?' {
                state.show_help = true;
            } else if c == 'w' {
                let mut effects: Vec<Effect> = Vec::new();
                effects.push(Effect::SaveResults);
                proof {
                    assert(effects@ =~= seq![Effect::SaveResults]);
                }
                return effects;
            }
        },
        Key::Tab => cycle_focus(state),
        Key::Up => {
            if matches!(state.focused_pane, FocusedPane::Tests) {
                select_prev(state);
            }
        },
        Key::Down => {
            if matches!(state.focused_pane, FocusedPane::Tests) {
                select_next(state);
            }
        },
        Key::Enter => expand_or_toggle(state),
        _ => {},
    }
    Vec::new()
}

} // verus!
