//! The embedded terminal's screen model and byte encodings.
//!
//! The terminal-emulation state machine itself comes from the `vt100`
//! crate: a parser consumes raw PTY bytes and maintains a grid of cells
//! plus a cursor. The parser value is opaque here; its contents are named
//! by the spec functions below, and the trusted wrappers state, per call,
//! what the crate's source shows. Everything built on top — sizing, view
//! extraction with per-row trimming, and the key-to-byte encodings — is
//! verified.

use vstd::prelude::*;

verus! {

/// Holds the `vt100::Parser`, whose type the verifier cannot take as it
/// stands (its generics are bounded by an outside trait); the struct is
/// opaque and every access goes through the trusted wrappers below.
#[verifier::external_body]
pub struct ScreenParser {
    inner: vt100::Parser,
}

/// The screen size of a parser, as (rows, cols).
pub uninterp spec fn screen_size(p: ScreenParser) -> (u16, u16);

/// The character displayed in a cell of a parser's screen; a blank when
/// the cell is empty or out of range.
pub uninterp spec fn screen_char(p: ScreenParser, row: u16, col: u16) -> char;

/// The cursor position of a parser's screen, as (row, col).
pub uninterp spec fn screen_cursor(p: ScreenParser) -> (u16, u16);

/// The character displayed in a cell after a parser has consumed the given
/// bytes. Terminal emulation is deterministic: the resulting screen is a
/// function of the starting screen and the bytes alone.
pub uninterp spec fn fed_char(p: ScreenParser, bytes: Seq<u8>, row: u16, col: u16) -> char;

/// The cursor position after a parser has consumed the given bytes.
pub uninterp spec fn fed_cursor(p: ScreenParser, bytes: Seq<u8>) -> (u16, u16);

/// Relies on `vt100::Parser::new`: a fresh parser whose screen has the
/// given size, every cell blank and the cursor at the origin. The crate
/// subtracts one from each dimension internally, so sizes start at one.
#[verifier::external_body]
fn vt_new(rows: u16, cols: u16, scrollback: usize) -> (p: ScreenParser)
    requires
        rows >= 1,
        cols >= 1,
    ensures
        screen_size(p) == (rows, cols),
        forall|r: u16, c: u16| screen_char(p, r, c) == ' ',
        screen_cursor(p) == (0u16, 0u16),
{
    ScreenParser { inner: vt100::Parser::new(rows, cols, scrollback) }
}

/// Relies on `vt100::Parser::process`: consuming bytes turns the cells and
/// the cursor into exactly the processed contents named above, and never
/// changes the screen size — with the default callbacks a resize escape
/// sequence is reported and otherwise ignored.
#[verifier::external_body]
fn vt_process(p: &mut ScreenParser, bytes: &[u8])
    ensures
        screen_size(*final(p)) == screen_size(*old(p)),
        forall|r: u16, c: u16| #[trigger] screen_char(*final(p), r, c) == fed_char(
            *old(p),
            bytes@,
            r,
            c,
        ),
        screen_cursor(*final(p)) == fed_cursor(*old(p), bytes@),
{
    p.inner.process(bytes);
}

/// Relies on `vt100::Screen::set_size`: the screen takes exactly the given
/// size. The crate subtracts one from each dimension internally, so sizes
/// start at one.
#[verifier::external_body]
fn vt_set_size(p: &mut ScreenParser, rows: u16, cols: u16)
    requires
        rows >= 1,
        cols >= 1,
    ensures
        screen_size(*final(p)) == (rows, cols),
{
    p.inner.screen_mut().set_size(rows, cols);
}

/// Relies on `vt100::Screen::cell` and `vt100::Cell::contents`: the first
/// character of the cell's contents, or a blank for an empty or
/// out-of-range cell.
#[verifier::external_body]
fn vt_cell_char(p: &ScreenParser, row: u16, col: u16) -> (r: char)
    ensures
        r == screen_char(*p, row, col),
{
    match p.inner.screen().cell(row, col) {
        Some(cell) => cell.contents().chars().next().unwrap_or(' '),
        None => ' ',
    }
}

/// Relies on `vt100::Screen::cursor_position`.
#[verifier::external_body]
fn vt_cursor(p: &ScreenParser) -> (r: (u16, u16))
    ensures
        r == screen_cursor(*p),
{
    p.inner.screen().cursor_position()
}

/// How much scrollback the screen keeps.
pub const SCROLLBACK_LINES: usize = 1000;

/// One row of the screen as characters, across all columns.
pub open spec fn row_chars(p: ScreenParser, row: u16, cols: int) -> Seq<char> {
    Seq::new(cols as nat, |j: int| screen_char(p, row, j as u16))
}

/// The row with its trailing blanks removed.
pub open spec fn trim_trailing_spaces(s: Seq<char>) -> Seq<char>
    decreases s.len(),
{
    if s.len() > 0 && s.last() == ' ' {
        trim_trailing_spaces(s.drop_last())
    } else {
        s
    }
}

/// Trimming keeps exactly the prefix up to the last non-blank character.
proof fn lemma_trim_is_take(s: Seq<char>, end: int)
    requires
        0 <= end <= s.len(),
        forall|j: int| end <= j < s.len() ==> s[j] == ' ',
        end > 0 ==> s[end - 1] != ' ',
    ensures
        trim_trailing_spaces(s) == s.take(end),
    decreases s.len(),
{
    if s.len() == end {
        assert(s.take(end) =~= s);
    } else {
        assert(s.last() == ' ');
        lemma_trim_is_take(s.drop_last(), end);
        assert(s.drop_last().take(end) =~= s.take(end));
    }
}

/// The screen of the embedded terminal: a terminal-emulation parser
/// together with the size it was last given.
pub struct TermScreen {
    parser: ScreenParser,
    rows: u16,
    cols: u16,
}

impl TermScreen {
    /// Well-formed: the tracked size is the parser's screen size.
    pub closed spec fn wf(self) -> bool {
        screen_size(self.parser) == (self.rows, self.cols)
    }

    /// The screen size, as (rows, cols).
    pub closed spec fn size_spec(self) -> (u16, u16) {
        (self.rows, self.cols)
    }

    /// The trimmed text of one screen row.
    pub closed spec fn row_text_spec(self, row: u16) -> Seq<char> {
        trim_trailing_spaces(row_chars(self.parser, row, self.cols as int))
    }

    /// The cursor position, as (row, col).
    pub closed spec fn cursor_spec(self) -> (u16, u16) {
        screen_cursor(self.parser)
    }

    /// The underlying parser value, for stating what feeding bytes does.
    pub closed spec fn parser_spec(self) -> ScreenParser {
        self.parser
    }

    /// A fresh screen of the given size: every row blank, the cursor at
    /// the origin. The emulation needs at least one cell each way.
    pub fn new(rows: u16, cols: u16) -> (r: Self)
        requires
            rows >= 1,
            cols >= 1,
        ensures
            r.wf(),
            r.size_spec() == (rows, cols),
            forall|row: u16| r.row_text_spec(row) == Seq::<char>::empty(),
            r.cursor_spec() == (0u16, 0u16),
    {
        let r = TermScreen { parser: vt_new(rows, cols, SCROLLBACK_LINES), rows, cols };
        proof {
            assert forall|row: u16| r.row_text_spec(row) == Seq::<char>::empty() by {
                let full = row_chars(r.parser, row, r.cols as int);
                lemma_trim_is_take(full, 0);
                assert(full.take(0) =~= Seq::<char>::empty());
            }
        }
        r
    }

    /// The current size, as (rows, cols).
    pub fn size(&self) -> (r: (u16, u16))
        ensures
            r == self.size_spec(),
    {
        (self.rows, self.cols)
    }

    /// Feed raw terminal output into the screen. The size never changes;
    /// the cells and the cursor become exactly the processed contents, as
    /// [`fed_char`] and [`fed_cursor`] name them.
    pub fn feed(&mut self, bytes: &[u8])
        requires
            old(self).wf(),
        ensures
            final(self).wf(),
            final(self).size_spec() == old(self).size_spec(),
            forall|r: u16, c: u16| #[trigger] screen_char(final(self).parser_spec(), r, c)
                == fed_char(old(self).parser_spec(), bytes@, r, c),
            final(self).cursor_spec() == fed_cursor(old(self).parser_spec(), bytes@),
    {
        vt_process(&mut self.parser, bytes);
    }

    /// Resize the screen. Giving the current size again is harmless: the
    /// size afterwards is exactly the size given. The emulation needs at
    /// least one cell each way.
    pub fn resize(&mut self, rows: u16, cols: u16)
        requires
            old(self).wf(),
            rows >= 1,
            cols >= 1,
        ensures
            final(self).wf(),
            final(self).size_spec() == (rows, cols),
    {
        vt_set_size(&mut self.parser, rows, cols);
        self.rows = rows;
        self.cols = cols;
    }

    /// One screen row as printable text, with trailing blanks trimmed.
    fn row_text(&self, row: u16) -> (r: String)
        requires
            self.wf(),
        ensures
            r@ == self.row_text_spec(row),
    {
        let ghost full = row_chars(self.parser, row, self.cols as int);
        let cols = self.cols;
        let mut end: u16 = cols;
        loop
            invariant_except_break
                end <= cols,
                cols == self.cols,
                full == row_chars(self.parser, row, cols as int),
                forall|j: int| end <= j < cols ==> full[j] == ' ',
            ensures
                end <= cols,
                cols == self.cols,
                full == row_chars(self.parser, row, cols as int),
                forall|j: int| end <= j < cols ==> full[j] == ' ',
                end > 0 ==> full[end - 1] != ' ',
            decreases end,
        {
            if end == 0 {
                break ;
            }
            if vt_cell_char(&self.parser, row, end - 1) != ' ' {
                break ;
            }
            end = end - 1;
        }
        proof {
            lemma_trim_is_take(full, end as int);
        }
        let mut text = String::new();
        let mut j: u16 = 0;
        while j < end
            invariant
                j <= end,
                end <= cols,
                cols == self.cols,
                self.wf(),
                full == row_chars(self.parser, row, self.cols as int),
                text@ == full.take(j as int),
            decreases end - j,
        {
            let c = vt_cell_char(&self.parser, row, j);
            text.push(c);
            proof {
                assert(text@ =~= full.take(j as int + 1));
            }
            j = j + 1;
        }
        text
    }

    /// Up to `height_limit` rows of the screen as printable text, trailing
    /// blanks trimmed per row, plus the cursor position. A limit beyond
    /// the screen's height yields the screen's rows, not a failure.
    pub fn render_view(&self, height_limit: usize) -> (r: (Vec<String>, (u16, u16)))
        requires
            self.wf(),
        ensures
            r.0@.len() == if height_limit <= self.size_spec().0 as int {
                height_limit as int
            } else {
                self.size_spec().0 as int
            },
            forall|i: int| 0 <= i < r.0@.len() ==> r.0@[i]@ == self.row_text_spec(i as u16),
            r.1 == self.cursor_spec(),
    {
        let count: usize = if height_limit <= self.rows as usize {
            height_limit
        } else {
            self.rows as usize
        };
        let mut lines: Vec<String> = Vec::new();
        for row in 0..count
            invariant
                count <= u16::MAX,
                self.wf(),
                lines@.len() == row,
                forall|i: int| 0 <= i < row ==> lines@[i]@ == self.row_text_spec(i as u16),
        {
            lines.push(self.row_text(row as u16));
        }
        (lines, vt_cursor(&self.parser))
    }
}

/// The control byte sent for Ctrl plus a character: the character's low
/// byte, minus the code of `a`, plus one, wrapped to a byte. For the
/// letters `a` through `z` this is the standard ASCII control code 1
/// through 26.
pub open spec fn ctrl_code(c: char) -> u8 {
    ((((c as u32) % 256) + 160) % 256) as u8
}

/// The byte to send for Ctrl plus `c`.
pub fn ctrl_byte(c: char) -> (r: u8)
    ensures
        r == ctrl_code(c),
        'a' <= c <= 'z' ==> r as int == (c as u32) - 96,
{
    let u = c as u32;
    #[verifier::truncate]
    let b = (u % 256) as u8;
    proof {
        assert(b as u32 == u % 256);
        if b >= 96 {
            assert((((b as u32) + 160) % 256) == (b as u32) - 96) by (bit_vector)
                requires
                    b >= 96,
            ;
        } else {
            assert((((b as u32) + 160) % 256) == (b as u32) + 160) by (bit_vector)
                requires
                    b < 96,
            ;
        }
    }
    if b >= 96 {
        b - 96
    } else {
        b + 160
    }
}

/// Relies on `char::encode_utf8`: the UTF-8 encoding of one character.
#[verifier::external_body]
pub(crate) fn char_bytes(c: char) -> (r: Vec<u8>)
    ensures
        1 <= r@.len() <= 4,
        (c as u32) < 128 ==> r@ == seq![c as u8],
        vstd::utf8::valid_utf8(r@),
        vstd::utf8::decode_utf8(r@) == seq![c],
{
    let mut buf = [0u8; 4];
    let s = c.encode_utf8(&mut buf);
    s.as_bytes().to_vec()
}

/// The suggested command of a test, prepared for insertion into the
/// terminal: the command's own text, or nothing when the test suggests
/// none.
pub fn prepare_command(suggested_command: Option<&str>) -> (r: Option<String>)
    ensures
        match suggested_command {
            Some(s) => r matches Some(c) && c@ == s@,
            None => r is None,
        },
{
    match suggested_command {
        Some(s) => Some(s.to_owned()),
        None => None,
    }
}

} // verus!
