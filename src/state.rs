//! The editor's state as a mathematical value, and what one key does to it.

use vstd::prelude::*;

use crate::document::rows_joined;
use crate::document::rows_with_char_deleted;
use crate::document::rows_with_char_inserted;
use crate::document::rows_with_row_deleted;
use crate::document::rows_with_row_inserted;

verus! {

/// The key that opens the command prompt from Normal mode.
pub const PROMPT_KEY: char = ':';

/// A place in the document or on the screen: `x` is the column (a codepoint
/// offset), `y` the row.
#[derive(Clone, Copy, Debug, PartialEq, Eq, Structural)]
pub struct Position {
    pub x: usize,
    pub y: usize,
}

/// The size of the terminal, in cells.
#[derive(Clone, Copy, Debug, Default, PartialEq, Eq, Structural)]
pub struct Size {
    pub height: usize,
    pub width: usize,
}

/// One input event.
#[derive(Clone, Copy, Debug, PartialEq, Eq, Structural)]
pub enum Key {
    /// A printable character.
    Char(char),
    /// A character typed with Control held.
    Ctrl(char),
    Esc,
    Backspace,
    Enter,
    /// Any other key, which is ignored.
    Other,
}

/// The line that the status bar shows in its middle besides the file name.
#[derive(Clone, Copy, Debug, PartialEq, Eq, Structural)]
pub enum Status {
    /// Nothing to report.
    Ready,
    /// The last write of the file failed.
    SaveFailed,
    /// A write was asked for, but the document belongs to no file.
    NoFileName,
}

/// The editor's mode; the prompt holds the command typed so far.
pub enum Mode {
    Normal,
    Insert,
    Prompt(Vec<char>),
}

/// The mode as a mathematical value.
pub enum ModeView {
    Normal,
    Insert,
    Prompt(Seq<char>),
}

impl View for Mode {
    type V = ModeView;

    open spec fn view(&self) -> ModeView {
        match self {
            Mode::Normal => ModeView::Normal,
            Mode::Insert => ModeView::Insert,
            Mode::Prompt(p) => ModeView::Prompt(p@),
        }
    }
}

/// What the editor asks of its surroundings after a key.
pub enum Action {
    Nothing,
    /// Write `text` to the file `path`, then report the outcome.
    Write { path: String, text: String },
}

/// The whole state of the editor as a mathematical value.
pub struct EditorView {
    pub mode: ModeView,
    pub should_quit: bool,
    pub rows: Seq<Seq<char>>,
    pub file_name: Option<Seq<char>>,
    pub cursor: Position,
    pub scroll: Position,
    pub status: Status,
}

/// The invariant of the editor: the document has a row, the cursor is on
/// one, and in Insert mode the cursor's column is within that row.
pub open spec fn state_wf(s: EditorView) -> bool {
    &&& s.rows.len() >= 1
    &&& s.cursor.y < s.rows.len()
    &&& s.mode is Insert ==> s.cursor.x <= s.rows[s.cursor.y as int].len()
}

/// The length of the row that the cursor is on.
pub open spec fn cursor_row_len(s: EditorView) -> int {
    s.rows[s.cursor.y as int].len() as int
}

/// `s` with the cursor moved to `(x, y)`.
pub open spec fn with_cursor(s: EditorView, x: int, y: int) -> EditorView {
    EditorView { cursor: Position { x: x as usize, y: y as usize }, ..s }
}

/// `h`: one column left, stopping at the first column.
pub open spec fn moved_left(s: EditorView) -> EditorView {
    if s.cursor.x > 0 {
        with_cursor(s, s.cursor.x - 1, s.cursor.y as int)
    } else {
        s
    }
}

/// `l`: one column right, stopping at the end of the row.
pub open spec fn moved_right(s: EditorView) -> EditorView {
    if s.cursor.x < cursor_row_len(s) {
        with_cursor(s, s.cursor.x + 1, s.cursor.y as int)
    } else {
        s
    }
}

/// `j`: one row down, stopping at the last row; the column is kept.
pub open spec fn moved_down(s: EditorView) -> EditorView {
    if s.cursor.y + 1 < s.rows.len() {
        with_cursor(s, s.cursor.x as int, s.cursor.y + 1)
    } else {
        s
    }
}

/// `k`: one row up, stopping at the first row; the column is kept.
pub open spec fn moved_up(s: EditorView) -> EditorView {
    if s.cursor.y > 0 {
        with_cursor(s, s.cursor.x as int, s.cursor.y - 1)
    } else {
        s
    }
}

/// The codepoint under the cursor removed, where there is one.
pub open spec fn char_removed(s: EditorView) -> EditorView {
    EditorView { rows: rows_with_char_deleted(s.rows, s.cursor.x as int, s.cursor.y as int), ..s }
}

/// The cursor's row removed, and the cursor kept on a row.
pub open spec fn row_removed(s: EditorView) -> EditorView {
    let rows = rows_with_row_deleted(s.rows, s.cursor.y as int);
    let y = if s.cursor.y < rows.len() { s.cursor.y as int } else { rows.len() - 1 };
    with_cursor(EditorView { rows, ..s }, s.cursor.x as int, y)
}

/// An empty row opened below the cursor's row.
pub open spec fn row_opened(s: EditorView) -> EditorView {
    EditorView { rows: rows_with_row_inserted(s.rows, s.cursor.y as int), ..s }
}

/// Insert mode, with the cursor's column clamped to its row.
pub open spec fn insert_entered(s: EditorView) -> EditorView {
    let x = if s.cursor.x <= cursor_row_len(s) { s.cursor.x as int } else { cursor_row_len(s) };
    with_cursor(EditorView { mode: ModeView::Insert, ..s }, x, s.cursor.y as int)
}

/// What a character does in Normal mode.
pub open spec fn normal_command(s: EditorView, c: char) -> EditorView {
    if c == 'h' {
        moved_left(s)
    } else if c == 'j' {
        moved_down(s)
    } else if c == 'k' {
        moved_up(s)
    } else if c == 'l' {
        moved_right(s)
    } else if c == 'x' {
        char_removed(s)
    } else if c == 'd' {
        row_removed(s)
    } else if c == 'o' {
        row_opened(s)
    } else if c == 'i' {
        insert_entered(s)
    } else if c == PROMPT_KEY {
        EditorView { mode: ModeView::Prompt(Seq::empty()), ..s }
    } else {
        s
    }
}

/// A character typed in Insert mode: inserted at the cursor, which moves past it.
pub open spec fn typed(s: EditorView, c: char) -> EditorView {
    with_cursor(
        EditorView { rows: rows_with_char_inserted(s.rows, c, s.cursor.x as int, s.cursor.y as int), ..s },
        s.cursor.x + 1,
        s.cursor.y as int,
    )
}

/// Enter in Insert mode: an empty row below the cursor's row, and the cursor
/// at its start.
pub open spec fn line_broken(s: EditorView) -> EditorView {
    with_cursor(row_opened(s), 0, s.cursor.y + 1)
}

/// Backspace in Insert mode: the codepoint before the cursor is removed; at
/// the start of a row, the row is joined to the one above.
pub open spec fn erased(s: EditorView) -> EditorView {
    if s.cursor.x > 0 {
        with_cursor(
            EditorView { rows: rows_with_char_deleted(s.rows, s.cursor.x - 1, s.cursor.y as int), ..s },
            s.cursor.x - 1,
            s.cursor.y as int,
        )
    } else if s.cursor.y > 0 {
        with_cursor(
            EditorView { rows: rows_joined(s.rows, s.cursor.y as int), ..s },
            s.rows[s.cursor.y - 1].len() as int,
            s.cursor.y - 1,
        )
    } else {
        s
    }
}

/// The command `q`.
pub open spec fn quit_command() -> Seq<char> {
    seq!['q']
}

/// The command `wq`.
pub open spec fn write_quit_command() -> Seq<char> {
    seq!['w', 'q']
}

/// Enter in the prompt: back to Normal mode, after the command `p` is carried
/// out. `q` quits; `wq` asks for a write (and quits once it succeeded), or
/// reports that there is no file name; anything else does nothing.
pub open spec fn committed(s: EditorView, p: Seq<char>) -> EditorView {
    let s = EditorView { mode: ModeView::Normal, ..s };
    if p == quit_command() {
        EditorView { should_quit: true, ..s }
    } else if p == write_quit_command() && s.file_name is None {
        EditorView { status: Status::NoFileName, ..s }
    } else {
        s
    }
}

/// Whether the key asks for the document to be written out.
pub open spec fn requests_write(s: EditorView, key: Key) -> bool {
    &&& key == Key::Enter
    &&& s.mode matches ModeView::Prompt(p) && p == write_quit_command()
    &&& s.file_name is Some
}

/// The state after one key.
pub open spec fn step(s0: EditorView, key: Key) -> EditorView {
    let s = EditorView { status: Status::Ready, ..s0 };
    match key {
        Key::Ctrl(c) => if c == 'q' {
            EditorView { should_quit: true, ..s }
        } else {
            s
        },
        Key::Esc => EditorView { mode: ModeView::Normal, ..s },
        Key::Char(c) => match s.mode {
            ModeView::Normal => normal_command(s, c),
            ModeView::Insert => typed(s, c),
            ModeView::Prompt(p) => EditorView { mode: ModeView::Prompt(p.push(c)), ..s },
        },
        Key::Enter => match s.mode {
            ModeView::Normal => s,
            ModeView::Insert => line_broken(s),
            ModeView::Prompt(p) => committed(s, p),
        },
        Key::Backspace => match s.mode {
            ModeView::Normal => s,
            ModeView::Insert => erased(s),
            ModeView::Prompt(p) => if p.len() > 0 {
                EditorView { mode: ModeView::Prompt(p.drop_last()), ..s }
            } else {
                s
            },
        },
        Key::Other => s,
    }
}

/// The state after a write that a key asked for: on success the editor
/// quits; on failure it reports so and keeps the document.
pub open spec fn write_done(s: EditorView, success: bool) -> EditorView {
    if success {
        EditorView { should_quit: true, ..s }
    } else {
        EditorView { status: Status::SaveFailed, ..s }
    }
}

} // verus!
