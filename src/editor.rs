//! The modal key dispatcher: one key at a time, proved against `state::step`.

use vstd::prelude::*;

use crate::document::Document;
use crate::document::text_of;
use crate::screen::follow_axis;
use crate::screen::followed;
use crate::screen::lemma_follow_shows;
use crate::state::Action;
use crate::state::Size;
use crate::state::EditorView;
use crate::state::Key;
use crate::state::Mode;
use crate::state::ModeView;
use crate::state::Position;
use crate::state::Status;
use crate::state::PROMPT_KEY;
use crate::state::char_removed;
use crate::state::committed;
use crate::state::erased;
use crate::state::insert_entered;
use crate::state::line_broken;
use crate::state::moved_down;
use crate::state::moved_left;
use crate::state::moved_right;
use crate::state::moved_up;
use crate::state::normal_command;
use crate::state::quit_command;
use crate::state::requests_write;
use crate::state::row_opened;
use crate::state::row_removed;
use crate::state::state_wf;
use crate::state::step;
use crate::state::typed;
use crate::state::write_done;
use crate::state::write_quit_command;

verus! {

/// An editing session: the document, the cursor, the scroll offsets and the mode.
pub struct Editor {
    mode: Mode,
    should_quit: bool,
    document: Document,
    cursor_pos: Position,
    scroll: Position,
    status: Status,
}

impl View for Editor {
    type V = EditorView;

    closed spec fn view(&self) -> EditorView {
        EditorView {
            mode: self.mode@,
            should_quit: self.should_quit,
            rows: self.document@,
            file_name: self.document.name(),
            cursor: self.cursor_pos,
            scroll: self.scroll,
            status: self.status,
        }
    }
}

/// The state of a fresh session on the rows `rows` of the file `file_name`.
pub open spec fn initial(rows: Seq<Seq<char>>, file_name: Option<Seq<char>>) -> EditorView {
    EditorView {
        mode: ModeView::Normal,
        should_quit: false,
        rows,
        file_name,
        cursor: Position { x: 0, y: 0 },
        scroll: Position { x: 0, y: 0 },
        status: Status::Ready,
    }
}

impl Editor {
    /// Well-formed: see `state_wf`.
    pub open spec fn wf(&self) -> bool {
        state_wf(self@)
    }

    /// A session on `document`, in Normal mode with the cursor at the start.
    pub fn new(document: Document) -> (e: Editor)
        requires
            document.wf(),
        ensures
            e@ == initial(document@, document.name()),
            e.wf(),
    {
        Editor {
            mode: Mode::Normal,
            should_quit: false,
            document,
            cursor_pos: Position { x: 0, y: 0 },
            scroll: Position { x: 0, y: 0 },
            status: Status::Ready,
        }
    }

    /// The current mode.
    pub fn mode(&self) -> (r: &Mode)
        ensures
            r@ == self@.mode,
    {
        &self.mode
    }

    /// Whether the session is over.
    pub fn should_quit(&self) -> (r: bool)
        ensures
            r == self@.should_quit,
    {
        self.should_quit
    }

    /// The document being edited.
    pub fn document(&self) -> (r: &Document)
        ensures
            r@ == self@.rows,
            r.name() == self@.file_name,
    {
        &self.document
    }

    /// The cursor, in document coordinates.
    pub fn cursor(&self) -> (r: Position)
        ensures
            r == self@.cursor,
    {
        self.cursor_pos
    }

    /// The document coordinate shown at the top left of the screen.
    pub fn scroll(&self) -> (r: Position)
        ensures
            r == self@.scroll,
    {
        self.scroll
    }

    /// What the status bar reports.
    pub fn status(&self) -> (r: Status)
        ensures
            r == self@.status,
    {
        self.status
    }

    /// The length of the cursor's row.
    fn cursor_row_len(&self) -> (r: usize)
        requires
            self.wf(),
        ensures
            r == self@.rows[self@.cursor.y as int].len(),
    {
        match self.document.row(self.cursor_pos.y) {
            Some(row) => row.len(),
            None => 0,
        }
    }

    fn command_left(&mut self)
        requires
            old(self).wf(),
        ensures
            final(self)@ == moved_left(old(self)@),
    {
        if self.cursor_pos.x != 0 {
            self.cursor_pos.x = self.cursor_pos.x - 1;
        }
    }

    fn command_right(&mut self)
        requires
            old(self).wf(),
        ensures
            final(self)@ == moved_right(old(self)@),
    {
        if self.cursor_pos.x < self.cursor_row_len() {
            self.cursor_pos.x = self.cursor_pos.x + 1;
        }
    }

    fn command_down(&mut self)
        requires
            old(self).wf(),
        ensures
            final(self)@ == moved_down(old(self)@),
    {
        if self.cursor_pos.y < self.document.len() - 1 {
            self.cursor_pos.y = self.cursor_pos.y + 1;
        }
    }

    fn command_up(&mut self)
        requires
            old(self).wf(),
        ensures
            final(self)@ == moved_up(old(self)@),
    {
        if self.cursor_pos.y != 0 {
            self.cursor_pos.y = self.cursor_pos.y - 1;
        }
    }

    /// Carries out a Normal-mode command; other characters are ignored.
    fn handle_key_command(&mut self, character: char)
        requires
            old(self).wf(),
            old(self)@.mode is Normal,
        ensures
            final(self)@ == normal_command(old(self)@, character),
            final(self).wf(),
    {
        if character == 'h' {
            self.command_left();
        } else if character == 'j' {
            self.command_down();
        } else if character == 'k' {
            self.command_up();
        } else if character == 'l' {
            self.command_right();
        } else if character == 'x' {
            self.document.delete_char(self.cursor_pos.x, self.cursor_pos.y);
        } else if character == 'd' {
            self.document.delete_row(self.cursor_pos.y);
            let n = self.document.len();
            if self.cursor_pos.y >= n {
                self.cursor_pos.y = n - 1;
            }
        } else if character == 'o' {
            self.document.insert_row(self.cursor_pos.y);
        } else if character == 'i' {
            let len = self.cursor_row_len();
            if self.cursor_pos.x > len {
                self.cursor_pos.x = len;
            }
            self.mode = Mode::Insert;
        } else if character == PROMPT_KEY {
            self.mode = Mode::Prompt(Vec::new());
        }
        assert(self@ == normal_command(old(self)@, character));
    }

    /// Types `character` at the cursor in Insert mode.
    fn insert_char(&mut self, character: char)
        requires
            old(self).wf(),
            old(self)@.mode is Insert,
        ensures
            final(self)@ == typed(old(self)@, character),
            final(self).wf(),
    {
        self.document.insert_char(character, self.cursor_pos.x, self.cursor_pos.y);
        let len = self.cursor_row_len();
        assert(len == old(self)@.rows[self.cursor_pos.y as int].len() + 1);
        self.cursor_pos.x = self.cursor_pos.x + 1;
    }

    /// Enter in Insert mode.
    fn break_line(&mut self)
        requires
            old(self).wf(),
            old(self)@.mode is Insert,
        ensures
            final(self)@ == line_broken(old(self)@),
            final(self).wf(),
    {
        self.document.insert_row(self.cursor_pos.y);
        let n = self.document.len();
        assert(n == old(self)@.rows.len() + 1);
        self.cursor_pos = Position { x: 0, y: self.cursor_pos.y + 1 };
    }

    /// Backspace in Insert mode.
    fn erase(&mut self)
        requires
            old(self).wf(),
            old(self)@.mode is Insert,
        ensures
            final(self)@ == erased(old(self)@),
            final(self).wf(),
    {
        if self.cursor_pos.x > 0 {
            self.document.delete_char(self.cursor_pos.x - 1, self.cursor_pos.y);
            self.cursor_pos.x = self.cursor_pos.x - 1;
        } else if self.cursor_pos.y > 0 {
            let above = match self.document.row(self.cursor_pos.y - 1) {
                Some(row) => row.len(),
                None => 0,
            };
            self.document.join_with_previous(self.cursor_pos.y);
            self.cursor_pos = Position { x: above, y: self.cursor_pos.y - 1 };
        }
    }

    /// Enter in the prompt: carries out the command typed there.
    fn evaluate_prompt(&mut self) -> (r: Action)
        requires
            old(self).wf(),
            old(self)@.mode is Prompt,
        ensures
            final(self)@ == committed(old(self)@, old(self)@.mode->Prompt_0),
            final(self).wf(),
            r is Write <==> requests_write(old(self)@, Key::Enter),
            r matches Action::Write { path, text } ==> Some(path@) == old(self)@.file_name
                && text@ == text_of(old(self)@.rows),
    {
        let mut is_quit = false;
        let mut is_write_quit = false;
        if let Mode::Prompt(p) = &self.mode {
            is_quit = p.len() == 1 && p[0] == 'q';
            is_write_quit = p.len() == 2 && p[0] == 'w' && p[1] == 'q';
            assert(is_quit <==> p@ == quit_command()) by {
                if p@ == quit_command() {
                    assert(p@[0] == quit_command()[0]);
                }
                if is_quit {
                    assert(p@ =~= quit_command());
                }
            }
            assert(is_write_quit <==> p@ == write_quit_command()) by {
                if p@ == write_quit_command() {
                    assert(p@[0] == write_quit_command()[0]);
                    assert(p@[1] == write_quit_command()[1]);
                }
                if is_write_quit {
                    assert(p@ =~= write_quit_command());
                }
            }
        }
        self.mode = Mode::Normal;
        if is_quit {
            self.should_quit = true;
            Action::Nothing
        } else if is_write_quit {
            match self.document.file_name() {
                Some(name) => {
                    let path = name.clone();
                    let text = self.document.to_text();
                    Action::Write { path, text }
                },
                None => {
                    self.status = Status::NoFileName;
                    Action::Nothing
                },
            }
        } else {
            Action::Nothing
        }
    }

    /// Handles one key; returns what the surroundings are to do next.
    pub fn process_key(&mut self, key: Key) -> (r: Action)
        requires
            old(self).wf(),
        ensures
            final(self)@ == step(old(self)@, key),
            final(self).wf(),
            r is Write <==> requests_write(old(self)@, key),
            r matches Action::Write { path, text } ==> Some(path@) == old(self)@.file_name
                && text@ == text_of(old(self)@.rows),
    {
        self.status = Status::Ready;
        match key {
            Key::Ctrl(c) => {
                if c == 'q' {
                    self.should_quit = true;
                }
                Action::Nothing
            },
            Key::Esc => {
                self.mode = Mode::Normal;
                Action::Nothing
            },
            Key::Char(c) => {
                match &mut self.mode {
                    Mode::Normal => self.handle_key_command(c),
                    Mode::Insert => self.insert_char(c),
                    Mode::Prompt(p) => p.push(c),
                }
                Action::Nothing
            },
            Key::Enter => {
                match self.mode {
                    Mode::Normal => Action::Nothing,
                    Mode::Insert => {
                        self.break_line();
                        Action::Nothing
                    },
                    Mode::Prompt(_) => self.evaluate_prompt(),
                }
            },
            Key::Backspace => {
                match &mut self.mode {
                    Mode::Normal => {},
                    Mode::Insert => self.erase(),
                    Mode::Prompt(p) => {
                        p.pop();
                    },
                }
                Action::Nothing
            },
            Key::Other => Action::Nothing,
        }
    }

    /// Moves the scroll offsets so that the cursor is on screen, after its
    /// column was clamped to its row; `size` is the terminal's, whose last
    /// row is the status bar.
    pub fn follow_viewport(&mut self, size: Size)
        requires
            old(self).wf(),
        ensures
            final(self).wf(),
            final(self)@ == followed(old(self)@, size),
            size.width > 0 ==> final(self)@.scroll.x <= final(self)@.cursor.x < final(self)@.scroll.x
                + size.width,
            size.height > 1 ==> final(self)@.scroll.y <= final(self)@.cursor.y < final(self)@.scroll.y
                + size.height - 1,
    {
        let len = self.cursor_row_len();
        if self.cursor_pos.x > len {
            self.cursor_pos.x = len;
        }
        let cursor = self.cursor_pos;
        let scroll = self.scroll;
        let height = if size.height > 0 { size.height - 1 } else { 0 };
        let x = follow_axis(cursor.x, scroll.x, size.width);
        let y = follow_axis(cursor.y, scroll.y, height);
        self.scroll = Position { x, y };
        proof {
            if size.width > 0 {
                lemma_follow_shows(cursor.x as int, scroll.x as int, size.width as int);
            }
            if size.height > 1 {
                lemma_follow_shows(cursor.y as int, scroll.y as int, height as int);
            }
        }
    }

    /// Reports the outcome of a write that `process_key` asked for.
    pub fn write_finished(&mut self, success: bool)
        requires
            old(self).wf(),
        ensures
            final(self)@ == write_done(old(self)@, success),
            final(self).wf(),
    {
        if success {
            self.should_quit = true;
        } else {
            self.status = Status::SaveFailed;
        }
    }
}

impl Default for Editor {
    /// A session on an empty document with no file name.
    fn default() -> (e: Editor)
        ensures
            e@ == initial(seq![Seq::<char>::empty()], None),
            e.wf(),
    {
        Editor::new(Document::new_empty())
    }
}

} // verus!
