//! What the screen shows: the viewport that follows the cursor, the rows in
//! it, and the status bar.

use vstd::prelude::*;

use crate::document::expand_tabs;
use crate::document::window;
use crate::editor::Editor;
use crate::state::EditorView;
use crate::state::Mode;
use crate::state::ModeView;
use crate::state::Position;
use crate::state::Size;
use crate::state::Status;
use crate::state::PROMPT_KEY;
use crate::text::chars_of;
use crate::text::push_char;

verus! {

/// The number of screen rows that show text: all but the status bar.
pub open spec fn text_height(size: Size) -> int {
    if size.height > 0 {
        size.height - 1
    } else {
        0
    }
}

/// The scroll offset along one axis after following the coordinate `c`:
/// unchanged while `c` is visible, else moved by the least amount that
/// shows `c` (at the trailing edge when `c` lies beyond the window).
pub open spec fn follow(c: int, scroll: int, extent: int) -> int {
    if extent <= 0 {
        scroll
    } else if c < scroll {
        c
    } else if c >= scroll + extent {
        c - extent + 1
    } else {
        scroll
    }
}

/// The state after the viewport followed the cursor: the cursor's column is
/// clamped to its row, and each scroll offset follows the cursor.
pub open spec fn followed(s: EditorView, size: Size) -> EditorView {
    let len = s.rows[s.cursor.y as int].len() as int;
    let x = if s.cursor.x <= len { s.cursor.x as int } else { len };
    EditorView {
        cursor: Position { x: x as usize, y: s.cursor.y },
        scroll: Position {
            x: follow(x, s.scroll.x as int, size.width as int) as usize,
            y: follow(s.cursor.y as int, s.scroll.y as int, text_height(size)) as usize,
        },
        ..s
    }
}

/// Once the scroll offset has followed a coordinate, the coordinate lies in
/// the visible window, whatever the offset was before.
pub proof fn lemma_follow_shows(c: int, scroll: int, extent: int)
    requires
        0 <= c,
        0 <= scroll,
        extent > 0,
    ensures
        0 <= follow(c, scroll, extent) <= c < follow(c, scroll, extent) + extent,
{
}

/// `n` spaces.
pub open spec fn spaces(n: int) -> Seq<char> {
    Seq::new(n as nat, |i: int| ' ')
}

/// The cells that the three segments leave free on a line of `width`; none
/// where they do not fit.
pub open spec fn room(left: nat, center: nat, right: nat, width: nat) -> nat {
    let p = width - left - center - right;
    if p > 0 { p as nat } else { 0 }
}

/// The spaces between the left segment and the middle one: as many as center
/// the middle segment, but never more than the free room, so that the right
/// segment stays on the line whenever the three fit.
pub open spec fn left_padding(left: nat, center: nat, right: nat, width: nat) -> nat {
    let p = width / 2 - left - center / 2;
    let centered: nat = if p > 0 { p as nat } else { 0 };
    let free = room(left, center, right, width);
    if centered < free { centered } else { free }
}

/// The spaces between the middle segment and the right one: the rest of the
/// free room.
pub open spec fn right_padding(left: nat, center: nat, right: nat, width: nat) -> nat {
    (room(left, center, right, width) - left_padding(left, center, right, width)) as nat
}

/// The three segments with their padding, before clipping.
pub open spec fn padded(left: Seq<char>, center: Seq<char>, right: Seq<char>, width: nat) -> Seq<char> {
    left + spaces(left_padding(left.len(), center.len(), right.len(), width) as int) + center + spaces(
        right_padding(left.len(), center.len(), right.len(), width) as int,
    ) + right
}

/// The status bar of `width` cells: the segments padded, and clipped at
/// `width` where they do not fit.
pub open spec fn status_text(left: Seq<char>, center: Seq<char>, right: Seq<char>, width: nat) -> Seq<char> {
    padded(left, center, right, width).take(width as int)
}

/// The status bar's layout: where the three segments fit in `width`, the
/// line is the left segment, spaces, the middle one, spaces, the right one,
/// with exactly `width` minus their combined length spaces in all; where they
/// do not fit, there is no padding and the segments, joined, are clipped at
/// `width`.
pub proof fn lemma_status_layout(left: Seq<char>, center: Seq<char>, right: Seq<char>, width: nat)
    ensures
        status_text(left, center, right, width).len() == width,
        left.len() + center.len() + right.len() <= width ==> {
            let lp = left_padding(left.len(), center.len(), right.len(), width);
            let rp = right_padding(left.len(), center.len(), right.len(), width);
            &&& lp + rp == width - (left.len() + center.len() + right.len())
            &&& status_text(left, center, right, width) == left + spaces(lp as int) + center + spaces(rp as int) + right
        },
        left.len() + center.len() + right.len() >= width ==> {
            &&& left_padding(left.len(), center.len(), right.len(), width) == 0
            &&& right_padding(left.len(), center.len(), right.len(), width) == 0
            &&& status_text(left, center, right, width) == (left + center + right).take(width as int)
        },
{
    let lp = left_padding(left.len(), center.len(), right.len(), width);
    let rp = right_padding(left.len(), center.len(), right.len(), width);
    let whole = padded(left, center, right, width);
    assert(whole.len() == left.len() + lp + center.len() + rp + right.len());
    if left.len() + center.len() + right.len() <= width {
        assert(whole.take(width as int) =~= whole);
    }
    if left.len() + center.len() + right.len() >= width {
        assert(spaces(0) =~= Seq::<char>::empty());
        assert(whole =~= left + center + right);
    }
}

/// The left segment: the prompt with its key in Prompt mode, else a blank.
pub open spec fn left_segment(mode: ModeView) -> Seq<char> {
    match mode {
        ModeView::Prompt(p) => seq![PROMPT_KEY] + p,
        _ => seq![' '],
    }
}

/// The middle segment: a report where there is one, else the file name.
pub open spec fn center_segment(s: EditorView) -> Seq<char> {
    match s.status {
        Status::SaveFailed => "write failed"@,
        Status::NoFileName => "no file name"@,
        Status::Ready => match s.file_name {
            Some(n) => n,
            None => "[No Name]"@,
        },
    }
}

/// The right segment: the name of the mode.
pub open spec fn right_segment(mode: ModeView) -> Seq<char> {
    match mode {
        ModeView::Normal => "NORMAL"@,
        ModeView::Insert => "INSERT"@,
        ModeView::Prompt(_) => "PROMPT"@,
    }
}

/// Screen row `i` of the text area: the visible part of the document row
/// there, or `~` past the end of the document.
pub open spec fn frame_row(s: EditorView, i: int, width: int) -> Seq<char> {
    let y = s.scroll.y + i;
    if y < s.rows.len() {
        expand_tabs(window(s.rows[y], s.scroll.x as int, s.scroll.x + width))
    } else {
        seq!['~']
    }
}

/// Where the terminal's cursor goes: after the prompt on the status bar in
/// Prompt mode, else at the document cursor relative to the scroll offsets.
pub open spec fn screen_cursor(s: EditorView, size: Size) -> Position {
    match s.mode {
        ModeView::Prompt(p) => {
            let x: int = if 1 + p.len() < size.width { 1 + p.len() as int } else if size.width > 0 { size.width - 1 } else { 0 };
            Position { x: x as usize, y: text_height(size) as usize }
        },
        _ => Position {
            x: if s.cursor.x >= s.scroll.x { (s.cursor.x - s.scroll.x) as usize } else { 0 },
            y: if s.cursor.y >= s.scroll.y { (s.cursor.y - s.scroll.y) as usize } else { 0 },
        },
    }
}

/// Lays out a status bar of exactly `width` cells: `left` at the start,
/// `right` at the end, `center` in the middle where there is room; segments
/// that do not fit are clipped.
pub fn compose_status(left: &str, center: &str, right: &str, width: usize) -> (r: String)
    ensures
        r@ == status_text(left@, center@, right@, width as nat),
        r@.len() == width,
{
    let l = chars_of(left);
    let c = chars_of(center);
    let rt = chars_of(right);
    let free = width.saturating_sub(l.len()).saturating_sub(c.len()).saturating_sub(rt.len());
    let centered = (width / 2).saturating_sub(l.len()).saturating_sub(c.len() / 2);
    let lp = if centered < free { centered } else { free };
    let rp = free - lp;
    let ghost whole = padded(left@, center@, right@, width as nat);
    assert(lp == left_padding(l@.len(), c@.len(), rt@.len(), width as nat));
    assert(rp == right_padding(l@.len(), c@.len(), rt@.len(), width as nat));
    let mut out = String::new();
    let mut i: usize = 0;
    while i < width
        invariant
            i <= width,
            l@ == left@,
            c@ == center@,
            rt@ == right@,
            lp == left_padding(l@.len(), c@.len(), rt@.len(), width as nat),
            rp == right_padding(l@.len(), c@.len(), rt@.len(), width as nat),
            whole == padded(left@, center@, right@, width as nat),
            out@ == whole.take(i as int),
        decreases width - i,
    {
        let ch = if i < l.len() {
            l[i]
        } else if i - l.len() < lp {
            ' '
        } else if i - l.len() - lp < c.len() {
            c[i - l.len() - lp]
        } else if i - l.len() - lp - c.len() < rp {
            ' '
        } else {
            rt[i - l.len() - lp - c.len() - rp]
        };
        assert(ch == whole[i as int]);
        push_char(&mut out, ch);
        assert(whole.take(i + 1) =~= whole.take(i as int).push(ch));
        i = i + 1;
    }
    out
}

/// A string holding `c` alone.
fn single(c: char) -> (r: String)
    ensures
        r@ == seq![c],
{
    let mut s = String::new();
    push_char(&mut s, c);
    s
}

/// `window` gives the same codepoints for any end at or past the row's end.
proof fn lemma_window_end_past_row(s: Seq<char>, begin: int, e1: int, e2: int)
    requires
        e1 >= s.len(),
        e2 >= s.len(),
    ensures
        window(s, begin, e1) == window(s, begin, e2),
{
}

impl Editor {
    /// The status bar, `width` cells wide.
    pub fn status_line(&self, width: usize) -> (r: String)
        ensures
            r@ == status_text(
                left_segment(self@.mode),
                center_segment(self@),
                right_segment(self@.mode),
                width as nat,
            ),
            r@.len() == width,
    {
        let left = match self.mode() {
            Mode::Prompt(p) => {
                let mut s = single(PROMPT_KEY);
                let mut i: usize = 0;
                while i < p.len()
                    invariant
                        i <= p@.len(),
                        s@ == seq![PROMPT_KEY] + p@.take(i as int),
                    decreases p@.len() - i,
                {
                    push_char(&mut s, p[i]);
                    assert(p@.take(i + 1) =~= p@.take(i as int).push(p@[i as int]));
                    i = i + 1;
                }
                assert(p@.take(i as int) =~= p@);
                s
            },
            _ => single(' '),
        };
        let center: &str = match self.status() {
            Status::SaveFailed => "write failed",
            Status::NoFileName => "no file name",
            Status::Ready => match self.document().file_name() {
                Some(n) => n.as_str(),
                None => "[No Name]",
            },
        };
        let right: &str = match self.mode() {
            Mode::Normal => "NORMAL",
            Mode::Insert => "INSERT",
            Mode::Prompt(_) => "PROMPT",
        };
        compose_status(left.as_str(), center, right, width)
    }

    /// The whole screen for a terminal of `size`: the text rows, then the
    /// status bar on the last row.
    pub fn render_frame(&self, size: Size) -> (r: Vec<String>)
        ensures
            r@.len() == size.height,
            forall|i: int| 0 <= i < text_height(size) ==> #[trigger] r@[i]@ == frame_row(self@, i, size.width as int),
            size.height > 0 ==> r@[size.height - 1]@ == status_text(
                left_segment(self@.mode),
                center_segment(self@),
                right_segment(self@.mode),
                size.width as nat,
            ),
    {
        let mut frame: Vec<String> = Vec::new();
        let height = if size.height > 0 { size.height - 1 } else { 0 };
        let scroll = self.scroll();
        let end = scroll.x.saturating_add(size.width);
        let doc = self.document();
        let mut i: usize = 0;
        while i < height
            invariant
                i <= height,
                height == text_height(size),
                scroll == self@.scroll,
                doc@ == self@.rows,
                end == if scroll.x + size.width > usize::MAX { usize::MAX as int } else { scroll.x + size.width },
                frame@.len() == i,
                forall|k: int| 0 <= k < i ==> #[trigger] frame@[k]@ == frame_row(self@, k, size.width as int),
            decreases height - i,
        {
            let line = match scroll.y.checked_add(i) {
                Some(y) => match doc.row(y) {
                    Some(row) => {
                        proof {
                            row.lemma_len_fits();
                            if scroll.x + size.width > usize::MAX {
                                lemma_window_end_past_row(row@, scroll.x as int, end as int, scroll.x + size.width);
                            }
                        }
                        row.render(scroll.x, end)
                    },
                    None => single('~'),
                },
                None => {
                    proof {
                        doc.lemma_len_fits();
                    }
                    single('~')
                },
            };
            frame.push(line);
            i = i + 1;
        }
        if size.height > 0 {
            frame.push(self.status_line(size.width));
        }
        frame
    }
    /// The place of the terminal's cursor on the screen.
    pub fn screen_position(&self, size: Size) -> (r: Position)
        ensures
            r == screen_cursor(self@, size),
    {
        match self.mode() {
            Mode::Prompt(p) => {
                let x = if p.len() < size.width && 1 + p.len() < size.width {
                    1 + p.len()
                } else if size.width > 0 {
                    size.width - 1
                } else {
                    0
                };
                let y = if size.height > 0 { size.height - 1 } else { 0 };
                Position { x, y }
            },
            _ => {
                let cursor = self.cursor();
                let scroll = self.scroll();
                Position {
                    x: cursor.x.saturating_sub(scroll.x),
                    y: cursor.y.saturating_sub(scroll.y),
                }
            },
        }
    }
}

/// One axis of `follow`, on machine integers.
pub(crate) fn follow_axis(c: usize, scroll: usize, extent: usize) -> (r: usize)
    ensures
        r == follow(c as int, scroll as int, extent as int),
{
    if extent == 0 {
        scroll
    } else if c < scroll {
        c
    } else if c - scroll >= extent {
        c - (extent - 1)
    } else {
        scroll
    }
}

} // verus!
