use vstd::prelude::*;

use crate::text::chars_of;
use crate::text::push_char;

verus! {

/// The glyphs that one stored codepoint shows as: a tab is four spaces.
pub open spec fn glyph(c: char) -> Seq<char> {
    if c == '\t' {
        seq![' ', ' ', ' ', ' ']
    } else {
        seq![c]
    }
}

/// The text that a sequence of codepoints shows as on screen.
pub open spec fn expand_tabs(s: Seq<char>) -> Seq<char>
    decreases s.len(),
{
    if s.len() == 0 {
        Seq::empty()
    } else {
        expand_tabs(s.drop_last()) + glyph(s.last())
    }
}

/// The part `[begin, end)` of `s` that `render` shows: `end` is clamped to the
/// length of `s`, and `begin` to `end`.
pub open spec fn window(s: Seq<char>, begin: int, end: int) -> Seq<char> {
    let e = if end < s.len() { end } else { s.len() as int };
    let b = if begin < e { begin } else { e };
    s.subrange(b, e)
}

/// `s` with `c` inserted at `index`, or appended where `index` is past the end.
pub open spec fn char_inserted(s: Seq<char>, c: char, index: int) -> Seq<char> {
    if index < s.len() {
        s.insert(index, c)
    } else {
        s.push(c)
    }
}

/// `s` without the codepoint at `index`, or `s` itself where there is none.
pub open spec fn char_deleted(s: Seq<char>, index: int) -> Seq<char> {
    if 0 <= index < s.len() {
        s.remove(index)
    } else {
        s
    }
}

/// One line of text, held as a sequence of codepoints.
pub struct Row {
    chars: Vec<char>,
}

impl View for Row {
    type V = Seq<char>;

    closed spec fn view(&self) -> Seq<char> {
        self.chars@
    }
}

impl Row {
    /// A row holding the codepoints of `slice`.
    pub fn from(slice: &str) -> (r: Row)
        ensures
            r@ == slice@,
    {
        Row { chars: chars_of(slice) }
    }

    /// An empty row.
    pub fn new() -> (r: Row)
        ensures
            r@ == Seq::<char>::empty(),
    {
        Row { chars: Vec::new() }
    }

    /// A row's length fits in a machine word.
    pub proof fn lemma_len_fits(&self)
        ensures
            self@.len() <= usize::MAX,
    {
        assert(self.chars@.len() == self.chars.len());
    }

    /// The number of codepoints in the row.
    pub fn len(&self) -> (r: usize)
        ensures
            r == self@.len(),
    {
        self.chars.len()
    }

    /// The codepoint at offset `index`.
    pub fn char_at(&self, index: usize) -> (r: char)
        requires
            index < self@.len(),
        ensures
            r == self@[index as int],
    {
        self.chars[index]
    }

    /// The codepoints `[begin, end)` of the row as they show on screen: `end`
    /// is clamped to the row's length and `begin` to `end`, and a tab shows
    /// as four spaces.
    pub fn render(&self, begin: usize, end: usize) -> (r: String)
        ensures
            r@ == expand_tabs(window(self@, begin as int, end as int)),
    {
        let end = if end < self.chars.len() { end } else { self.chars.len() };
        let begin = if begin < end { begin } else { end };
        let mut out = String::new();
        let mut i: usize = begin;
        while i < end
            invariant
                begin <= i <= end <= self@.len(),
                out@ == expand_tabs(self@.subrange(begin as int, i as int)),
            decreases end - i,
        {
            let c = self.chars[i];
            assert(self@.subrange(begin as int, i + 1).drop_last()
                == self@.subrange(begin as int, i as int));
            if c == '\t' {
                push_char(&mut out, ' ');
                push_char(&mut out, ' ');
                push_char(&mut out, ' ');
                push_char(&mut out, ' ');
                assert(out@ == expand_tabs(self@.subrange(begin as int, i as int)) + glyph(c));
            } else {
                push_char(&mut out, c);
            }
            i = i + 1;
        }
        out
    }

    /// Inserts `new_char` at codepoint offset `index`, clamped to the row's length.
    pub fn insert_char(&mut self, new_char: char, index: usize)
        ensures
            final(self)@ == char_inserted(old(self)@, new_char, index as int),
    {
        if index < self.chars.len() {
            self.chars.insert(index, new_char);
        } else {
            self.chars.push(new_char);
        }
    }

    /// Removes the codepoint at offset `index`; does nothing where there is none.
    pub fn delete_char(&mut self, index: usize)
        ensures
            final(self)@ == char_deleted(old(self)@, index as int),
    {
        if index < self.chars.len() {
            self.chars.remove(index);
        }
    }
}


/// Where `y` names a row, that row with `c` inserted at `x` (clamped to its
/// length); where `y` is one past the last row, a new last row holding `c`.
pub open spec fn rows_with_char_inserted(rows: Seq<Seq<char>>, c: char, x: int, y: int) -> Seq<Seq<char>> {
    if y < rows.len() {
        rows.update(y, char_inserted(rows[y], c, x))
    } else {
        rows.push(seq![c])
    }
}

/// `rows` with the codepoint at `x` of row `y` removed, where there is one.
pub open spec fn rows_with_char_deleted(rows: Seq<Seq<char>>, x: int, y: int) -> Seq<Seq<char>> {
    rows.update(y, char_deleted(rows[y], x))
}

/// `rows` with an empty row just after row `after`, where that row exists.
pub open spec fn rows_with_row_inserted(rows: Seq<Seq<char>>, after: int) -> Seq<Seq<char>> {
    if 0 <= after < rows.len() {
        rows.insert(after + 1, Seq::empty())
    } else {
        rows
    }
}

/// `rows` without row `index`; where that leaves no row, one empty row.
pub open spec fn rows_with_row_deleted(rows: Seq<Seq<char>>, index: int) -> Seq<Seq<char>> {
    if rows.len() == 1 {
        seq![Seq::empty()]
    } else {
        rows.remove(index)
    }
}

/// `rows` with row `y` appended to row `y - 1` and removed.
pub open spec fn rows_joined(rows: Seq<Seq<char>>, y: int) -> Seq<Seq<char>> {
    rows.update(y - 1, rows[y - 1] + rows[y]).remove(y)
}

/// The lines of `s` that end in a newline, each without it (nor a carriage
/// return just before it), and the text after the last newline.
pub open spec fn split_at_newlines(s: Seq<char>) -> (Seq<Seq<char>>, Seq<char>)
    decreases s.len(),
{
    if s.len() == 0 {
        (Seq::empty(), Seq::empty())
    } else {
        let (done, rest) = split_at_newlines(s.drop_last());
        if s.last() == '\n' {
            (done.push(without_carriage_return(rest)), Seq::empty())
        } else {
            (done, rest.push(s.last()))
        }
    }
}

/// `line` without a carriage return at its end.
pub open spec fn without_carriage_return(line: Seq<char>) -> Seq<char> {
    if line.len() > 0 && line.last() == '\r' {
        line.drop_last()
    } else {
        line
    }
}

/// The lines of a text: split at each newline, with no empty line after a
/// final newline.
pub open spec fn lines_of(s: Seq<char>) -> Seq<Seq<char>> {
    let (done, rest) = split_at_newlines(s);
    if rest.len() == 0 {
        done
    } else {
        done.push(rest)
    }
}

/// The rows that a text loads as: its lines, or one empty row where it has none.
pub open spec fn rows_of_text(s: Seq<char>) -> Seq<Seq<char>> {
    if lines_of(s).len() == 0 {
        seq![Seq::empty()]
    } else {
        lines_of(s)
    }
}

/// The text that `rows` are saved as: each row followed by a newline.
pub open spec fn text_of(rows: Seq<Seq<char>>) -> Seq<char>
    decreases rows.len(),
{
    if rows.len() == 0 {
        Seq::empty()
    } else {
        text_of(rows.drop_last()) + rows.last().push('\n')
    }
}

/// The text being edited: its rows, never fewer than one, and the name of the
/// file it belongs to, where it has one.
pub struct Document {
    rows: Vec<Row>,
    file_name: Option<String>,
}

impl View for Document {
    type V = Seq<Seq<char>>;

    closed spec fn view(&self) -> Seq<Seq<char>> {
        self.rows@.map_values(|r: Row| r@)
    }
}

impl Document {
    /// Well-formed: the document has at least one row.
    pub open spec fn wf(&self) -> bool {
        self@.len() >= 1
    }

    /// The name of the file that the document belongs to, where it has one.
    pub closed spec fn name(&self) -> Option<Seq<char>> {
        match self.file_name {
            Some(n) => Some(n@),
            None => None,
        }
    }

    /// A document of one row holding `string`, with no file name.
    pub fn from(string: &str) -> (d: Document)
        ensures
            d@ == seq![string@],
            d.name() is None,
            d.wf(),
    {
        let rows = vec![Row::from(string)];
        let d = Document { rows, file_name: None };
        assert(d@ =~= seq![string@]);
        d
    }

    /// A document of one empty row, with no file name.
    pub fn new_empty() -> (d: Document)
        ensures
            d@ == seq![Seq::<char>::empty()],
            d.name() is None,
            d.wf(),
    {
        let rows = vec![Row::new()];
        let d = Document { rows, file_name: None };
        assert(d@ =~= seq![Seq::<char>::empty()]);
        d
    }

    /// The document for the text `content` of the file `file_name`: one row
    /// per line, and one empty row where the text has no line.
    pub fn load(file_name: &str, content: &str) -> (d: Document)
        ensures
            d@ == rows_of_text(content@),
            d.name() == Some(file_name@),
            d.wf(),
    {
        let mut rows: Vec<Row> = Vec::new();
        let mut line = Row::new();
        for c in it: content.chars()
            invariant
                it.seq() == content@,
                rows@.map_values(|r: Row| r@) == split_at_newlines(content@.take(it.index() as int)).0,
                line@ == split_at_newlines(content@.take(it.index() as int)).1,
        {
            proof {
                let next = content@.take(it.index() + 1);
                assert(next.drop_last() =~= content@.take(it.index() as int));
                assert(next.last() == c);
            }
            if c == '\n' {
                let last = line.len();
                if last > 0 && line.char_at(last - 1) == '\r' {
                    line.delete_char(last - 1);
                }
                rows.push(line);
                line = Row::new();
                assert(rows@.map_values(|r: Row| r@) =~= split_at_newlines(content@.take(it.index() + 1)).0);
            } else {
                line.insert_char(c, line.len());
            }
        }
        assert(content@.take(content@.len() as int) =~= content@);
        if line.len() > 0 {
            rows.push(line);
        }
        if rows.len() == 0 {
            rows.push(Row::new());
        }
        let d = Document { rows, file_name: Some(String::from_str(file_name)) };
        assert(d@ =~= rows_of_text(content@));
        d
    }

    /// The whole text as it is saved: each row followed by a newline.
    pub fn to_text(&self) -> (r: String)
        ensures
            r@ == text_of(self@),
    {
        let mut out = String::new();
        let mut i: usize = 0;
        while i < self.rows.len()
            invariant
                i <= self@.len(),
                self@.len() == self.rows@.len(),
                out@ == text_of(self@.take(i as int)),
            decreases self.rows@.len() - i,
        {
            let row = &self.rows[i];
            assert(self@.take(i + 1).drop_last() =~= self@.take(i as int));
            let mut j: usize = 0;
            while j < row.len()
                invariant
                    j <= row@.len(),
                    out@ == text_of(self@.take(i as int)) + row@.take(j as int),
                decreases row@.len() - j,
            {
                push_char(&mut out, row.char_at(j));
                assert(row@.take(j + 1) =~= row@.take(j as int).push(row@[j as int]));
                j = j + 1;
            }
            push_char(&mut out, '\n');
            assert(row@.take(j as int) =~= row@);
            i = i + 1;
        }
        assert(self@.take(i as int) =~= self@);
        out
    }

    /// The name of the file that the document belongs to.
    pub fn file_name(&self) -> (r: &Option<String>)
        ensures
            r is Some <==> self.name() is Some,
            r is Some ==> self.name() == Some(r->0@),
    {
        &self.file_name
    }

    /// The number of rows fits in a machine word.
    pub proof fn lemma_len_fits(&self)
        ensures
            self@.len() <= usize::MAX,
    {
        assert(self.rows@.len() == self.rows.len());
    }

    /// The number of rows (at least one in a well-formed document).
    pub fn len(&self) -> (r: usize)
        ensures
            r == self@.len(),
    {
        self.rows.len()
    }

    /// The row at `index`, where there is one.
    pub fn row(&self, index: usize) -> (r: Option<&Row>)
        ensures
            index < self@.len() ==> r is Some && r->0@ == self@[index as int],
            index >= self@.len() ==> r is None,
    {
        if index < self.rows.len() {
            Some(&self.rows[index])
        } else {
            None
        }
    }

    /// Removes row `index`; where it was the only row, one empty row is left.
    pub fn delete_row(&mut self, index: usize)
        requires
            old(self).wf(),
            index < old(self)@.len(),
        ensures
            final(self)@ == rows_with_row_deleted(old(self)@, index as int),
            final(self).wf(),
            final(self).name() == old(self).name(),
    {
        if self.rows.len() == 1 {
            self.rows = vec![Row::new()];
            assert(self@ =~= seq![Seq::<char>::empty()]);
        } else {
            let ghost before = self@;
            self.rows.remove(index);
            assert(self@ =~= before.remove(index as int));
        }
    }

    /// Inserts an empty row just after row `index`; does nothing where there
    /// is no such row. The content of row `index` is not split.
    pub fn insert_row(&mut self, index: usize)
        requires
            old(self).wf(),
        ensures
            final(self)@ == rows_with_row_inserted(old(self)@, index as int),
            final(self).wf(),
            final(self).name() == old(self).name(),
    {
        if index < self.rows.len() {
            let ghost before = self.rows@;
            self.rows.insert(index + 1, Row::new());
            assert(self@ =~= before.map_values(|r: Row| r@).insert(index + 1, Seq::<char>::empty()));
        }
    }

    /// Inserts `new_char` into row `index_y` at codepoint offset `index_x`
    /// (clamped to the row's length); where `index_y` is the number of rows,
    /// appends a new row holding `new_char` alone.
    pub fn insert_char(&mut self, new_char: char, index_x: usize, index_y: usize)
        requires
            old(self).wf(),
            index_y <= old(self)@.len(),
        ensures
            final(self)@ == rows_with_char_inserted(old(self)@, new_char, index_x as int, index_y as int),
            final(self).wf(),
            final(self).name() == old(self).name(),
    {
        let ghost before = self@;
        if index_y < self.rows.len() {
            self.rows[index_y].insert_char(new_char, index_x);
            assert(self@ =~= before.update(index_y as int, char_inserted(before[index_y as int], new_char, index_x as int)));
        } else {
            let mut row = Row::new();
            row.insert_char(new_char, 0);
            self.rows.push(row);
            assert(self@ =~= before.push(seq![new_char]));
        }
    }

    /// Removes the codepoint at offset `index_x` of row `index_y`; does
    /// nothing where the row has no such codepoint.
    pub fn delete_char(&mut self, index_x: usize, index_y: usize)
        requires
            index_y < old(self)@.len(),
        ensures
            final(self)@ == rows_with_char_deleted(old(self)@, index_x as int, index_y as int),
            final(self).wf(),
            final(self).name() == old(self).name(),
    {
        let ghost before = self@;
        self.rows[index_y].delete_char(index_x);
        assert(self@ =~= before.update(index_y as int, char_deleted(before[index_y as int], index_x as int)));
    }

    /// Appends row `index` to the row before it and removes it.
    pub fn join_with_previous(&mut self, index: usize)
        requires
            0 < index < old(self)@.len(),
        ensures
            final(self)@ == rows_joined(old(self)@, index as int),
            final(self).wf(),
            final(self).name() == old(self).name(),
    {
        let ghost before = self@;
        let row = self.rows.remove(index);
        let ghost removed = self.rows@;
        let ghost name = self.name();
        assert(row@ == before[index as int]);
        assert(removed.map_values(|r: Row| r@) =~= before.remove(index as int));
        let n = row.len();
        let mut j: usize = 0;
        while j < n
            invariant
                n == row@.len(),
                j <= n,
                0 < index,
                self.name() == name,
                index - 1 < self.rows@.len(),
                self.rows@.len() == removed.len(),
                forall|k: int| 0 <= k < self.rows@.len() && k != index - 1 ==> self.rows@[k] == removed[k],
                self.rows@[index - 1]@ == removed[index - 1]@ + row@.take(j as int),
            decreases n - j,
        {
            let c = row.char_at(j);
            let end = self.rows[index - 1].len();
            self.rows[index - 1].insert_char(c, end);
            assert(row@.take(j + 1) =~= row@.take(j as int).push(c));
            j = j + 1;
        }
        assert(row@.take(n as int) =~= row@);
        let ghost target = rows_joined(before, index as int);
        assert forall|k: int| 0 <= k < target.len() implies self@[k] == target[k] by {
            assert(removed.map_values(|r: Row| r@)[k] == before.remove(index as int)[k]);
            if k < index {
                assert(target[k] == before.update(index - 1, before[index - 1] + before[index as int])[k]);
            } else {
                assert(target[k] == before.update(index - 1, before[index - 1] + before[index as int])[k + 1]);
            }
        }
        assert(self@ =~= target);
    }
}

impl Default for Document {
    /// An empty document: one empty row, no file name.
    fn default() -> (d: Document)
        ensures
            d@ == seq![Seq::<char>::empty()],
            d.name() is None,
            d.wf(),
    {
        Document::new_empty()
    }
}

/// Inserting a codepoint into a row and then deleting it at the same offset
/// gives back the rows as they were.
pub proof fn lemma_insert_then_delete_restores(rows: Seq<Seq<char>>, c: char, x: int, y: int)
    requires
        0 <= y < rows.len(),
        0 <= x <= rows[y].len(),
    ensures
        rows_with_char_deleted(rows_with_char_inserted(rows, c, x, y), x, y) == rows,
{
    let inserted = rows_with_char_inserted(rows, c, x, y);
    assert(inserted[y] == rows[y].insert(x, c));
    assert(inserted[y].remove(x) =~= rows[y]);
    assert(rows_with_char_deleted(inserted, x, y) =~= rows);
}

/// Deleting a row always leaves at least one row; deleting the only row
/// leaves one empty row.
pub proof fn lemma_delete_row_keeps_a_row(rows: Seq<Seq<char>>, index: int)
    requires
        rows.len() >= 1,
        0 <= index < rows.len(),
    ensures
        rows_with_row_deleted(rows, index).len() >= 1,
        rows.len() == 1 ==> rows_with_row_deleted(rows, index) == seq![Seq::<char>::empty()],
{
}

/// Expanding tabs gives at most four glyphs per codepoint, and exactly one
/// per codepoint where there is no tab.
pub proof fn lemma_expand_tabs_len(s: Seq<char>)
    ensures
        expand_tabs(s).len() <= 4 * s.len(),
        (forall|i: int| 0 <= i < s.len() ==> s[i] != '\t') ==> expand_tabs(s).len() == s.len(),
    decreases s.len(),
{
    if s.len() > 0 {
        lemma_expand_tabs_len(s.drop_last());
        assert forall|i: int| 0 <= i < s.drop_last().len() implies s.drop_last()[i] == s[i] by {}
    }
}

/// Rendering a row is defined for every `begin` and `end`: the window holds
/// no more than `end - begin` codepoints (none where `end < begin`) and no
/// more than the row; the text shown has as many glyphs as the window has
/// codepoints where it holds no tab, and at most four per codepoint otherwise.
pub proof fn lemma_render_length(s: Seq<char>, begin: int, end: int)
    requires
        0 <= begin,
        0 <= end,
    ensures
        window(s, begin, end).len() <= s.len(),
        begin <= end ==> window(s, begin, end).len() <= end - begin,
        end < begin ==> window(s, begin, end).len() == 0,
        expand_tabs(window(s, begin, end)).len() <= 4 * window(s, begin, end).len(),
        (forall|i: int| 0 <= i < window(s, begin, end).len() ==> window(s, begin, end)[i] != '\t')
            ==> expand_tabs(window(s, begin, end)).len() == window(s, begin, end).len(),
{
    lemma_expand_tabs_len(window(s, begin, end));
}

} // verus!
