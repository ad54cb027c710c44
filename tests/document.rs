use modal_editor::Document;
use modal_editor::Row;

fn row_text(doc: &Document, y: usize) -> String {
    doc.row(y).unwrap().render(0, usize::MAX)
}

#[test]
fn from_holds_one_row() {
    let doc = Document::from("abc");
    assert_eq!(doc.len(), 1);
    assert_eq!(row_text(&doc, 0), "abc");
    assert!(doc.file_name().is_none());
}

#[test]
fn new_empty_has_one_empty_row_and_no_name() {
    let doc = Document::new_empty();
    assert_eq!(doc.len(), 1);
    assert_eq!(row_text(&doc, 0), "");
    assert!(doc.file_name().is_none());
}

#[test]
fn default_is_the_fallback_for_a_missing_file() {
    let doc = Document::default();
    assert_eq!(doc.len(), 1);
    assert_eq!(doc.row(0).unwrap().len(), 0);
    assert!(doc.file_name().is_none());
}

#[test]
fn load_splits_lines_without_trailing_empty_row() {
    let doc = Document::load("notes.txt", "one\ntwo\r\nthree\n");
    assert_eq!(doc.len(), 3);
    assert_eq!(row_text(&doc, 0), "one");
    assert_eq!(row_text(&doc, 1), "two");
    assert_eq!(row_text(&doc, 2), "three");
    assert_eq!(doc.file_name().as_deref(), Some("notes.txt"));
}

#[test]
fn load_keeps_last_line_without_newline() {
    let doc = Document::load("f", "a\n\nb");
    assert_eq!(doc.len(), 3);
    assert_eq!(row_text(&doc, 0), "a");
    assert_eq!(row_text(&doc, 1), "");
    assert_eq!(row_text(&doc, 2), "b");
}

#[test]
fn load_of_empty_text_has_one_empty_row() {
    let doc = Document::load("f", "");
    assert_eq!(doc.len(), 1);
    assert_eq!(row_text(&doc, 0), "");
}

#[test]
fn to_text_ends_each_row_with_newline() {
    let doc = Document::load("f", "x\ny");
    assert_eq!(doc.to_text(), "x\ny\n");
    assert_eq!(Document::new_empty().to_text(), "\n");
}

#[test]
fn insert_then_delete_restores_row() {
    let mut doc = Document::from("héllo");
    doc.insert_char('ß', 2, 0);
    assert_eq!(row_text(&doc, 0), "héßllo");
    doc.delete_char(2, 0);
    assert_eq!(row_text(&doc, 0), "héllo");
}

#[test]
fn insert_char_clamps_column_and_appends_row() {
    let mut doc = Document::from("ab");
    doc.insert_char('c', 10, 0);
    assert_eq!(row_text(&doc, 0), "abc");
    doc.insert_char('z', 0, 1);
    assert_eq!(doc.len(), 2);
    assert_eq!(row_text(&doc, 1), "z");
}

#[test]
fn delete_char_out_of_range_is_no_op() {
    let mut doc = Document::from("ab");
    doc.delete_char(2, 0);
    assert_eq!(row_text(&doc, 0), "ab");
}

#[test]
fn delete_only_row_leaves_one_empty_row() {
    let mut doc = Document::from("text");
    doc.delete_row(0);
    assert_eq!(doc.len(), 1);
    assert_eq!(row_text(&doc, 0), "");
}

#[test]
fn delete_row_removes_that_row() {
    let mut doc = Document::load("f", "a\nb\nc");
    doc.delete_row(1);
    assert_eq!(doc.len(), 2);
    assert_eq!(row_text(&doc, 0), "a");
    assert_eq!(row_text(&doc, 1), "c");
}

#[test]
fn insert_row_adds_empty_row_below_without_split() {
    let mut doc = Document::load("f", "ab\ncd");
    doc.insert_row(0);
    assert_eq!(doc.len(), 3);
    assert_eq!(row_text(&doc, 0), "ab");
    assert_eq!(row_text(&doc, 1), "");
    assert_eq!(row_text(&doc, 2), "cd");
    doc.insert_row(7);
    assert_eq!(doc.len(), 3);
}

#[test]
fn join_with_previous_appends_row() {
    let mut doc = Document::load("f", "ab\ncd\nef");
    doc.join_with_previous(1);
    assert_eq!(doc.len(), 2);
    assert_eq!(row_text(&doc, 0), "abcd");
    assert_eq!(row_text(&doc, 1), "ef");
}

#[test]
fn row_past_end_is_none() {
    let doc = Document::from("a");
    assert!(doc.row(1).is_none());
}

#[test]
fn render_clamps_window() {
    let row = Row::from("hello");
    assert_eq!(row.render(1, 3), "el");
    assert_eq!(row.render(3, 100), "lo");
    assert_eq!(row.render(9, 12), "");
    assert_eq!(row.render(4, 2), "");
    assert_eq!(row.render(0, 0), "");
}

#[test]
fn render_expands_tabs() {
    let row = Row::from("a\tb");
    assert_eq!(row.render(0, 3), "a    b");
    assert_eq!(row.render(1, 2), "    ");
}

#[test]
fn render_counts_codepoints() {
    let row = Row::from("añö€z");
    assert_eq!(row.len(), 5);
    assert_eq!(row.render(1, 4), "ñö€");
}

#[test]
fn row_edits_by_codepoint() {
    let mut row = Row::from("äb");
    row.insert_char('x', 1);
    assert_eq!(row.render(0, 10), "äxb");
    row.delete_char(0);
    assert_eq!(row.render(0, 10), "xb");
    assert_eq!(row.char_at(1), 'b');
}

#[test]
fn load_keeps_carriage_return_of_unterminated_last_line() {
    let doc = Document::load("f", "a\r\nb\r");
    assert_eq!(doc.len(), 2);
    assert_eq!(row_text(&doc, 0), "a");
    assert_eq!(row_text(&doc, 1), "b\r");
}
