use modal_editor::Action;
use modal_editor::Document;
use modal_editor::Editor;
use modal_editor::Key;
use modal_editor::Mode;
use modal_editor::Status;

fn row_text(editor: &Editor, y: usize) -> String {
    editor.document().row(y).unwrap().render(0, usize::MAX)
}

fn press(editor: &mut Editor, keys: &[Key]) -> Vec<bool> {
    keys.iter()
        .map(|k| matches!(editor.process_key(*k), Action::Write { .. }))
        .collect()
}

fn type_text(editor: &mut Editor, text: &str) {
    for c in text.chars() {
        let action = editor.process_key(Key::Char(c));
        assert!(matches!(action, Action::Nothing));
    }
}

#[test]
fn starts_in_normal_mode_at_origin() {
    let editor = Editor::default();
    assert!(matches!(editor.mode(), Mode::Normal));
    assert!(!editor.should_quit());
    assert_eq!(editor.cursor().x, 0);
    assert_eq!(editor.cursor().y, 0);
    assert_eq!(editor.status(), Status::Ready);
}

#[test]
fn insert_hi_on_empty_document() {
    let mut editor = Editor::new(Document::new_empty());
    editor.process_key(Key::Char('i'));
    assert!(matches!(editor.mode(), Mode::Insert));
    type_text(&mut editor, "hi");
    assert_eq!(row_text(&editor, 0), "hi");
    assert_eq!(editor.cursor().x, 2);
}

#[test]
fn x_deletes_under_cursor_in_normal_mode() {
    let mut editor = Editor::new(Document::from("hello"));
    press(&mut editor, &[Key::Char('l'), Key::Char('l')]);
    assert_eq!(editor.cursor().x, 2);
    editor.process_key(Key::Char('x'));
    assert_eq!(row_text(&editor, 0), "helo");
    assert_eq!(editor.cursor().x, 2);
}

#[test]
fn prompt_wq_asks_for_write_of_joined_rows() {
    let mut editor = Editor::new(Document::load("out.txt", "first\nsecond"));
    type_text(&mut editor, ":wq");
    match editor.process_key(Key::Enter) {
        Action::Write { path, text } => {
            assert_eq!(path, "out.txt");
            assert_eq!(text, "first\nsecond\n");
        }
        Action::Nothing => panic!("no write asked for"),
    }
    assert!(matches!(editor.mode(), Mode::Normal));
    editor.write_finished(true);
    assert!(editor.should_quit());
}

#[test]
fn prompt_q_quits_without_write() {
    let mut editor = Editor::new(Document::load("keep.txt", "data"));
    let writes = press(&mut editor, &[Key::Char(':'), Key::Char('q'), Key::Enter]);
    assert_eq!(writes, vec![false, false, false]);
    assert!(editor.should_quit());
    assert!(matches!(editor.mode(), Mode::Normal));
}

#[test]
fn failed_write_is_reported_and_does_not_quit() {
    let mut editor = Editor::new(Document::load("f", "a"));
    let writes = press(&mut editor, &[Key::Char(':'), Key::Char('w'), Key::Char('q'), Key::Enter]);
    assert_eq!(writes, vec![false, false, false, true]);
    editor.write_finished(false);
    assert!(!editor.should_quit());
    assert_eq!(editor.status(), Status::SaveFailed);
    editor.process_key(Key::Char('h'));
    assert_eq!(editor.status(), Status::Ready);
}

#[test]
fn wq_without_file_name_reports_it() {
    let mut editor = Editor::default();
    let writes = press(&mut editor, &[Key::Char(':'), Key::Char('w'), Key::Char('q'), Key::Enter]);
    assert_eq!(writes, vec![false, false, false, false]);
    assert_eq!(editor.status(), Status::NoFileName);
    assert!(!editor.should_quit());
}

#[test]
fn unknown_prompt_command_is_ignored() {
    let mut editor = Editor::default();
    press(&mut editor, &[Key::Char(':'), Key::Char('z'), Key::Enter]);
    assert!(!editor.should_quit());
    assert!(matches!(editor.mode(), Mode::Normal));
    assert_eq!(editor.status(), Status::Ready);
}

#[test]
fn prompt_backspace_and_escape() {
    let mut editor = Editor::default();
    press(&mut editor, &[Key::Char(':'), Key::Char('x'), Key::Backspace, Key::Backspace, Key::Char('q')]);
    match editor.mode() {
        Mode::Prompt(p) => assert_eq!(p, &vec!['q']),
        _ => panic!("not in prompt"),
    }
    editor.process_key(Key::Esc);
    assert!(matches!(editor.mode(), Mode::Normal));
    press(&mut editor, &[Key::Char(':'), Key::Enter]);
    assert!(!editor.should_quit());
}

#[test]
fn ctrl_q_quits_from_any_mode() {
    let mut editor = Editor::default();
    editor.process_key(Key::Char('i'));
    editor.process_key(Key::Ctrl('q'));
    assert!(editor.should_quit());
}

#[test]
fn other_keys_are_ignored() {
    let mut editor = Editor::new(Document::from("ab"));
    press(&mut editor, &[Key::Other, Key::Ctrl('a'), Key::Char('z'), Key::Enter, Key::Backspace]);
    assert_eq!(row_text(&editor, 0), "ab");
    assert!(matches!(editor.mode(), Mode::Normal));
    assert!(!editor.should_quit());
}

#[test]
fn movement_is_clamped() {
    let mut editor = Editor::new(Document::load("f", "abc\nd"));
    press(&mut editor, &[Key::Char('h'), Key::Char('k')]);
    assert_eq!((editor.cursor().x, editor.cursor().y), (0, 0));
    press(&mut editor, &[Key::Char('l'), Key::Char('l'), Key::Char('l'), Key::Char('l')]);
    assert_eq!(editor.cursor().x, 3);
    press(&mut editor, &[Key::Char('j'), Key::Char('j')]);
    assert_eq!(editor.cursor().y, 1);
    // Normal mode keeps the column on a vertical move.
    assert_eq!(editor.cursor().x, 3);
    editor.process_key(Key::Char('i'));
    assert_eq!(editor.cursor().x, 1);
}

#[test]
fn d_deletes_row_and_keeps_cursor_on_a_row() {
    let mut editor = Editor::new(Document::load("f", "a\nb"));
    editor.process_key(Key::Char('j'));
    editor.process_key(Key::Char('d'));
    assert_eq!(editor.document().len(), 1);
    assert_eq!(editor.cursor().y, 0);
    editor.process_key(Key::Char('d'));
    assert_eq!(editor.document().len(), 1);
    assert_eq!(row_text(&editor, 0), "");
}

#[test]
fn o_opens_row_below() {
    let mut editor = Editor::new(Document::from("top"));
    editor.process_key(Key::Char('o'));
    assert_eq!(editor.document().len(), 2);
    assert_eq!(row_text(&editor, 1), "");
    assert_eq!(editor.cursor().y, 0);
}

#[test]
fn enter_in_insert_mode_starts_new_row() {
    let mut editor = Editor::default();
    editor.process_key(Key::Char('i'));
    type_text(&mut editor, "ab");
    editor.process_key(Key::Enter);
    type_text(&mut editor, "c");
    assert_eq!(editor.document().to_text(), "ab\nc\n");
    assert_eq!((editor.cursor().x, editor.cursor().y), (1, 1));
}

#[test]
fn backspace_in_insert_mode_erases_and_joins() {
    let mut editor = Editor::new(Document::load("f", "ab\ncd"));
    press(&mut editor, &[Key::Char('j'), Key::Char('l'), Key::Char('i'), Key::Backspace]);
    assert_eq!(row_text(&editor, 1), "d");
    assert_eq!(editor.cursor().x, 0);
    editor.process_key(Key::Backspace);
    assert_eq!(editor.document().len(), 1);
    assert_eq!(row_text(&editor, 0), "abd");
    assert_eq!((editor.cursor().x, editor.cursor().y), (2, 0));
    press(&mut editor, &[Key::Char('h'), Key::Backspace, Key::Backspace, Key::Backspace]);
    assert_eq!(row_text(&editor, 0), "d");
    assert_eq!(editor.cursor().x, 0);
}

#[test]
fn escape_leaves_insert_mode_and_keeps_text() {
    let mut editor = Editor::default();
    editor.process_key(Key::Char('i'));
    type_text(&mut editor, "ok");
    editor.process_key(Key::Esc);
    assert!(matches!(editor.mode(), Mode::Normal));
    assert_eq!(row_text(&editor, 0), "ok");
}
