use curumim::editor::Editor;
use curumim::error::EditorError;
use curumim::input::{Key, KeyOutcome};

fn text_of(ed: &Editor) -> String {
    let mut out = String::new();
    let n = ed.len_lines().unwrap();
    for l in 0..n {
        out.push_str(&ed.get_line(l).unwrap());
    }
    out
}

#[test]
fn empty_insert_move_delete_scenario() {
    let mut ed = Editor::new(None, "").unwrap();
    ed.insert('a').unwrap();
    ed.insert('b').unwrap();
    assert_eq!(ed.get_cursor_pos().unwrap(), 2);
    ed.move_cursor_h(-1);
    assert_eq!(ed.get_cursor_pos().unwrap(), 1);
    ed.delete().unwrap();
    assert_eq!(text_of(&ed), "b");
    assert_eq!(ed.get_cursor_pos().unwrap(), 0);
}

#[test]
fn vertical_move_keeps_the_column() {
    let mut ed = Editor::new(None, "ab\ncd").unwrap();
    ed.move_cursor_h(1);
    assert_eq!(ed.get_cursor_pos().unwrap(), 1);
    ed.move_cursor_v(1);
    assert_eq!(ed.get_cursor_pos().unwrap(), 4);
    assert_eq!(ed.get_char(4).unwrap(), 'd');
}

#[test]
fn vertical_move_at_the_edges_is_a_noop() {
    let mut ed = Editor::new(None, "ab\ncd").unwrap();
    ed.move_cursor_h(1);
    ed.move_cursor_v(-1);
    assert_eq!(ed.get_cursor_pos().unwrap(), 1);
    ed.move_cursor_v(1);
    ed.move_cursor_v(1);
    assert_eq!(ed.get_cursor_pos().unwrap(), 4);
}

#[test]
fn vertical_move_clamps_to_a_shorter_line() {
    let mut ed = Editor::new(None, "abcdef\nxy").unwrap();
    ed.move_cursor_h(5);
    assert_eq!(ed.get_cursor_pos().unwrap(), 5);
    ed.move_cursor_v(1);
    // Line 1 starts at 7 and has length 2, so the column clamps to 2.
    assert_eq!(ed.get_cursor_pos().unwrap(), 9);
    ed.move_cursor_v(-1);
    assert_eq!(ed.get_cursor_pos().unwrap(), 2);
}

#[test]
fn undo_insert_restores_content() {
    let mut ed = Editor::new(None, "hello").unwrap();
    ed.move_cursor_h(2);
    ed.insert('X').unwrap();
    assert_eq!(text_of(&ed), "heXllo");
    ed.undo().unwrap();
    assert_eq!(text_of(&ed), "hello");
}

#[test]
fn undo_delete_reinserts_the_character() {
    let mut ed = Editor::new(None, "hello").unwrap();
    ed.move_cursor_h(3);
    ed.delete().unwrap();
    assert_eq!(text_of(&ed), "helo");
    ed.undo().unwrap();
    assert_eq!(text_of(&ed), "hello");
    assert_eq!(ed.get_char(2).unwrap(), 'l');
}

#[test]
fn undo_on_empty_history_is_a_noop() {
    let mut ed = Editor::new(None, "hi").unwrap();
    ed.undo().unwrap();
    assert_eq!(text_of(&ed), "hi");
    assert_eq!(ed.get_cursor_pos().unwrap(), 0);
}

#[test]
fn horizontal_move_clamps_to_the_document() {
    let mut ed = Editor::new(None, "abc").unwrap();
    ed.move_cursor_h(-5);
    assert_eq!(ed.get_cursor_pos().unwrap(), 0);
    ed.move_cursor_h(100);
    assert_eq!(ed.get_cursor_pos().unwrap(), 3);
}

#[test]
fn home_end_top_bottom() {
    let mut ed = Editor::new(None, "ab\ncd").unwrap();
    ed.move_cursor_h(4);
    ed.move_cursor_home();
    assert_eq!(ed.get_cursor_pos().unwrap(), 3);
    ed.move_cursor_end();
    assert_eq!(ed.get_cursor_pos().unwrap(), 5);
    ed.move_cursor_top();
    assert_eq!(ed.get_cursor_pos().unwrap(), 0);
    ed.move_cursor_end();
    assert_eq!(ed.get_cursor_pos().unwrap(), 2);
    ed.move_cursor_bottom();
    assert_eq!(ed.get_cursor_pos().unwrap(), 3);
}

#[test]
fn lines_are_measured_with_their_terminator() {
    let ed = Editor::new(None, "ab\ncd").unwrap();
    assert_eq!(ed.len_lines().unwrap(), 2);
    assert_eq!(ed.len_line(0).unwrap(), 3);
    assert_eq!(ed.len_line(1).unwrap(), 2);
    assert_eq!(ed.len_line(9), Err(EditorError::NoSuchLine));
    assert_eq!(ed.get_line(0).unwrap(), "ab\n");
    assert_eq!(ed.get_line(1).unwrap(), "cd");
    assert_eq!(ed.get_line(9), Err(EditorError::NoSuchLine));
}

#[test]
fn get_char_is_blank_past_the_end() {
    let ed = Editor::new(None, "ab").unwrap();
    assert_eq!(ed.get_char(0).unwrap(), 'a');
    assert_eq!(ed.get_char(1).unwrap(), 'b');
    assert_eq!(ed.get_char(2).unwrap(), ' ');
}

#[test]
fn save_needs_a_target_and_round_trips() {
    let mut ed = Editor::new(None, "ab\ncd").unwrap();
    assert_eq!(ed.save_file(), Err(EditorError::NoTarget));
    ed.set_path("out.txt".to_string());
    let (path, content) = ed.save_file().unwrap();
    assert_eq!(path, "out.txt");
    assert_eq!(content, "ab\ncd");
}

#[test]
fn keys_drive_the_editor() {
    let mut ed = Editor::new(None, "").unwrap();
    assert_eq!(ed.apply_key(Key::Char('h'), false), KeyOutcome::Continue);
    assert_eq!(ed.apply_key(Key::Char('i'), false), KeyOutcome::Continue);
    assert_eq!(ed.apply_key(Key::Enter, false), KeyOutcome::Continue);
    assert_eq!(ed.apply_key(Key::Char('o'), false), KeyOutcome::Continue);
    assert_eq!(text_of(&ed), "hi\no");
    assert_eq!(ed.apply_key(Key::Backspace, false), KeyOutcome::Continue);
    assert_eq!(text_of(&ed), "hi\n");
    assert_eq!(ed.apply_key(Key::Char('z'), true), KeyOutcome::Continue);
    assert_eq!(text_of(&ed), "hi\no");
    assert_eq!(ed.apply_key(Key::Up, false), KeyOutcome::Continue);
    assert_eq!(ed.get_cursor_pos().unwrap(), 1);
    assert_eq!(ed.apply_key(Key::Home, false), KeyOutcome::Continue);
    assert_eq!(ed.get_cursor_pos().unwrap(), 0);
    assert_eq!(ed.apply_key(Key::Char('s'), true), KeyOutcome::Save);
    assert_eq!(ed.apply_key(Key::Esc, false), KeyOutcome::Quit);
    assert_eq!(ed.apply_key(Key::Tab, false), KeyOutcome::Continue);
    assert_eq!(text_of(&ed), "hi\no");
}
