//! The two line-index strategies — the byte buffer's full rescan and the
//! rope's internal bookkeeping — must induce identical line boundaries on
//! identical content.

use curumim::document::Document;
use curumim::editor::Editor;

#[test]
fn rope_and_rescan_agree_on_line_boundaries() {
    let samples = ["", "a", "\n", "ab\ncd", "ab\n\ncd\n", "x\ny\nz", "\n\n\n", "last line"];
    for text in samples {
        let d = Document::from_bytes(None, text.as_bytes().to_vec());
        let ed = Editor::new(None, text).unwrap();
        assert_eq!(d.len(), ed.len_lines().unwrap());
        for l in 0..d.len() {
            let line = d.get_line(l).unwrap();
            let excl = line.len();
            let incl = ed.len_line(l).unwrap();
            let has_terminator = l + 1 < d.len();
            assert_eq!(incl, excl + if has_terminator { 1 } else { 0 });
            let from_rope = ed.get_line(l).unwrap();
            let from_rescan = d.get_str_line(l).unwrap();
            assert_eq!(from_rope.trim_end_matches('\n'), from_rescan);
        }
    }
}

#[test]
fn edits_keep_the_two_indexes_in_step() {
    let mut d = Document::from_bytes(None, b"ab\ncd".to_vec());
    let mut ed = Editor::new(None, "ab\ncd").unwrap();
    d.insert(2, b'\n').unwrap();
    ed.move_cursor_h(2);
    ed.insert('\n').unwrap();
    assert_eq!(d.len(), ed.len_lines().unwrap());
    for l in 0..d.len() {
        assert_eq!(
            d.get_str_line(l).unwrap(),
            ed.get_line(l).unwrap().trim_end_matches('\n')
        );
    }
}
