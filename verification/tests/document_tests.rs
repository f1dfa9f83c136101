use curumim::document::Document;
use curumim::error::EditorError;

#[test]
fn new_document_is_empty_with_one_line() {
    let d = Document::new().unwrap();
    assert!(d.is_empty());
    assert_eq!(d.len(), 1);
    assert!(d.has_at(0));
    assert!(!d.has_at(1));
    assert!(d.filename.is_none());
}

#[test]
fn line_count_is_newlines_plus_one() {
    assert_eq!(Document::from_bytes(None, b"".to_vec()).len(), 1);
    assert_eq!(Document::from_bytes(None, b"abc".to_vec()).len(), 1);
    assert_eq!(Document::from_bytes(None, b"a\nb".to_vec()).len(), 2);
    assert_eq!(Document::from_bytes(None, b"a\nb\ncd".to_vec()).len(), 3);
    assert_eq!(Document::from_bytes(None, b"a\n".to_vec()).len(), 2);
    assert_eq!(Document::from_bytes(None, b"\n\n".to_vec()).len(), 3);
}

#[test]
fn get_lines_matches_line_boundaries() {
    let lines = Document::get_lines(&b"ab\ncd".to_vec());
    assert_eq!(lines.len(), 2);
    assert_eq!(lines[0].len(), 2);
    assert_eq!(lines[0].index(), 0);
    assert_eq!(lines[1].len(), 2);
    assert_eq!(lines[1].index(), 1);

    let lines = Document::get_lines(&b"ab\n\ncd\n".to_vec());
    assert_eq!(lines.len(), 4);
    assert_eq!(lines[1].len(), 0);
    assert_eq!(lines[3].len(), 0);
}

#[test]
fn get_line_past_the_end_is_none() {
    let d = Document::from_bytes(None, b"ab\ncd".to_vec());
    assert!(d.get_line(0).is_some());
    assert!(d.get_line(1).is_some());
    assert!(d.get_line(2).is_none());
}

#[test]
fn get_str_line_returns_line_text() {
    let d = Document::from_bytes(None, b"ab\ncd".to_vec());
    assert_eq!(d.get_str_line(0).unwrap(), "ab");
    assert_eq!(d.get_str_line(1).unwrap(), "cd");
    assert_eq!(d.get_str_line(2), Err(EditorError::NoSuchLine));
}

#[test]
fn insert_then_delete_restores_content() {
    for offset in 0..=5usize {
        let mut d = Document::from_bytes(Some("t".to_string()), b"hello".to_vec());
        d.insert(offset, b'X').unwrap();
        d.delete(offset + 1).unwrap();
        let (_, bytes) = d.save().unwrap();
        assert_eq!(bytes, b"hello".to_vec());
    }
}

#[test]
fn insert_rejects_offset_past_the_end() {
    let mut d = Document::from_bytes(None, b"ab".to_vec());
    assert_eq!(d.insert(3, b'x'), Err(EditorError::OutOfRange));
    assert_eq!(d.insert(2, b'x'), Ok(()));
}

#[test]
fn delete_is_backspace_and_noop_at_zero() {
    let mut d = Document::from_bytes(Some("t".to_string()), b"abc".to_vec());
    d.delete(1).unwrap();
    assert_eq!(d.save().unwrap().1, b"bc".to_vec());
    d.delete(0).unwrap();
    assert_eq!(d.save().unwrap().1, b"bc".to_vec());
    assert_eq!(d.delete(9), Err(EditorError::OutOfRange));
}

#[test]
fn insert_updates_the_line_index() {
    let mut d = Document::from_bytes(None, b"ab".to_vec());
    assert_eq!(d.len(), 1);
    d.insert(1, b'\n').unwrap();
    assert_eq!(d.len(), 2);
    assert_eq!(d.get_str_line(0).unwrap(), "a");
    assert_eq!(d.get_str_line(1).unwrap(), "b");
}

#[test]
fn save_needs_a_target_and_is_verbatim() {
    let mut d = Document::from_bytes(None, b"ab\ncd".to_vec());
    assert_eq!(d.save(), Err(EditorError::NoTarget));
    d.filename = Some("out.txt".to_string());
    let (name, bytes) = d.save().unwrap();
    assert_eq!(name, "out.txt");
    assert_eq!(bytes, b"ab\ncd".to_vec());
}
