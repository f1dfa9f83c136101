use curumim::editor::Editor;
use curumim::render::{build_frame, check_buffers, diff_and_emit, scroll_to_cursor};
use curumim::term::Term;
use curumim::terminal::{Cell, Highlight, Terminal};
use curumim::utils::{Position, Rect};

#[test]
fn cell_carries_glyph_and_style() {
    let c = Cell::new('a', Highlight::Text);
    assert_eq!(c.glyph, 'a');
    assert_eq!(c.style, Highlight::Text);
}

#[test]
fn create_buffer_is_a_blank_grid() {
    let t = Terminal::new(4, 3);
    assert_eq!(t.get_size(), (4, 3));
    let buf = t.create_buffer();
    assert_eq!(buf.len(), 12);
    for c in &buf {
        assert_eq!(*c, Cell::new(' ', Highlight::Text));
    }
}

#[test]
fn term_reports_its_size() {
    let t = Term::new(80, 24);
    assert_eq!(t.size().width, 80);
    assert_eq!(t.size().height, 24);
}

#[test]
fn check_buffers_spots_a_difference() {
    let a = vec![Cell::new('a', Highlight::Text), Cell::new('b', Highlight::Text)];
    let b = vec![Cell::new('a', Highlight::Text), Cell::new('b', Highlight::Text)];
    assert!(!check_buffers(&a, &b));
    let c = vec![Cell::new('a', Highlight::Text), Cell::new('x', Highlight::Text)];
    assert!(check_buffers(&a, &c));
    // Frames of different sizes are not compared.
    let short = vec![Cell::new('a', Highlight::Text)];
    assert!(!check_buffers(&a, &short));
}

#[test]
fn diff_of_identical_frames_is_empty() {
    let f = vec![
        Cell::new('a', Highlight::Text),
        Cell::new('b', Highlight::Cursor),
        Cell::new(' ', Highlight::Text),
    ];
    assert!(diff_and_emit(&f, &f).is_empty());
}

#[test]
fn diff_emits_exactly_the_changed_cells_in_order() {
    let prev = vec![
        Cell::new('a', Highlight::Text),
        Cell::new('b', Highlight::Text),
        Cell::new('c', Highlight::Text),
        Cell::new('d', Highlight::Text),
    ];
    let next = vec![
        Cell::new('a', Highlight::Text),
        Cell::new('x', Highlight::Text),
        Cell::new('c', Highlight::Text),
        Cell::new('d', Highlight::Cursor),
    ];
    let updates = diff_and_emit(&prev, &next);
    assert_eq!(updates.len(), 2);
    assert_eq!(updates[0], (1, Cell::new('x', Highlight::Text)));
    assert_eq!(updates[1], (3, Cell::new('d', Highlight::Cursor)));
}

#[test]
fn build_frame_maps_lines_to_rows() {
    let ed = Editor::new(None, "ab\ncd").unwrap();
    let frame = build_frame(&ed, 2, 3, Position::new(0, 0));
    assert_eq!(frame.len(), 6);
    assert_eq!(frame[0], Cell::new('a', Highlight::Cursor));
    assert_eq!(frame[1], Cell::new('b', Highlight::Text));
    assert_eq!(frame[2], Cell::new(' ', Highlight::Text));
    assert_eq!(frame[3], Cell::new('c', Highlight::Text));
    assert_eq!(frame[4], Cell::new('d', Highlight::Text));
    assert_eq!(frame[5], Cell::new(' ', Highlight::Text));
}

#[test]
fn build_frame_honors_the_scroll_offset() {
    let mut ed = Editor::new(None, "ab\ncd\nef").unwrap();
    ed.move_cursor_v(2);
    // Cursor sits at offset 6, line 2 column 0; scroll the first line off.
    let frame = build_frame(&ed, 2, 2, Position::new(0, 1));
    assert_eq!(frame[0], Cell::new('c', Highlight::Text));
    assert_eq!(frame[1], Cell::new('d', Highlight::Text));
    assert_eq!(frame[2], Cell::new('e', Highlight::Cursor));
    assert_eq!(frame[3], Cell::new('f', Highlight::Text));
}

#[test]
fn rows_past_the_document_are_blank() {
    let ed = Editor::new(None, "ab").unwrap();
    let frame = build_frame(&ed, 2, 2, Position::new(0, 0));
    assert_eq!(frame[2], Cell::new(' ', Highlight::Text));
    assert_eq!(frame[3], Cell::new(' ', Highlight::Text));
}

#[test]
fn scrolling_keeps_the_cursor_visible() {
    // Cursor above the window: scroll up to its line.
    assert_eq!(scroll_to_cursor(Position::new(0, 5), 2, 0, 3, 10), Position::new(0, 2));
    // Cursor below the window: its line becomes the last visible row.
    assert_eq!(scroll_to_cursor(Position::new(0, 0), 7, 0, 3, 10), Position::new(0, 5));
    // Cursor inside the window: nothing moves.
    assert_eq!(scroll_to_cursor(Position::new(1, 1), 2, 3, 3, 10), Position::new(1, 1));
    // The horizontal axis follows the same rule independently.
    assert_eq!(scroll_to_cursor(Position::new(4, 0), 0, 1, 5, 3), Position::new(1, 0));
    assert_eq!(scroll_to_cursor(Position::new(0, 0), 0, 9, 5, 3), Position::new(7, 0));
}

#[test]
fn positions_and_rectangles() {
    let r = Rect::new(1, 2, 4, 6);
    assert_eq!(Position::from_rect(&r), Position::new(1, 2));
    assert!(Position::new(1, 2).in_range(&r));
    assert!(Position::new(4, 6).in_range(&r));
    assert!(Position::new(3, 4).in_range(&r));
    assert!(!Position::new(0, 4).in_range(&r));
    assert!(!Position::new(3, 7).in_range(&r));
}
