use kilo_core::cursor::CursorController;
use kilo_core::document::Document;
use kilo_core::row::Row;

#[test]
fn row_without_tabs_renders_unchanged() {
    let r = Row::new(String::from("hello, world"));
    let rendered: String = r.render.iter().collect();
    assert_eq!(rendered, "hello, world");
    let raw: String = r.chars.iter().collect();
    assert_eq!(raw, "hello, world");
}

#[test]
fn empty_row_renders_empty() {
    let r = Row::new(String::new());
    assert_eq!(r.chars.len(), 0);
    assert_eq!(r.render.len(), 0);
}

#[test]
fn tab_after_one_char_expands_to_next_stop() {
    let r = Row::new(String::from("a\tb"));
    let rendered: String = r.render.iter().collect();
    assert_eq!(rendered, "a       b");
    assert_eq!(r.render.len(), 9);
}

#[test]
fn tab_at_start_expands_to_full_stop() {
    let r = Row::new(String::from("\tx"));
    let rendered: String = r.render.iter().collect();
    assert_eq!(rendered, "        x");
    assert_eq!(r.render.len(), 9);
}

#[test]
fn tab_at_stop_boundary_advances_a_full_stop() {
    let r = Row::new(String::from("abcdefgh\tz"));
    let rendered: String = r.render.iter().collect();
    assert_eq!(rendered, "abcdefgh        z");
    assert_eq!(r.render.len(), 17);
}

#[test]
fn render_column_just_past_tab_is_next_stop() {
    let mut doc = Document::new();
    doc.append_line(String::from("a\tb"));
    let c = CursorController { cx: 2, cy: 0 };
    assert_eq!(c.row_cx_to_rx(&doc), 8);
}

#[test]
fn render_column_of_whole_row_is_render_length() {
    let mut doc = Document::new();
    doc.append_line(String::from("a\tb\t\tend"));
    let len = doc.row_length(0);
    let c = CursorController { cx: len, cy: 0 };
    assert_eq!(c.row_cx_to_rx(&doc), doc.rows[0].render.len());
}

#[test]
fn render_column_past_last_row_is_zero() {
    let mut doc = Document::new();
    doc.append_line(String::from("abc"));
    let c = CursorController { cx: 3, cy: 1 };
    assert_eq!(c.row_cx_to_rx(&doc), 0);
}

#[test]
fn appending_same_text_twice_gives_identical_independent_rows() {
    let mut doc = Document::new();
    doc.append_line(String::from("a\tb"));
    doc.append_line(String::from("a\tb"));
    assert_eq!(doc.row_count(), 2);
    assert_eq!(doc.rows[0].chars, doc.rows[1].chars);
    assert_eq!(doc.rows[0].render, doc.rows[1].render);
    let first: String = doc.rows[0].render.iter().collect();
    assert_eq!(first, "a       b");
}
