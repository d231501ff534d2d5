use kilo_core::cursor::CursorController;
use kilo_core::document::Document;

fn doc_of(lines: &[&str]) -> Document {
    let mut doc = Document::new();
    for line in lines {
        doc.append_line(String::from(*line));
    }
    doc
}

#[test]
fn left_at_document_origin_stays_put() {
    let doc = doc_of(&["abc"]);
    let mut c = CursorController::new();
    c.move_left(&doc);
    assert_eq!(c.cx, 0);
    assert_eq!(c.cy, 0);
}

#[test]
fn left_within_row_steps_back() {
    let doc = doc_of(&["abc"]);
    let mut c = CursorController { cx: 2, cy: 0 };
    c.move_left(&doc);
    assert_eq!(c.cx, 1);
    assert_eq!(c.cy, 0);
}

#[test]
fn left_at_row_start_wraps_to_previous_row_end() {
    let doc = doc_of(&["abcd", "xy"]);
    let mut c = CursorController { cx: 0, cy: 1 };
    c.move_left(&doc);
    assert_eq!(c.cy, 0);
    assert_eq!(c.cx, 4);
}

#[test]
fn right_at_row_end_wraps_to_next_row_start() {
    let doc = doc_of(&["ab", "cd"]);
    let mut c = CursorController { cx: 0, cy: 0 };
    c.move_end(&doc);
    assert_eq!(c.cx, 2);
    c.move_right(&doc);
    assert_eq!(c.cx, 0);
    assert_eq!(c.cy, 1);
}

#[test]
fn right_within_row_steps_forward() {
    let doc = doc_of(&["ab"]);
    let mut c = CursorController::new();
    c.move_right(&doc);
    assert_eq!(c.cx, 1);
    assert_eq!(c.cy, 0);
}

#[test]
fn right_past_last_row_is_a_no_op() {
    let doc = doc_of(&["ab"]);
    let mut c = CursorController { cx: 0, cy: 1 };
    c.move_right(&doc);
    assert_eq!(c.cx, 0);
    assert_eq!(c.cy, 1);
}

#[test]
fn up_at_top_stays_and_down_stops_past_last_row() {
    let doc = doc_of(&["ab", "cd"]);
    let mut c = CursorController::new();
    c.move_up(&doc);
    assert_eq!(c.cy, 0);
    c.move_down(&doc);
    c.move_down(&doc);
    assert_eq!(c.cy, 2);
    c.move_down(&doc);
    assert_eq!(c.cy, 2);
}

#[test]
fn home_and_end_jump_to_row_bounds() {
    let doc = doc_of(&["abcde"]);
    let mut c = CursorController::new();
    c.move_end(&doc);
    assert_eq!(c.cx, 5);
    c.move_home();
    assert_eq!(c.cx, 0);
}

#[test]
fn end_past_last_row_is_a_no_op() {
    let doc = doc_of(&["abcde"]);
    let mut c = CursorController { cx: 3, cy: 1 };
    c.move_end(&doc);
    assert_eq!(c.cx, 3);
    assert_eq!(c.cy, 1);
}

#[test]
fn vertical_move_clamps_lazily_on_next_read() {
    let doc = doc_of(&["abcdef", "ab"]);
    let mut c = CursorController::new();
    c.move_end(&doc);
    assert_eq!(c.cx, 6);
    c.move_down(&doc);
    assert_eq!(c.cx, 6);
    assert_eq!(c.cy, 1);
    assert_eq!(c.row_cx_to_rx(&doc), 2);
    c.move_left(&doc);
    assert_eq!(c.cx, 1);
    assert_eq!(c.cy, 1);
}
