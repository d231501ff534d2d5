use kilo_core::session::Editor;
use kilo_core::viewport::Viewport;

#[test]
fn scroll_down_places_cursor_on_last_screen_row() {
    let mut vp = Viewport::new(80, 24);
    vp.reconcile(30, 0);
    assert_eq!(vp.row_offset, 7);
    assert_eq!(vp.col_offset, 0);
}

#[test]
fn scroll_up_places_cursor_on_first_screen_row() {
    let mut vp = Viewport::new(80, 24);
    vp.reconcile(30, 0);
    vp.reconcile(3, 0);
    assert_eq!(vp.row_offset, 3);
}

#[test]
fn scroll_right_and_left_track_the_render_column() {
    let mut vp = Viewport::new(80, 24);
    vp.reconcile(0, 100);
    assert_eq!(vp.col_offset, 21);
    vp.reconcile(0, 5);
    assert_eq!(vp.col_offset, 5);
}

#[test]
fn cursor_inside_viewport_leaves_offsets_alone() {
    let mut vp = Viewport::new(80, 24);
    vp.reconcile(10, 40);
    assert_eq!(vp.row_offset, 0);
    assert_eq!(vp.col_offset, 0);
}

#[test]
fn row_at_screen_extent_scrolls_by_one() {
    let mut vp = Viewport::new(80, 24);
    vp.reconcile(24, 0);
    assert_eq!(vp.row_offset, 1);
}

#[test]
fn moving_to_row_thirty_on_a_fifty_row_document_scrolls_to_seven() {
    let mut editor = Editor::new(80, 24);
    for i in 0..50 {
        editor.append_line(format!("line {}", i));
    }
    for _ in 0..30 {
        editor.process_event(kilo_core::session::InputEvent::Down);
    }
    assert_eq!(editor.cursor.cy, 30);
    let _frame = editor.refresh_frame();
    assert_eq!(editor.viewport.row_offset, 7);
}
