//! The editor session: the composition root owning document, viewport and
//! cursor, the input-event classification, and the refresh/read/apply loop.

use vstd::prelude::*;
use crate::compositor::{compose_frame, frame_spec, push_all};
use crate::cursor::CursorController;
use crate::document::Document;
use crate::term::{clear_all_spec, goto_spec};
use crate::viewport::{reconciled, Viewport};

verus! {

/// One classified input event, as the dispatch loop sees it.
#[derive(Clone, Copy, PartialEq, Eq, Structural, Debug)]
pub enum InputEvent {
    /// The quit signal.
    Quit,
    Left,
    Right,
    Up,
    Down,
    Home,
    End,
    PageUp,
    PageDown,
    /// Any other key: a no-op.
    Other,
}

/// Whether the session loop goes on after an event.
#[derive(Clone, Copy, PartialEq, Eq, Structural, Debug)]
pub enum Step {
    Continue,
    Stop,
}

/// Anything that yields input events, one blocking read at a time; `None`
/// means the input stream is closed.
pub trait EventSource {
    fn next_event(&mut self) -> Option<InputEvent>;
}

/// Anything that accepts one fully assembled frame of output at a time and
/// flushes it whole.
pub trait FrameSink {
    fn write_frame(&mut self, buf: &Vec<char>);
}

/// The cursor that results from applying one input event against the given
/// document; events that are not navigation leave it unmoved.
pub open spec fn cursor_after(
    c: CursorController,
    doc: &Document,
    ev: InputEvent,
) -> CursorController {
    match ev {
        InputEvent::Left => c.moved_left(doc),
        InputEvent::Right => c.moved_right(doc),
        InputEvent::Up => c.moved_up(),
        InputEvent::Down => c.moved_down(doc),
        InputEvent::Home => c.moved_home(),
        InputEvent::End => c.moved_end(doc),
        _ => c,
    }
}

/// The editor session: document, viewport and cursor, mutated only through
/// the loop of refreshing a frame and applying one event.
pub struct Editor {
    pub document: Document,
    pub viewport: Viewport,
    pub cursor: CursorController,
}

impl Editor {
    /// The document's renders are current, the cursor points at an existing
    /// row or just past the last one, and the screen has a usable size.
    pub open spec fn wf(&self) -> bool {
        &&& self.document.wf()
        &&& self.cursor.wf(&self.document)
        &&& self.viewport.wf()
    }

    /// A session over an empty document, for a screen of the given size.
    pub fn new(screen_cols: u16, screen_rows: u16) -> (e: Editor)
        requires
            screen_cols >= 1,
            screen_rows >= 1,
        ensures
            e.wf(),
            e.document.rows_seq().len() == 0,
            e.cursor.cx == 0,
            e.cursor.cy == 0,
            e.viewport == (Viewport {
                screen_cols: screen_cols as usize,
                screen_rows: screen_rows as usize,
                row_offset: 0,
                col_offset: 0,
            }),
    {
        Editor {
            document: Document::new(),
            viewport: Viewport::new(screen_cols, screen_rows),
            cursor: CursorController::new(),
        }
    }

    /// Append one line of text at the end of the document, keeping its
    /// render form current.
    pub fn append_line(&mut self, text: String)
        ensures
            final(self).document.rows_seq() == old(self).document.rows_seq().push(text@),
            final(self).viewport == old(self).viewport,
            final(self).cursor == old(self).cursor,
            old(self).wf() ==> final(self).wf(),
    {
        self.document.append_line(text);
    }

    /// Hook for surrounding status-line machinery; this core displays no
    /// status line, so the message is accepted and dropped.
    pub fn set_status_message(&mut self, msg: &str)
        ensures
            *final(self) == *old(self),
    {
    }

    /// Reconcile the viewport with the cursor and assemble the next frame
    /// of terminal output.  The returned buffer is the whole frame; nothing
    /// is written here.
    pub fn refresh_frame(&mut self) -> (buf: Vec<char>)
        requires
            old(self).wf(),
        ensures
            final(self).wf(),
            final(self).document == old(self).document,
            final(self).cursor == old(self).cursor,
            final(self).viewport.screen_rows == old(self).viewport.screen_rows,
            final(self).viewport.screen_cols == old(self).viewport.screen_cols,
            final(self).viewport.row_offset == reconciled(
                old(self).viewport.row_offset as int,
                old(self).cursor.cy as int,
                old(self).viewport.screen_rows as int,
            ),
            final(self).viewport.col_offset == reconciled(
                old(self).viewport.col_offset as int,
                old(self).cursor.rx_of(&old(self).document),
                old(self).viewport.screen_cols as int,
            ),
            buf@ == frame_spec(
                final(self).document.rows_seq(),
                final(self).viewport,
                final(self).cursor.cy as int,
                final(self).cursor.rx_of(&final(self).document),
            ),
    {
        let rx = self.cursor.row_cx_to_rx(&self.document);
        self.viewport.reconcile(self.cursor.cy, rx);
        compose_frame(&self.document, &self.viewport, self.cursor.cy, rx)
    }

    /// Apply one classified input event: the quit signal stops the session,
    /// a navigation key moves the cursor against the current document, and
    /// anything else is a no-op.
    pub fn process_event(&mut self, ev: InputEvent) -> (step: Step)
        ensures
            final(self).document == old(self).document,
            final(self).viewport == old(self).viewport,
            final(self).cursor == cursor_after(old(self).cursor, &old(self).document, ev),
            step == if ev == InputEvent::Quit {
                Step::Stop
            } else {
                Step::Continue
            },
            old(self).wf() ==> final(self).wf(),
    {
        match ev {
            InputEvent::Quit => {
                return Step::Stop;
            },
            InputEvent::Left => self.cursor.move_left(&self.document),
            InputEvent::Right => self.cursor.move_right(&self.document),
            InputEvent::Up => self.cursor.move_up(&self.document),
            InputEvent::Down => self.cursor.move_down(&self.document),
            InputEvent::Home => self.cursor.move_home(),
            InputEvent::End => self.cursor.move_end(&self.document),
            InputEvent::PageUp => {},
            InputEvent::PageDown => {},
            InputEvent::Other => {},
        }
        Step::Continue
    }

    /// Run the session loop: draw a frame, block for one event, apply it,
    /// and repeat until the quit signal or the end of the input stream,
    /// processing at most `max_events` events (termination checking asks
    /// for a bound; an interactive caller passes the largest one).  On quit
    /// the screen is cleared and the terminal cursor returned to the
    /// origin, and the call returns true; a closed or exhausted input
    /// stream ends the loop without that courtesy, returning false.
    pub fn run<S: EventSource, K: FrameSink>(
        &mut self,
        source: &mut S,
        sink: &mut K,
        max_events: usize,
    ) -> (quit: bool)
        requires
            old(self).wf(),
        ensures
            final(self).wf(),
            final(self).document == old(self).document,
            final(self).viewport.screen_rows == old(self).viewport.screen_rows,
            final(self).viewport.screen_cols == old(self).viewport.screen_cols,
    {
        let buf = self.refresh_frame();
        sink.write_frame(&buf);
        let mut n: usize = 0;
        while n < max_events
            invariant
                self.wf(),
                self.document == old(self).document,
                self.viewport.screen_rows == old(self).viewport.screen_rows,
                self.viewport.screen_cols == old(self).viewport.screen_cols,
            decreases max_events - n,
        {
            match source.next_event() {
                None => {
                    return false;
                },
                Some(ev) => {
                    match self.process_event(ev) {
                        Step::Stop => {
                            let reset = quit_screen_reset();
                            sink.write_frame(&reset);
                            return true;
                        },
                        Step::Continue => {},
                    }
                },
            }
            let buf = self.refresh_frame();
            sink.write_frame(&buf);
            n += 1;
        }
        false
    }
}

/// The output written on quit: clear the entire screen and return the
/// terminal cursor to the origin.
pub fn quit_screen_reset() -> (buf: Vec<char>)
    ensures
        buf@ == clear_all_spec() + goto_spec(1, 1),
{
    let mut buf = crate::term::clear_all_seq();
    let origin = crate::term::goto_seq(1, 1);
    push_all(&mut buf, &origin);
    buf
}

} // verus!
