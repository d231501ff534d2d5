//! The logical cursor: a document row index and a character index within
//! that row, with document-aware clamping and the derived render column.

use vstd::prelude::*;
use crate::TAB_STOP;
use crate::document::Document;
use crate::row::{render_col_of, lemma_render_col_monotone, lemma_render_col_nonneg,
    lemma_render_len};

verus! {

/// Number of characters of the row at index `y`, taking a position past the
/// last row to have length 0.
pub open spec fn line_len(doc: &Document, y: int) -> int {
    if 0 <= y < doc.rows_seq().len() {
        doc.rows_seq()[y].len() as int
    } else {
        0
    }
}

/// The logical cursor position.  `cx` is a character index into the current
/// row, `cy` a document row index; the position one past the last character
/// or the last row is valid.  After a vertical move `cx` may exceed the new
/// row's length; every operation that reads `cx` against a row first clamps
/// it to that row's length.
pub struct CursorController {
    pub cx: usize,
    pub cy: usize,
}

impl CursorController {
    /// The row index never points past the position just after the last row.
    pub open spec fn wf(&self, doc: &Document) -> bool {
        self.cy <= doc.rows_seq().len()
    }

    /// The effective character index: the stored `cx` clamped to the
    /// current row's length, as every reading operation sees it.
    pub open spec fn clamped_cx(&self, doc: &Document) -> int {
        if self.cx <= line_len(doc, self.cy as int) {
            self.cx as int
        } else {
            line_len(doc, self.cy as int)
        }
    }

    /// The render column of the cursor: the effective character index
    /// mapped through tab expansion, or 0 when the cursor is past the last
    /// row.
    pub open spec fn rx_of(&self, doc: &Document) -> int {
        if self.cy < doc.rows_seq().len() {
            render_col_of(doc.rows_seq()[self.cy as int], self.clamped_cx(doc), TAB_STOP as int)
        } else {
            0
        }
    }

    /// The cursor after a Left command: back one effective position within
    /// the row, or to the end of the previous row, or unmoved at the start
    /// of the document.
    pub open spec fn moved_left(self, doc: &Document) -> CursorController {
        let ccx = self.clamped_cx(doc);
        if ccx > 0 {
            CursorController { cx: (ccx - 1) as usize, cy: self.cy }
        } else if self.cy > 0 {
            CursorController {
                cx: line_len(doc, self.cy - 1) as usize,
                cy: (self.cy - 1) as usize,
            }
        } else {
            CursorController { cx: 0, cy: 0 }
        }
    }

    /// The cursor after a Right command: forward one effective position
    /// within the row, or to the start of the next row, or unmoved past the
    /// last row.
    pub open spec fn moved_right(self, doc: &Document) -> CursorController {
        if self.cy < doc.rows_seq().len() {
            if self.clamped_cx(doc) < line_len(doc, self.cy as int) {
                CursorController { cx: (self.clamped_cx(doc) + 1) as usize, cy: self.cy }
            } else {
                CursorController { cx: 0, cy: (self.cy + 1) as usize }
            }
        } else {
            self
        }
    }

    /// The cursor after an Up command: one row up, the character index
    /// left unclamped.
    pub open spec fn moved_up(self) -> CursorController {
        if self.cy > 0 {
            CursorController { cx: self.cx, cy: (self.cy - 1) as usize }
        } else {
            self
        }
    }

    /// The cursor after a Down command: one row down, stopping just past
    /// the last row, the character index left unclamped.
    pub open spec fn moved_down(self, doc: &Document) -> CursorController {
        if self.cy < doc.rows_seq().len() {
            CursorController { cx: self.cx, cy: (self.cy + 1) as usize }
        } else {
            self
        }
    }

    /// The cursor after a Home command: the start of the current row.
    pub open spec fn moved_home(self) -> CursorController {
        CursorController { cx: 0, cy: self.cy }
    }

    /// The cursor after an End command: the end of the current row, or
    /// unmoved past the last row.
    pub open spec fn moved_end(self, doc: &Document) -> CursorController {
        if self.cy < doc.rows_seq().len() {
            CursorController { cx: line_len(doc, self.cy as int) as usize, cy: self.cy }
        } else {
            self
        }
    }

    /// The cursor at the start of the document.
    pub fn new() -> (c: CursorController)
        ensures
            c.cx == 0,
            c.cy == 0,
    {
        CursorController { cx: 0, cy: 0 }
    }

    /// The effective character index, clamped to the current row.
    pub fn effective_cx(&self, doc: &Document) -> (n: usize)
        ensures
            n == self.clamped_cx(doc),
    {
        let len = if self.cy < doc.row_count() {
            doc.row_length(self.cy)
        } else {
            0
        };
        if self.cx <= len {
            self.cx
        } else {
            len
        }
    }

    /// The render column for the cursor, by the same tab-stop rule that
    /// builds the render string: iterate the row's characters up to the
    /// effective character index, a tab advancing to the next tab stop and
    /// any other character advancing by one column.
    pub fn row_cx_to_rx(&self, doc: &Document) -> (rx: usize)
        requires
            doc.wf(),
        ensures
            rx == self.rx_of(doc),
    {
        if self.cy >= doc.row_count() {
            return 0;
        }
        let end = self.effective_cx(doc);
        let ghost chars = doc.rows@[self.cy as int].chars@;
        let rbound = doc.rows[self.cy].render.len();
        proof {
            lemma_render_len(chars, chars.len() as int, TAB_STOP as int);
        }
        let mut rx: usize = 0;
        let mut j: usize = 0;
        while j < end
            invariant
                j <= end,
                end <= chars.len(),
                rx == render_col_of(chars, j as int, TAB_STOP as int),
                rx <= rbound,
                rbound == render_col_of(chars, chars.len() as int, TAB_STOP as int),
                chars == doc.rows@[self.cy as int].chars@,
                self.cy < doc.rows@.len(),
            decreases end - j,
        {
            proof {
                lemma_render_col_nonneg(chars, j + 1, TAB_STOP as int);
                lemma_render_col_monotone(chars, j + 1, chars.len() as int, TAB_STOP as int);
            }
            if doc.rows[self.cy].chars[j] == '\t' {
                rx = rx + (TAB_STOP - rx % TAB_STOP);
            } else {
                rx = rx + 1;
            }
            j = j + 1;
        }
        rx
    }

    /// Move one position left: within the row if possible, otherwise wrap
    /// to the end of the previous row; at the very start of the document
    /// the cursor stays put.
    pub fn move_left(&mut self, doc: &Document)
        ensures
            *final(self) == old(self).moved_left(doc),
            old(self).wf(doc) ==> final(self).wf(doc),
    {
        let ccx = self.effective_cx(doc);
        if ccx > 0 {
            self.cx = ccx - 1;
        } else if self.cy > 0 {
            self.cy = self.cy - 1;
            self.cx = if self.cy < doc.row_count() {
                doc.row_length(self.cy)
            } else {
                0
            };
        } else {
            self.cx = 0;
        }
    }

    /// Move one position right: within the row if possible, from the end
    /// of a row to the start of the next one, and not at all when the
    /// cursor is past the last row.
    pub fn move_right(&mut self, doc: &Document)
        ensures
            *final(self) == old(self).moved_right(doc),
            old(self).wf(doc) ==> final(self).wf(doc),
    {
        if self.cy < doc.row_count() {
            let len = doc.row_length(self.cy);
            let ccx = self.effective_cx(doc);
            if ccx < len {
                self.cx = ccx + 1;
            } else {
                self.cy = self.cy + 1;
                self.cx = 0;
            }
        }
    }

    /// Move one row up, leaving the character index unclamped; clamping
    /// happens the next time a horizontal bound is consulted.
    pub fn move_up(&mut self, doc: &Document)
        ensures
            *final(self) == old(self).moved_up(),
            old(self).wf(doc) ==> final(self).wf(doc),
    {
        if self.cy > 0 {
            self.cy = self.cy - 1;
        }
    }

    /// Move one row down, stopping at the position just past the last row.
    pub fn move_down(&mut self, doc: &Document)
        ensures
            *final(self) == old(self).moved_down(doc),
            old(self).wf(doc) ==> final(self).wf(doc),
    {
        if self.cy < doc.row_count() {
            self.cy = self.cy + 1;
        }
    }

    /// Move to the start of the current row.
    pub fn move_home(&mut self)
        ensures
            *final(self) == old(self).moved_home(),
    {
        self.cx = 0;
    }

    /// Move to the end of the current row; past the last row there is no
    /// current row and the cursor stays put.
    pub fn move_end(&mut self, doc: &Document)
        ensures
            *final(self) == old(self).moved_end(doc),
            old(self).wf(doc) ==> final(self).wf(doc),
    {
        if self.cy < doc.row_count() {
            self.cx = doc.row_length(self.cy);
        }
    }
}

/// Every position the cursor can reach is in bounds: the row index is at
/// most the row count, and the effective character index lies between 0 and
/// the current row's length.
pub proof fn lemma_cursor_in_bounds(c: CursorController, doc: &Document)
    requires
        c.wf(doc),
    ensures
        0 <= c.cy <= doc.rows_seq().len(),
        0 <= c.clamped_cx(doc) <= line_len(doc, c.cy as int),
{
}

} // verus!
