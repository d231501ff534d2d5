//! The viewport: fixed screen dimensions and the scroll offsets that pick
//! which document coordinates are visible.

use vstd::prelude::*;

verus! {

/// One scroll rule, for one axis: scroll back so the position becomes the
/// first visible coordinate when it lies before the window, scroll forward
/// so it becomes the last visible coordinate when it lies at or past the
/// window's end, and otherwise leave the offset alone.
pub open spec fn reconciled(off: int, pos: int, extent: int) -> int {
    if pos < off {
        pos
    } else if pos >= off + extent {
        pos - extent + 1
    } else {
        off
    }
}

/// The rectangular window of the document currently visible: terminal
/// dimensions (fixed for the session) and the top-left document coordinate
/// shown.
pub struct Viewport {
    pub screen_rows: usize,
    pub screen_cols: usize,
    pub row_offset: usize,
    pub col_offset: usize,
}

impl Viewport {
    /// Both dimensions are at least one cell and fit a terminal coordinate.
    pub open spec fn wf(&self) -> bool {
        &&& 1 <= self.screen_rows <= u16::MAX
        &&& 1 <= self.screen_cols <= u16::MAX
    }

    /// A viewport at the document origin, for a screen of the given size.
    pub fn new(screen_cols: u16, screen_rows: u16) -> (v: Viewport)
        requires
            screen_cols >= 1,
            screen_rows >= 1,
        ensures
            v.screen_cols == screen_cols,
            v.screen_rows == screen_rows,
            v.row_offset == 0,
            v.col_offset == 0,
            v.wf(),
    {
        Viewport {
            screen_rows: screen_rows as usize,
            screen_cols: screen_cols as usize,
            row_offset: 0,
            col_offset: 0,
        }
    }

    /// Adjust both offsets so the given cursor coordinates are visible:
    /// after the call the cursor's row lies in
    /// `[row_offset, row_offset + screen_rows)` and its render column in
    /// `[col_offset, col_offset + screen_cols)`.
    pub fn reconcile(&mut self, cy: usize, rx: usize)
        requires
            old(self).wf(),
        ensures
            final(self).wf(),
            final(self).screen_rows == old(self).screen_rows,
            final(self).screen_cols == old(self).screen_cols,
            final(self).row_offset == reconciled(
                old(self).row_offset as int,
                cy as int,
                old(self).screen_rows as int,
            ),
            final(self).col_offset == reconciled(
                old(self).col_offset as int,
                rx as int,
                old(self).screen_cols as int,
            ),
            final(self).row_offset <= cy < final(self).row_offset + final(self).screen_rows,
            final(self).col_offset <= rx < final(self).col_offset + final(self).screen_cols,
    {
        if cy < self.row_offset {
            self.row_offset = cy;
        }
        if cy - self.row_offset >= self.screen_rows {
            self.row_offset = cy - self.screen_rows + 1;
        }
        if rx < self.col_offset {
            self.col_offset = rx;
        }
        if rx - self.col_offset >= self.screen_cols {
            self.col_offset = rx - self.screen_cols + 1;
        }
    }
}

} // verus!
