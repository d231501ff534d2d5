//! The screen compositor: combines document, viewport and cursor state into
//! one frame of terminal output, assembled whole before it is flushed.

use vstd::prelude::*;
use crate::TAB_STOP;
use crate::document::Document;
use crate::row::{render_of, spaces};
use crate::term::{clear_line_spec, goto_spec, hide_cursor_spec, show_cursor_spec};
use crate::viewport::Viewport;

verus! {

/// The one-line banner shown in an empty document.
pub open spec fn banner_text() -> Seq<char> {
    "Kilo editor -- version 0.1.0"@
}

/// The banner line as drawn on a screen `cols` columns wide: truncated to
/// the screen width and centered behind a leading marker glyph and spaces.
pub open spec fn banner_line(cols: int) -> Seq<char> {
    let blen = if banner_text().len() > cols {
        cols
    } else {
        banner_text().len() as int
    };
    let pad = (cols - blen) / 2;
    if pad > 0 {
        seq!['~'] + spaces(pad - 1) + banner_text().take(blen)
    } else {
        banner_text().take(blen)
    }
}

/// The part of a render string visible through the viewport's columns:
/// starting at `coloff`, at most `cols` characters, never past the end of
/// the render, and empty when the render ends before `coloff`.
pub open spec fn visible_slice(render: Seq<char>, coloff: int, cols: int) -> Seq<char> {
    if coloff >= render.len() {
        Seq::empty()
    } else {
        let avail = render.len() - coloff;
        let n = if avail > cols {
            cols
        } else {
            avail
        };
        render.subrange(coloff, coloff + n)
    }
}

/// The content drawn for screen row `y`: the visible slice of the
/// corresponding document row's render; past the document, a marker glyph,
/// or the banner one third down the screen when the document is empty.
pub open spec fn line_of(rows: Seq<Seq<char>>, vp: Viewport, y: int, tab: int) -> Seq<char> {
    let filerow = y + vp.row_offset;
    if filerow >= rows.len() {
        if rows.len() == 0 && y == vp.screen_rows as int / 3 {
            banner_line(vp.screen_cols as int)
        } else {
            seq!['~']
        }
    } else {
        visible_slice(render_of(rows[filerow], tab), vp.col_offset as int, vp.screen_cols as int)
    }
}

/// Screen row `y` as emitted: its content, a clear-to-end-of-line sequence,
/// and a line break on every row but the last.
pub open spec fn line_tail(rows: Seq<Seq<char>>, vp: Viewport, y: int, tab: int) -> Seq<char> {
    line_of(rows, vp, y, tab) + clear_line_spec() + if y < vp.screen_rows as int - 1 {
        seq!['\r', '\n']
    } else {
        Seq::<char>::empty()
    }
}

/// The first `n` screen rows as emitted, in order.
pub open spec fn rows_section(rows: Seq<Seq<char>>, vp: Viewport, n: int, tab: int) -> Seq<char>
    decreases n,
{
    if n <= 0 {
        Seq::empty()
    } else {
        rows_section(rows, vp, n - 1, tab) + line_tail(rows, vp, n - 1, tab)
    }
}

/// A whole frame: hide the cursor, reset the draw position to the origin,
/// emit every screen row, then place the terminal cursor at the cursor's
/// viewport-relative position (1-based) and show it again.
pub open spec fn frame_spec(rows: Seq<Seq<char>>, vp: Viewport, cy: int, rx: int) -> Seq<char> {
    hide_cursor_spec() + goto_spec(1, 1) + rows_section(rows, vp, vp.screen_rows as int, TAB_STOP as int)
        + goto_spec(rx - vp.col_offset + 1, cy - vp.row_offset + 1) + show_cursor_spec()
}

/// Append every character of `src` to `buf`, in order.
pub fn push_all(buf: &mut Vec<char>, src: &Vec<char>)
    ensures
        final(buf)@ == old(buf)@ + src@,
{
    let ghost b0 = buf@;
    let mut k: usize = 0;
    while k < src.len()
        invariant
            k <= src@.len(),
            buf@ == b0 + src@.take(k as int),
        decreases src@.len() - k,
    {
        buf.push(src[k]);
        proof {
            assert(src@.take(k as int).push(src@[k as int]) =~= src@.take(k + 1));
            assert(buf@ =~= b0 + src@.take(k + 1));
        }
        k += 1;
    }
    proof {
        assert(src@.take(src@.len() as int) =~= src@);
    }
}

/// Build the banner row for a screen `cols` columns wide.
fn banner_row(cols: usize) -> (v: Vec<char>)
    ensures
        v@ == banner_line(cols as int),
{
    let b = crate::text::chars_of("Kilo editor -- version 0.1.0");
    let blen = if b.len() > cols {
        cols
    } else {
        b.len()
    };
    let pad = (cols - blen) / 2;
    let mut v: Vec<char> = Vec::new();
    if pad > 0 {
        v.push('~');
        let ghost v0 = v@;
        let mut k: usize = 0;
        while k < pad - 1
            invariant
                k <= pad - 1,
                v@ == v0 + spaces(k as int),
            decreases pad - 1 - k,
        {
            v.push(' ');
            proof {
                assert(v@ =~= v0 + spaces(k + 1));
            }
            k += 1;
        }
    }
    let ghost mid = v@;
    let mut k: usize = 0;
    while k < blen
        invariant
            k <= blen,
            blen <= b@.len(),
            v@ == mid + b@.take(k as int),
        decreases blen - k,
    {
        v.push(b[k]);
        proof {
            assert(b@.take(k as int).push(b@[k as int]) =~= b@.take(k + 1));
            assert(v@ =~= mid + b@.take(k + 1));
        }
        k += 1;
    }
    proof {
        if pad > 0 {
            assert(seq!['~'] + spaces(pad - 1) =~= mid);
            assert(v@ =~= banner_line(cols as int));
        } else {
            assert(mid =~= Seq::<char>::empty());
            assert(v@ =~= banner_line(cols as int));
        }
    }
    v
}

/// Build the content of screen row `y`.
fn draw_row(doc: &Document, vp: &Viewport, y: usize) -> (v: Vec<char>)
    requires
        doc.wf(),
    ensures
        v@ == line_of(doc.rows_seq(), *vp, y as int, TAB_STOP as int),
{
    let n = doc.row_count();
    if vp.row_offset >= n || y >= n - vp.row_offset {
        if n == 0 && y == vp.screen_rows / 3 {
            banner_row(vp.screen_cols)
        } else {
            let mut v: Vec<char> = Vec::new();
            v.push('~');
            proof {
                assert(v@ =~= seq!['~']);
            }
            v
        }
    } else {
        let filerow = vp.row_offset + y;
        let ghost render = render_of(doc.rows_seq()[filerow as int], TAB_STOP as int);
        let rlen = doc.rows[filerow].render.len();
        let mut v: Vec<char> = Vec::new();
        if vp.col_offset < rlen {
            let avail = rlen - vp.col_offset;
            let m = if avail > vp.screen_cols {
                vp.screen_cols
            } else {
                avail
            };
            let mut k: usize = 0;
            while k < m
                invariant
                    k <= m,
                    vp.col_offset + m <= usize::MAX,
                    vp.col_offset + m <= doc.rows@[filerow as int].render@.len(),
                    filerow < doc.rows@.len(),
                    v@ == doc.rows@[filerow as int].render@.subrange(
                        vp.col_offset as int,
                        vp.col_offset + k,
                    ),
                decreases m - k,
            {
                v.push(doc.rows[filerow].render[vp.col_offset + k]);
                proof {
                    let r = doc.rows@[filerow as int].render@;
                    assert(r.subrange(vp.col_offset as int, vp.col_offset + k).push(
                        r[vp.col_offset + k],
                    ) =~= r.subrange(vp.col_offset as int, vp.col_offset + k + 1));
                }
                k += 1;
            }
        }
        proof {
            assert(doc.rows@[filerow as int].wf());
            assert(v@ =~= visible_slice(render, vp.col_offset as int, vp.screen_cols as int));
        }
        v
    }
}

/// Build one whole frame of terminal output for the given document,
/// viewport and cursor coordinates.  The cursor coordinates must already be
/// visible through the viewport, as `reconcile` leaves them.
pub fn compose_frame(doc: &Document, vp: &Viewport, cy: usize, rx: usize) -> (buf: Vec<char>)
    requires
        doc.wf(),
        vp.wf(),
        vp.row_offset <= cy < vp.row_offset + vp.screen_rows,
        vp.col_offset <= rx < vp.col_offset + vp.screen_cols,
    ensures
        buf@ == frame_spec(doc.rows_seq(), *vp, cy as int, rx as int),
{
    let mut buf = crate::term::hide_cursor_seq();
    let origin = crate::term::goto_seq(1, 1);
    push_all(&mut buf, &origin);
    let ghost head = hide_cursor_spec() + goto_spec(1, 1);
    proof {
        assert(buf@ =~= head + rows_section(doc.rows_seq(), *vp, 0, TAB_STOP as int));
    }
    let mut y: usize = 0;
    while y < vp.screen_rows
        invariant
            doc.wf(),
            y <= vp.screen_rows,
            head == hide_cursor_spec() + goto_spec(1, 1),
            buf@ == head + rows_section(doc.rows_seq(), *vp, y as int, TAB_STOP as int),
        decreases vp.screen_rows - y,
    {
        let ghost before = buf@;
        let line = draw_row(doc, vp, y);
        push_all(&mut buf, &line);
        let cl = crate::term::clear_line_seq();
        push_all(&mut buf, &cl);
        if y < vp.screen_rows - 1 {
            buf.push('\r');
            buf.push('\n');
            proof {
                assert(buf@ =~= before + (line@ + clear_line_spec() + seq!['\r', '\n']));
            }
        } else {
            proof {
                assert(buf@ =~= before + (line@ + clear_line_spec() + Seq::<char>::empty()));
            }
        }
        proof {
            assert(buf@ =~= head + rows_section(doc.rows_seq(), *vp, y + 1, TAB_STOP as int));
        }
        y += 1;
    }
    let gx = rx - vp.col_offset + 1;
    let gy = cy - vp.row_offset + 1;
    let place = crate::term::goto_seq(gx as u16, gy as u16);
    push_all(&mut buf, &place);
    let show = crate::term::show_cursor_seq();
    push_all(&mut buf, &show);
    proof {
        assert(buf@ =~= frame_spec(doc.rows_seq(), *vp, cy as int, rx as int));
    }
    buf
}

} // verus!
