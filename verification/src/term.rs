//! Terminal control sequences, obtained from termion.  Each wrapper states
//! the exact character sequence that termion emits, so the compositor's
//! output is pinned down to the last byte.

use vstd::prelude::*;

verus! {

/// The control sequence introducer that starts every sequence below.
pub open spec fn csi() -> Seq<char> {
    seq!['\u{1b}', '[']
}

/// The decimal digit character for `d` (meaningful for `0 <= d <= 9`).
pub open spec fn dec_digit(d: int) -> char {
    if d == 0 {
        '0'
    } else if d == 1 {
        '1'
    } else if d == 2 {
        '2'
    } else if d == 3 {
        '3'
    } else if d == 4 {
        '4'
    } else if d == 5 {
        '5'
    } else if d == 6 {
        '6'
    } else if d == 7 {
        '7'
    } else if d == 8 {
        '8'
    } else {
        '9'
    }
}

/// Decimal representation of `n`, most significant digit first, without
/// leading zeros (meaningful for `n >= 0`).
pub open spec fn dec_rep(n: int) -> Seq<char>
    decreases n,
{
    if n <= 9 {
        seq![dec_digit(n)]
    } else {
        dec_rep(n / 10).push(dec_digit(n % 10))
    }
}

/// Sequence that hides the terminal cursor.
pub open spec fn hide_cursor_spec() -> Seq<char> {
    csi() + seq!['?', '2', '5', 'l']
}

/// Sequence that shows the terminal cursor.
pub open spec fn show_cursor_spec() -> Seq<char> {
    csi() + seq!['?', '2', '5', 'h']
}

/// Sequence that clears the entire screen.
pub open spec fn clear_all_spec() -> Seq<char> {
    csi() + seq!['2', 'J']
}

/// Sequence that clears from the cursor to the end of the line.
pub open spec fn clear_line_spec() -> Seq<char> {
    csi() + seq!['K']
}

/// Sequence that moves the terminal cursor to column `x`, row `y`,
/// both 1-based.
pub open spec fn goto_spec(x: int, y: int) -> Seq<char> {
    csi() + dec_rep(y) + seq![';'] + dec_rep(x) + seq!['H']
}

/// Relies on termion::cursor::Hide: its display form is the control
/// sequence ESC [ ? 2 5 l.
#[verifier::external_body]
pub(crate) fn hide_cursor_seq() -> (r: Vec<char>)
    ensures
        r@ == hide_cursor_spec(),
{
    format!("{}", termion::cursor::Hide).chars().collect()
}

/// Relies on termion::cursor::Show: its display form is the control
/// sequence ESC [ ? 2 5 h.
#[verifier::external_body]
pub(crate) fn show_cursor_seq() -> (r: Vec<char>)
    ensures
        r@ == show_cursor_spec(),
{
    format!("{}", termion::cursor::Show).chars().collect()
}

/// Relies on termion::clear::All: its display form is the control
/// sequence ESC [ 2 J.
#[verifier::external_body]
pub(crate) fn clear_all_seq() -> (r: Vec<char>)
    ensures
        r@ == clear_all_spec(),
{
    format!("{}", termion::clear::All).chars().collect()
}

/// Relies on termion::clear::UntilNewline: its display form is the control
/// sequence ESC [ K.
#[verifier::external_body]
pub(crate) fn clear_line_seq() -> (r: Vec<char>)
    ensures
        r@ == clear_line_spec(),
{
    format!("{}", termion::clear::UntilNewline).chars().collect()
}

/// Relies on termion::cursor::Goto: its display form is ESC [ y ; x H with
/// the coordinates written in decimal.  Goto is 1-based, and its display
/// form asserts that in debug builds, so the zero position is excluded.
#[verifier::external_body]
pub(crate) fn goto_seq(x: u16, y: u16) -> (r: Vec<char>)
    requires
        x >= 1,
        y >= 1,
    ensures
        r@ == goto_spec(x as int, y as int),
{
    format!("{}", termion::cursor::Goto(x, y)).chars().collect()
}

} // verus!
