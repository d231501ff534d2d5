//! One line of document text and its render form, with tabs expanded to
//! column stops.

use vstd::prelude::*;
use crate::TAB_STOP;

verus! {

/// Render column reached after the first `n` characters of `chars`, with
/// tab-stop width `tab`: a tab advances the column to the next multiple of
/// `tab` (by at least 1 and at most `tab`); any other character advances it
/// by 1.  This is the single place where column width is decided; both the
/// render string and the cursor's render column are derived from it.
pub open spec fn render_col_of(chars: Seq<char>, n: int, tab: int) -> int
    decreases n,
{
    if n <= 0 {
        0
    } else {
        let col = render_col_of(chars, n - 1, tab);
        if chars[n - 1] == '\t' {
            col + (tab - col % tab)
        } else {
            col + 1
        }
    }
}

/// A run of `n` space characters.
pub open spec fn spaces(n: int) -> Seq<char> {
    Seq::new(n as nat, |i: int| ' ')
}

/// Rendered form of the first `n` characters of `chars`: each tab becomes
/// the spaces that carry the column to the next tab stop, every other
/// character is copied unchanged.
pub open spec fn render_prefix(chars: Seq<char>, n: int, tab: int) -> Seq<char>
    decreases n,
{
    if n <= 0 {
        Seq::empty()
    } else {
        let prev = render_prefix(chars, n - 1, tab);
        if chars[n - 1] == '\t' {
            prev + spaces(tab - render_col_of(chars, n - 1, tab) % tab)
        } else {
            prev.push(chars[n - 1])
        }
    }
}

/// Rendered form of a whole row.
pub open spec fn render_of(chars: Seq<char>, tab: int) -> Seq<char> {
    render_prefix(chars, chars.len() as int, tab)
}

/// The render column is never negative and never retreats as more of the
/// row is processed.
pub proof fn lemma_render_col_nonneg(chars: Seq<char>, n: int, tab: int)
    requires
        tab >= 1,
    ensures
        render_col_of(chars, n, tab) >= 0,
        n >= 1 ==> render_col_of(chars, n - 1, tab) < render_col_of(chars, n, tab),
    decreases n,
{
    if n > 0 {
        lemma_render_col_nonneg(chars, n - 1, tab);
    }
}

/// The render column is monotone in the number of characters processed.
pub proof fn lemma_render_col_monotone(chars: Seq<char>, i: int, j: int, tab: int)
    requires
        tab >= 1,
        i <= j,
    ensures
        render_col_of(chars, i, tab) <= render_col_of(chars, j, tab),
    decreases j - i,
{
    if i < j {
        lemma_render_col_monotone(chars, i, j - 1, tab);
        lemma_render_col_nonneg(chars, j, tab);
    }
}

/// The render column computed incrementally equals the length of the
/// rendered prefix; in particular, at `n == chars.len()` the render column
/// of the whole row equals the length of its render string.
pub proof fn lemma_render_len(chars: Seq<char>, n: int, tab: int)
    requires
        tab >= 1,
    ensures
        render_prefix(chars, n, tab).len() == render_col_of(chars, n, tab),
    decreases n,
{
    if n > 0 {
        lemma_render_len(chars, n - 1, tab);
        lemma_render_col_nonneg(chars, n - 1, tab);
    }
}

/// The render column at the end of a well-formed row, computed
/// incrementally over its characters, equals the length of its render
/// string.
pub proof fn lemma_row_render_col(r: &Row)
    requires
        r.wf(),
    ensures
        render_col_of(r.chars_seq(), r.chars_seq().len() as int, TAB_STOP as int)
            == r.render_seq().len(),
{
    lemma_render_len(r.chars_seq(), r.chars_seq().len() as int, TAB_STOP as int);
}

/// Tab expansion leaves a row without tab characters unchanged: its render
/// form is exactly its character sequence.
pub proof fn lemma_render_no_tabs(chars: Seq<char>, tab: int)
    requires
        tab >= 1,
        forall|i: int| 0 <= i < chars.len() ==> chars[i] != '\t',
    ensures
        render_of(chars, tab) == chars,
{
    lemma_render_prefix_no_tabs(chars, chars.len() as int, tab);
    assert(render_prefix(chars, chars.len() as int, tab) =~= chars);
}

proof fn lemma_render_prefix_no_tabs(chars: Seq<char>, n: int, tab: int)
    requires
        tab >= 1,
        0 <= n <= chars.len(),
        forall|i: int| 0 <= i < chars.len() ==> chars[i] != '\t',
    ensures
        render_prefix(chars, n, tab) =~= chars.take(n),
    decreases n,
{
    if n > 0 {
        lemma_render_prefix_no_tabs(chars, n - 1, tab);
        assert(chars.take(n - 1).push(chars[n - 1]) =~= chars.take(n));
    }
}

/// One line of document text: its raw characters and the render form
/// derived from them.  The render form is regenerated whenever the
/// characters change, so the compositor never observes a stale render.
pub struct Row {
    pub chars: Vec<char>,
    pub render: Vec<char>,
}

impl Row {
    /// The raw character sequence of the line.
    pub open spec fn chars_seq(&self) -> Seq<char> {
        self.chars@
    }

    /// The rendered character sequence of the line.
    pub open spec fn render_seq(&self) -> Seq<char> {
        self.render@
    }

    /// The render form is consistent with the characters under the current
    /// tab-stop width.
    pub open spec fn wf(&self) -> bool {
        self.render@ == render_of(self.chars@, TAB_STOP as int)
    }

    /// Build a row from one line of text, deriving its render form.
    pub fn new(line: String) -> (r: Row)
        ensures
            r.chars_seq() == line@,
            r.wf(),
    {
        let chars = crate::text::chars_of(line.as_str());
        let render = render_row(&chars);
        Row { chars, render }
    }

    /// Number of characters in the line.
    pub fn char_count(&self) -> (n: usize)
        ensures
            n == self.chars_seq().len(),
    {
        self.chars.len()
    }
}

/// Expand the tabs of `chars` into spaces, carrying the render column to
/// the next multiple of the tab-stop width.
pub fn render_row(chars: &Vec<char>) -> (r: Vec<char>)
    ensures
        r@ == render_of(chars@, TAB_STOP as int),
{
    let mut r: Vec<char> = Vec::new();
    let mut i: usize = 0;
    while i < chars.len()
        invariant
            i <= chars@.len(),
            r@ == render_prefix(chars@, i as int, TAB_STOP as int),
        decreases chars@.len() - i,
    {
        proof {
            lemma_render_len(chars@, i as int, TAB_STOP as int);
        }
        if chars[i] == '\t' {
            let pad = TAB_STOP - r.len() % TAB_STOP;
            let ghost r0 = r@;
            let mut k: usize = 0;
            while k < pad
                invariant
                    k <= pad,
                    r@ == r0 + spaces(k as int),
                decreases pad - k,
            {
                r.push(' ');
                proof {
                    assert(r@ =~= r0 + spaces(k + 1));
                }
                k += 1;
            }
        } else {
            r.push(chars[i]);
        }
        i += 1;
    }
    r
}

} // verus!
