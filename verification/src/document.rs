//! The in-memory document: an ordered sequence of rows, indexed by the
//! canonical document row number.

use vstd::prelude::*;
use crate::row::Row;

verus! {

/// An ordered collection of rows.  Row order is stable and matches the
/// order in which lines were appended.
pub struct Document {
    pub rows: Vec<Row>,
}

impl Document {
    /// The character sequences of the rows, in document order.
    pub open spec fn rows_seq(&self) -> Seq<Seq<char>> {
        self.rows@.map_values(|r: Row| r.chars@)
    }

    /// Every row's render form is consistent with its characters.
    pub open spec fn wf(&self) -> bool {
        forall|i: int| 0 <= i < self.rows@.len() ==> (#[trigger] self.rows@[i]).wf()
    }

    /// An empty document.
    pub fn new() -> (d: Document)
        ensures
            d.rows_seq().len() == 0,
            d.wf(),
    {
        let d = Document { rows: Vec::new() };
        proof {
            assert(d.rows_seq() =~= Seq::<Seq<char>>::empty());
        }
        d
    }

    /// Append one line of text as a new row at the end of the document.
    pub fn append_line(&mut self, text: String)
        ensures
            final(self).rows_seq() == old(self).rows_seq().push(text@),
            old(self).wf() ==> final(self).wf(),
    {
        let ghost before = self.rows_seq();
        let row = Row::new(text);
        self.rows.push(row);
        proof {
            assert(self.rows_seq() =~= before.push(row.chars@));
        }
    }

    /// Number of rows in the document.
    pub fn row_count(&self) -> (n: usize)
        ensures
            n == self.rows_seq().len(),
    {
        self.rows.len()
    }

    /// Number of characters in row `i`.
    pub fn row_length(&self, i: usize) -> (n: usize)
        requires
            i < self.rows_seq().len(),
        ensures
            n == self.rows_seq()[i as int].len(),
    {
        self.rows[i].chars.len()
    }
}

/// Appending the same text twice gives two rows at distinct indices, each
/// holding that text, and therefore with identical render forms.
pub proof fn lemma_append_twice(rows: Seq<Seq<char>>, text: Seq<char>, tab: int)
    ensures
        ({
            let after = rows.push(text).push(text);
            &&& after.len() == rows.len() + 2
            &&& after[rows.len() as int] == text
            &&& after[rows.len() as int + 1] == text
            &&& crate::row::render_of(after[rows.len() as int], tab) == crate::row::render_of(
                after[rows.len() as int + 1],
                tab,
            )
        }),
{
}

} // verus!
