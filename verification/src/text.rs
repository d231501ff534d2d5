//! Conversion of borrowed text into owned character sequences.

use vstd::prelude::*;

verus! {

broadcast use vstd::string::axiom_spec_iter, vstd::string::next_postcondition;

/// Collect the characters of a string slice into a vector, in order.
pub fn chars_of(s: &str) -> (v: Vec<char>)
    ensures
        v@ == s@,
{
    let mut it = s.chars();
    let mut v: Vec<char> = Vec::new();
    loop
        invariant
            vstd::std_specs::iter::IteratorSpec::obeys_prophetic_iter_laws(&it),
            v@.len() <= s@.len(),
            v@ == s@.take(v@.len() as int),
            vstd::std_specs::iter::IteratorSpec::remaining(&it) == s@.skip(v@.len() as int),
        ensures
            v@ == s@,
        decreases s@.len() - v@.len(),
    {
        match it.next() {
            Some(c) => {
                proof {
                    assert(s@.skip(v@.len() as int)[0] == s@[v@.len() as int]);
                    assert(s@.skip(v@.len() as int).drop_first() =~= s@.skip(v@.len() as int + 1));
                    assert(v@.push(c) =~= s@.take(v@.len() as int + 1));
                }
                v.push(c);
            },
            None => {
                proof {
                    assert(s@.skip(v@.len() as int).len() == 0);
                    assert(v@ =~= s@);
                }
                break ;
            },
        }
    }
    v
}

} // verus!
