//! Small facts about character sequences, kept apart from the code that
//! works with orderings.
use vstd::prelude::*;

verus! {

/// The characters of `s` from position `i` on.
pub open spec fn tail_from(s: Seq<char>, i: usize) -> Seq<char> {
    s.skip(i as int)
}

/// Dropping the first character of a tail gives the next tail.
pub proof fn lemma_tail_step(s: Seq<char>, i: usize, j: usize)
    requires
        j == i + 1,
        i < s.len(),
    ensures
        tail_from(s, i).drop_first() == tail_from(s, j),
{
    assert(tail_from(s, i).drop_first() =~= tail_from(s, j));
}

} // verus!
