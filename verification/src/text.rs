//! Text helpers: character-wise equality and the lexicographic order of
//! texts, with the laws that make the order usable for sorting.
use std::cmp::Ordering;
use vstd::prelude::*;
use vstd::string::*;

use crate::chars::{lemma_tail_step, tail_from};

verus! {

/// The lexicographic order of two character sequences, character by
/// character, a proper prefix coming first.
pub open spec fn lex_order(a: Seq<char>, b: Seq<char>) -> Ordering
    decreases a.len(),
{
    if a.len() == 0 {
        if b.len() == 0 {
            Ordering::Equal
        } else {
            Ordering::Less
        }
    } else if b.len() == 0 {
        Ordering::Greater
    } else if a[0] < b[0] {
        Ordering::Less
    } else if b[0] < a[0] {
        Ordering::Greater
    } else {
        lex_order(a.drop_first(), b.drop_first())
    }
}

/// The ordering seen from the other side.
pub open spec fn flipped(o: Ordering) -> Ordering {
    match o {
        Ordering::Less => Ordering::Greater,
        Ordering::Equal => Ordering::Equal,
        Ordering::Greater => Ordering::Less,
    }
}

/// Comparing a sequence with itself gives `Equal`.
pub proof fn lemma_lex_reflexive(a: Seq<char>)
    ensures
        lex_order(a, a) == Ordering::Equal,
    decreases a.len(),
{
    if a.len() > 0 {
        lemma_lex_reflexive(a.drop_first());
    }
}

/// Swapping the arguments flips the result.
pub proof fn lemma_lex_antisymmetric(a: Seq<char>, b: Seq<char>)
    ensures
        lex_order(a, b) == flipped(lex_order(b, a)),
    decreases a.len(),
{
    if a.len() > 0 && b.len() > 0 && a[0] == b[0] {
        lemma_lex_antisymmetric(a.drop_first(), b.drop_first());
    }
}

/// Only equal sequences compare `Equal`.
pub proof fn lemma_lex_equal(a: Seq<char>, b: Seq<char>)
    ensures
        lex_order(a, b) == Ordering::Equal <==> a == b,
    decreases a.len(),
{
    if a.len() > 0 && b.len() > 0 && a[0] == b[0] {
        lemma_lex_equal(a.drop_first(), b.drop_first());
        if a.drop_first() == b.drop_first() {
            assert(a =~= seq![a[0]] + a.drop_first());
            assert(b =~= seq![b[0]] + b.drop_first());
        }
        if a == b {
            assert(a.drop_first() =~= b.drop_first());
        }
    }
    if a.len() == 0 && b.len() == 0 {
        assert(a =~= b);
    }
    lemma_lex_reflexive(a);
}

/// `Less` is transitive.
pub proof fn lemma_lex_transitive(a: Seq<char>, b: Seq<char>, c: Seq<char>)
    requires
        lex_order(a, b) == Ordering::Less,
        lex_order(b, c) == Ordering::Less,
    ensures
        lex_order(a, c) == Ordering::Less,
    decreases a.len(),
{
    if a.len() > 0 && b.len() > 0 && c.len() > 0 && a[0] == b[0] && b[0] == c[0] {
        lemma_lex_transitive(a.drop_first(), b.drop_first(), c.drop_first());
    }
}

/// Texts are ordered by their first differing character, whatever their
/// lengths: where `a` and `b` agree before position `k`, both go past `k`
/// and differ at `k`, the smaller character at `k` puts its text first.
pub proof fn law_text_order_first_difference(a: Seq<char>, b: Seq<char>, k: int)
    requires
        0 <= k < a.len(),
        k < b.len(),
        forall|i: int| 0 <= i < k ==> a[i] == b[i],
        a[k] != b[k],
    ensures
        a[k] < b[k] ==> lex_order(a, b) == Ordering::Less,
        b[k] < a[k] ==> lex_order(a, b) == Ordering::Greater,
    decreases k,
{
    if k > 0 {
        assert(a[0] == b[0]);
        let a1 = a.drop_first();
        let b1 = b.drop_first();
        assert forall|i: int| 0 <= i < k - 1 implies a1[i] == b1[i] by {
            assert(a1[i] == a[i + 1]);
            assert(b1[i] == b[i + 1]);
        }
        law_text_order_first_difference(a1, b1, k - 1);
        assert(a1[k - 1] == a[k]);
        assert(b1[k - 1] == b[k]);
    }
}

/// A text that is a proper prefix of another comes first.
pub proof fn law_text_order_prefix_first(a: Seq<char>, b: Seq<char>)
    requires
        a.len() < b.len(),
        forall|i: int| 0 <= i < a.len() ==> a[i] == b[i],
    ensures
        lex_order(a, b) == Ordering::Less,
        lex_order(b, a) == Ordering::Greater,
    decreases a.len(),
{
    if a.len() > 0 {
        assert(a[0] == b[0]);
        let a1 = a.drop_first();
        let b1 = b.drop_first();
        assert forall|i: int| 0 <= i < a1.len() implies a1[i] == b1[i] by {
            assert(a1[i] == a[i + 1]);
            assert(b1[i] == b[i + 1]);
        }
        law_text_order_prefix_first(a1, b1);
    }
}

/// Compares two texts character by character; the result is the
/// lexicographic order of their characters.
pub fn compare_text(a: &str, b: &str) -> (r: Ordering)
    ensures
        r == lex_order(a@, b@),
{
    let la = a.unicode_len();
    let lb = b.unicode_len();
    let mut i: usize = 0;
    assert(tail_from(a@, 0) =~= a@);
    assert(tail_from(b@, 0) =~= b@);
    while i < la && i < lb
        invariant
            i <= la,
            i <= lb,
            la == a@.len(),
            lb == b@.len(),
            lex_order(a@, b@) == lex_order(tail_from(a@, i), tail_from(b@, i)),
        decreases la - i,
    {
        let ca = a.get_char(i);
        let cb = b.get_char(i);
        if ca < cb {
            return Ordering::Less;
        }
        if cb < ca {
            return Ordering::Greater;
        }
        let ghost k = i;
        i = i + 1;
        proof {
            lemma_tail_step(a@, k, i);
            lemma_tail_step(b@, k, i);
        }
    }
    if i < lb {
        Ordering::Less
    } else if i < la {
        Ordering::Greater
    } else {
        Ordering::Equal
    }
}

/// Whether two texts hold the same characters.
pub fn text_eq(a: &str, b: &str) -> (r: bool)
    ensures
        r == (a@ == b@),
{
    let la = a.unicode_len();
    let lb = b.unicode_len();
    if la != lb {
        return false;
    }
    let mut i: usize = 0;
    while i < la
        invariant
            i <= la,
            la == a@.len(),
            lb == b@.len(),
            la == lb,
            forall|j: int| 0 <= j < i ==> a@[j] == b@[j],
        decreases la - i,
    {
        if a.get_char(i) != b.get_char(i) {
            return false;
        }
        i = i + 1;
    }
    assert(a@ =~= b@);
    true
}

} // verus!
