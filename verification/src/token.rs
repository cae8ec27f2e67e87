//! The order of position tokens: the order of strings, character by character.

use vstd::prelude::*;

verus! {

/// `a` sorts strictly before `b`.
///
/// The first position where the two differ decides, by the scalar values of the
/// characters there; a proper prefix sorts before the longer string.
pub open spec fn precedes(a: Seq<char>, b: Seq<char>) -> bool
    decreases a.len(),
{
    if b.len() == 0 {
        false
    } else if a.len() == 0 {
        true
    } else if a[0] == b[0] {
        precedes(a.drop_first(), b.drop_first())
    } else {
        (a[0] as int) < (b[0] as int)
    }
}

/// `a` sorts before `b` or equals it.
pub open spec fn at_most(a: Seq<char>, b: Seq<char>) -> bool {
    !precedes(b, a)
}

/// No token sorts before itself.
pub proof fn lemma_precedes_irreflexive(a: Seq<char>)
    ensures
        !precedes(a, a),
    decreases a.len(),
{
    if a.len() > 0 {
        lemma_precedes_irreflexive(a.drop_first());
    }
}

/// Of two different tokens one sorts before the other.
pub proof fn lemma_precedes_total(a: Seq<char>, b: Seq<char>)
    ensures
        a == b || precedes(a, b) || precedes(b, a),
    decreases a.len(),
{
    if a.len() == 0 || b.len() == 0 {
        if a.len() == 0 && b.len() == 0 {
            assert(a =~= b);
        }
    } else if a[0] == b[0] {
        lemma_precedes_total(a.drop_first(), b.drop_first());
        if a.drop_first() == b.drop_first() {
            assert(a =~= seq![a[0]] + a.drop_first());
            assert(b =~= seq![b[0]] + b.drop_first());
        }
    }
}

/// The order is transitive.
pub proof fn lemma_precedes_transitive(a: Seq<char>, b: Seq<char>, c: Seq<char>)
    requires
        precedes(a, b),
        precedes(b, c),
    ensures
        precedes(a, c),
    decreases a.len(),
{
    if a.len() > 0 && a[0] == b[0] && b[0] == c[0] {
        lemma_precedes_transitive(a.drop_first(), b.drop_first(), c.drop_first());
    }
}

/// A token below one that is at most a third is below the third.
pub proof fn lemma_precedes_then_at_most(a: Seq<char>, b: Seq<char>, c: Seq<char>)
    requires
        precedes(a, b),
        at_most(b, c),
    ensures
        precedes(a, c),
{
    lemma_precedes_total(b, c);
    if precedes(b, c) {
        lemma_precedes_transitive(a, b, c);
    }
}

/// A token at most one that is below a third is below the third.
pub proof fn lemma_at_most_then_precedes(a: Seq<char>, b: Seq<char>, c: Seq<char>)
    requires
        at_most(a, b),
        precedes(b, c),
    ensures
        precedes(a, c),
{
    lemma_precedes_total(a, b);
    if precedes(a, b) {
        lemma_precedes_transitive(a, b, c);
    }
}

} // verus!
