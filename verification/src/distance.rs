//! Edit distance: the metric behind the fuzzy matching stage.

use vstd::prelude::*;

verus! {

/// The least of three naturals.
pub open spec fn min3(a: nat, b: nat, c: nat) -> nat {
    if a <= b && a <= c {
        a
    } else if b <= c {
        b
    } else {
        c
    }
}

/// The Levenshtein edit distance between two character sequences: the
/// minimum number of single-character insertions, deletions and
/// substitutions that turn `a` into `b`.
pub open spec fn edit_distance(a: Seq<char>, b: Seq<char>) -> nat
    decreases a.len(), b.len(),
{
    if a.len() == 0 {
        b.len()
    } else if b.len() == 0 {
        a.len()
    } else {
        let tail_cost: nat = if a.last() == b.last() {
            0
        } else {
            1
        };
        min3(
            edit_distance(a.drop_last(), b) + 1,
            edit_distance(a, b.drop_last()) + 1,
            edit_distance(a.drop_last(), b.drop_last()) + tail_cost,
        )
    }
}

/// Relies on `strsim::levenshtein`: it computes the minimum number of
/// single-character insertions, deletions and substitutions required to
/// change one string into the other, over the strings' characters.
pub assume_specification[ strsim::levenshtein ](a: &str, b: &str) -> (r: usize)
    ensures
        r == edit_distance(a@, b@),
;

/// A string is at distance zero from itself.
pub proof fn lemma_edit_distance_self(a: Seq<char>)
    ensures
        edit_distance(a, a) == 0,
    decreases a.len(),
{
    if a.len() != 0 {
        lemma_edit_distance_self(a.drop_last());
    }
}

/// Distance zero means the strings are equal.
pub proof fn lemma_edit_distance_zero(a: Seq<char>, b: Seq<char>)
    requires
        edit_distance(a, b) == 0,
    ensures
        a == b,
    decreases a.len(), b.len(),
{
    if a.len() == 0 {
        assert(a =~= b);
    } else if b.len() == 0 {
        assert(a =~= b);
    } else {
        lemma_edit_distance_zero(a.drop_last(), b.drop_last());
        assert(a.last() == b.last());
        assert(a =~= b) by {
            assert(forall|i: int|
                0 <= i < a.len() - 1 ==> a[i] == a.drop_last()[i] && b[i] == b.drop_last()[i]);
        }
    }
}

/// Appending one character to a string moves it at most one edit away.
pub proof fn lemma_edit_distance_append_one(a: Seq<char>, c: char)
    ensures
        edit_distance(a.push(c), a) <= 1,
{
    if a.len() == 0 {
        assert(a.push(c).len() == 1);
    } else {
        assert(a.push(c).drop_last() =~= a);
        lemma_edit_distance_self(a);
    }
}

} // verus!
