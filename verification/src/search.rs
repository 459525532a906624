//! Where a value first stands in a sequence, and how often it stands there.

use vstd::prelude::*;

verus! {

/// Index of the first occurrence of `x` in `s`, or `s.len()` when `x` does not occur.
pub open spec fn first_index_of<T>(s: Seq<T>, x: T) -> int
    decreases s.len(),
{
    if s.len() == 0 || s[0] == x {
        0
    } else {
        1 + first_index_of(s.drop_first(), x)
    }
}

/// The number of occurrences of `x` in `s`.
pub open spec fn occurrences<T>(s: Seq<T>, x: T) -> nat
    decreases s.len(),
{
    if s.len() == 0 {
        0
    } else {
        occurrences(s.drop_last(), x) + if s.last() == x {
            1nat
        } else {
            0nat
        }
    }
}

/// What `first_index_of` finds: `x` stands there, if anywhere, and nowhere before.
pub proof fn lemma_first_index_of<T>(s: Seq<T>, x: T)
    ensures
        0 <= first_index_of(s, x) <= s.len(),
        forall|j: int| 0 <= j < first_index_of(s, x) ==> s[j] != x,
        first_index_of(s, x) < s.len() ==> s[first_index_of(s, x)] == x,
    decreases s.len(),
{
    if s.len() > 0 && s[0] != x {
        lemma_first_index_of(s.drop_first(), x);
        assert forall|j: int| 0 <= j < first_index_of(s, x) implies s[j] != x by {
            if j > 0 {
                assert(s[j] == s.drop_first()[j - 1]);
            }
        }
    }
}

/// The index that `first_index_of` finds is the only one of its kind.
pub proof fn lemma_first_index_unique<T>(s: Seq<T>, x: T, i: int)
    requires
        0 <= i <= s.len(),
        forall|j: int| 0 <= j < i ==> s[j] != x,
        i < s.len() ==> s[i] == x,
    ensures
        first_index_of(s, x) == i,
{
    lemma_first_index_of(s, x);
    let k = first_index_of(s, x);
    if k < i {
        assert(s[k] != x);
    } else if i < k {
        assert(s[i] != x);
    }
}

/// A value occurs in a sequence exactly when it has a first index there.
pub proof fn lemma_occurs_iff_found<T>(s: Seq<T>, x: T)
    ensures
        occurrences(s, x) > 0 <==> first_index_of(s, x) < s.len(),
    decreases s.len(),
{
    lemma_first_index_of(s, x);
    if s.len() > 0 {
        let rest = s.drop_last();
        lemma_occurs_iff_found(rest, x);
        lemma_first_index_of(rest, x);
        let k = first_index_of(rest, x);
        if k < rest.len() {
            assert(rest[k] == s[k]);
            assert forall|j: int| 0 <= j < k implies s[j] != x by {
                assert(rest[j] == s[j]);
            }
            lemma_first_index_unique(s, x, k);
        } else if s.last() == x {
            assert forall|j: int| 0 <= j < s.len() - 1 implies s[j] != x by {
                assert(rest[j] == s[j]);
            }
            lemma_first_index_unique(s, x, s.len() - 1);
        } else {
            assert forall|j: int| 0 <= j < s.len() implies s[j] != x by {
                if j < rest.len() {
                    assert(rest[j] == s[j]);
                }
            }
            lemma_first_index_unique(s, x, s.len() as int);
        }
    }
}

/// One more value at the end is one more occurrence of that value and of no other.
pub proof fn lemma_occurrences_push<T>(s: Seq<T>, last: T, x: T)
    ensures
        occurrences(s.push(last), x) == occurrences(s, x) + if last == x {
            1nat
        } else {
            0nat
        },
{
    assert(s.push(last).drop_last() == s);
}

} // verus!
