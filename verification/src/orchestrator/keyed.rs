//! First-match lookup in sequences of text keys, the model of the small
//! keyed tables that the orchestrator keeps in vectors.

use vstd::prelude::*;

verus! {

/// The position of the first key equal to `k`, if any.
pub open spec fn first_match(keys: Seq<Seq<char>>, k: Seq<char>) -> Option<int>
    decreases keys.len(),
{
    if keys.len() == 0 {
        None
    } else if keys[0] == k {
        Some(0)
    } else {
        match first_match(keys.drop_first(), k) {
            Some(i) => Some(i + 1),
            None => None,
        }
    }
}

/// `first_match` finds the first position holding `k`, and finds nothing
/// exactly when no position holds `k`.
pub proof fn lemma_first_match(keys: Seq<Seq<char>>, k: Seq<char>)
    ensures
        first_match(keys, k) matches Some(i) ==> {
            &&& 0 <= i < keys.len()
            &&& keys[i] == k
            &&& forall|j: int| 0 <= j < i ==> keys[j] != k
        },
        first_match(keys, k) is None ==> forall|j: int| 0 <= j < keys.len() ==> keys[j] != k,
    decreases keys.len(),
{
    if keys.len() > 0 && keys[0] != k {
        lemma_first_match(keys.drop_first(), k);
        assert forall|j: int| 1 <= j < keys.len() implies keys[j] == keys.drop_first()[j - 1] by {}
    }
}

/// A position holding `k` with no earlier `k` is the first match.
pub proof fn lemma_first_match_at(keys: Seq<Seq<char>>, k: Seq<char>, i: int)
    requires
        0 <= i < keys.len(),
        keys[i] == k,
        forall|j: int| 0 <= j < i ==> keys[j] != k,
    ensures
        first_match(keys, k) == Some(i),
{
    lemma_first_match(keys, k);
    match first_match(keys, k) {
        Some(m) => {
            if m < i {
                assert(keys[m] == k);
            } else if i < m {
                assert(keys[i] != k);
            }
        },
        None => {
            assert(keys[i] != k);
        },
    }
}

/// When no key equals `k`, there is no match.
pub proof fn lemma_first_match_none(keys: Seq<Seq<char>>, k: Seq<char>)
    requires
        forall|j: int| 0 <= j < keys.len() ==> keys[j] != k,
    ensures
        first_match(keys, k) is None,
{
    lemma_first_match(keys, k);
    if let Some(m) = first_match(keys, k) {
        assert(keys[m] == k);
    }
}

/// Appending a key that did not occur changes only the lookup of that key.
pub proof fn lemma_first_match_push(keys: Seq<Seq<char>>, k: Seq<char>, q: Seq<char>)
    requires
        first_match(keys, k) is None,
    ensures
        first_match(keys.push(k), q) == if q == k {
            Some(keys.len() as int)
        } else {
            first_match(keys, q)
        },
{
    let ks = keys.push(k);
    lemma_first_match(keys, k);
    lemma_first_match(keys, q);
    if q == k {
        assert forall|j: int| 0 <= j < keys.len() implies ks[j] != q by {
            assert(ks[j] == keys[j]);
        }
        lemma_first_match_at(ks, q, keys.len() as int);
    } else {
        match first_match(keys, q) {
            Some(i) => {
                assert forall|j: int| 0 <= j < i implies ks[j] != q by {
                    assert(ks[j] == keys[j]);
                }
                lemma_first_match_at(ks, q, i);
            },
            None => {
                assert forall|j: int| 0 <= j < ks.len() implies ks[j] != q by {
                    if j < keys.len() {
                        assert(ks[j] == keys[j]);
                    }
                }
                lemma_first_match_none(ks, q);
            },
        }
    }
}

} // verus!
