//! Lookup in small tables keyed by text.

use vstd::prelude::*;

verus! {

/// The first position at which `key` stands in `keys`.
pub open spec fn index_of(keys: Seq<Seq<char>>, key: Seq<char>) -> Option<int>
    decreases keys.len(),
{
    if keys.len() == 0 {
        None
    } else {
        match index_of(keys.drop_last(), key) {
            Some(i) => Some(i),
            None => if keys.last() == key {
                Some(keys.len() - 1)
            } else {
                None
            },
        }
    }
}

/// Whether no key stands twice in `keys`.
pub open spec fn distinct(keys: Seq<Seq<char>>) -> bool {
    forall|i: int, j: int| 0 <= i < j < keys.len() ==> keys[i] != keys[j]
}

/// `index_of` finds the key, and nothing before that position is the key.
pub proof fn lemma_index_of(keys: Seq<Seq<char>>, key: Seq<char>)
    ensures
        match index_of(keys, key) {
            Some(i) => 0 <= i < keys.len() && keys[i] == key,
            None => forall|j: int| 0 <= j < keys.len() ==> keys[j] != key,
        },
    decreases keys.len(),
{
    if keys.len() > 0 {
        lemma_index_of(keys.drop_last(), key);
        match index_of(keys.drop_last(), key) {
            Some(i) => {
                assert(keys.drop_last()[i] == keys[i]);
            },
            None => {
                assert forall|j: int| 0 <= j < keys.len() - 1 implies keys[j] != key by {
                    assert(keys.drop_last()[j] == keys[j]);
                }
            },
        }
    }
}

/// Among distinct keys each position is found by its own key.
pub proof fn lemma_index_of_own(keys: Seq<Seq<char>>, i: int)
    requires
        distinct(keys),
        0 <= i < keys.len(),
    ensures
        index_of(keys, keys[i]) == Some(i),
{
    lemma_index_of(keys, keys[i]);
}

/// A key found in a prefix is found at the same place in the whole.
pub proof fn lemma_index_of_prefix(keys: Seq<Seq<char>>, n: int, key: Seq<char>)
    requires
        0 <= n <= keys.len(),
        index_of(keys.subrange(0, n), key).is_some(),
    ensures
        index_of(keys, key) == index_of(keys.subrange(0, n), key),
    decreases keys.len() - n,
{
    if n < keys.len() {
        assert(keys.subrange(0, n + 1).drop_last() =~= keys.subrange(0, n));
        lemma_index_of_prefix(keys, n + 1, key);
    } else {
        assert(keys.subrange(0, n) =~= keys);
    }
}

/// Removing one of several distinct keys leaves every other key where the
/// shift puts it, and the removed key nowhere.
pub proof fn lemma_index_of_remove(keys: Seq<Seq<char>>, i: int, key: Seq<char>)
    requires
        distinct(keys),
        0 <= i < keys.len(),
    ensures
        distinct(keys.remove(i)),
        key == keys[i] ==> index_of(keys.remove(i), key).is_none(),
        key != keys[i] ==> index_of(keys.remove(i), key) == match index_of(keys, key) {
            Some(j) => if j < i {
                Some(j)
            } else {
                Some(j - 1)
            },
            None => None,
        },
{
    let rest = keys.remove(i);
    assert forall|a: int, b: int| 0 <= a < b < rest.len() implies rest[a] != rest[b] by {
        let a0 = if a < i { a } else { a + 1 };
        let b0 = if b < i { b } else { b + 1 };
        assert(rest[a] == keys[a0] && rest[b] == keys[b0]);
    }
    lemma_index_of(rest, key);
    lemma_index_of(keys, key);
    match index_of(rest, key) {
        Some(j) => {
            let j0 = if j < i { j } else { j + 1 };
            assert(rest[j] == keys[j0]);
            lemma_index_of_own(keys, j0);
        },
        None => {
            match index_of(keys, key) {
                Some(j) => {
                    if j != i {
                        let j1 = if j < i { j } else { j - 1 };
                        assert(rest[j1] == keys[j]);
                    }
                },
                None => {},
            }
        },
    }
}

} // verus!
