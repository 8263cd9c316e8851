//! Facts about sequences of keys that the tables of the store rest on.

use vstd::prelude::*;

verus! {

/// Appending a key that a duplicate-free sequence lacks keeps it free of
/// duplicates.
pub proof fn lemma_push_fresh_key<K>(keys: Seq<K>, key: K)
    requires
        keys.no_duplicates(),
        !keys.contains(key),
    ensures
        keys.push(key).no_duplicates(),
{
    let pushed = keys.push(key);
    assert forall|i: int, j: int|
        0 <= i < pushed.len() && 0 <= j < pushed.len() && i != j implies pushed[i] != pushed[j] by {
        if i < keys.len() && j < keys.len() {
            assert(keys[i] != keys[j]);
        } else if i < keys.len() {
            assert(keys.contains(keys[i]));
        } else {
            assert(keys.contains(keys[j]));
        }
    }
}

/// The first occurrence of `key` in `keys` is at `i` exactly if `key` stands
/// at `i` and nowhere before it.
pub proof fn lemma_first_index<K>(keys: Seq<K>, key: K, i: int)
    requires
        0 <= i < keys.len(),
        keys[i] == key,
        forall|j: int| 0 <= j < i ==> keys[j] != key,
    ensures
        keys.index_of_first(key) == Some(i),
        keys.contains(key),
{
    keys.index_of_first_ensures(key);
    assert(keys.contains(key));
}

/// A key that stands nowhere in `keys` has no first occurrence.
pub proof fn lemma_no_index<K>(keys: Seq<K>, key: K)
    requires
        forall|j: int| 0 <= j < keys.len() ==> keys[j] != key,
    ensures
        keys.index_of_first(key) is None,
        !keys.contains(key),
{
    keys.index_of_first_ensures(key);
}

/// In a sequence without duplicates, a key's first occurrence is its only
/// one.
pub proof fn lemma_unique_index<K>(keys: Seq<K>, i: int)
    requires
        keys.no_duplicates(),
        0 <= i < keys.len(),
    ensures
        keys.index_of_first(keys[i]) == Some(i),
{
    keys.index_of_first_ensures(keys[i]);
    assert(keys.contains(keys[i]));
}

} // verus!
