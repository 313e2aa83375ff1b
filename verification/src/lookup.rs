//! Finding a record by its identifier in a list that stands for a keyed
//! table: where an identifier occurs more than once, the last entry counts,
//! as the last insertion into a map would.

use vstd::prelude::*;
use vstd::string::*;

verus! {

/// The index of the last occurrence of `key` in `keys`, if it occurs.
pub open spec fn last_index_of(keys: Seq<Seq<char>>, key: Seq<char>) -> Option<int>
    decreases keys.len(),
{
    if keys.len() == 0 {
        None
    } else if keys.last() == key {
        Some(keys.len() - 1)
    } else {
        last_index_of(keys.drop_last(), key)
    }
}

/// What `last_index_of` returns is the last index that holds the key, and
/// it returns nothing exactly when no index holds it.
pub proof fn lemma_last_index_of(keys: Seq<Seq<char>>, key: Seq<char>)
    ensures
        match last_index_of(keys, key) {
            Some(i) => {
                &&& 0 <= i < keys.len()
                &&& keys[i] == key
                &&& forall|j: int| i < j < keys.len() ==> keys[j] != key
            },
            None => forall|j: int| 0 <= j < keys.len() ==> keys[j] != key,
        },
        last_index_of(keys, key) is Some <==> keys.contains(key),
    decreases keys.len(),
{
    if keys.len() == 0 {
    } else if keys.last() == key {
        assert(keys[keys.len() - 1] == key);
    } else {
        lemma_last_index_of(keys.drop_last(), key);
        match last_index_of(keys, key) {
            Some(i) => {
                assert(keys.drop_last()[i] == keys[i]);
                assert forall|j: int| i < j < keys.len() implies keys[j] != key by {
                    if j < keys.len() - 1 {
                        assert(keys.drop_last()[j] == keys[j]);
                    }
                }
            },
            None => {
                assert forall|j: int| 0 <= j < keys.len() implies keys[j] != key by {
                    if j < keys.len() - 1 {
                        assert(keys.drop_last()[j] == keys[j]);
                    }
                }
            },
        }
    }
}

/// No key occurs twice.
pub open spec fn distinct(keys: Seq<Seq<char>>) -> bool {
    forall|i: int, j: int| 0 <= i < j < keys.len() ==> keys[i] != keys[j]
}

} // verus!
