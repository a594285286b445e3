//! Finding an entry by its name in a list of named entries.

use crate::text::text_eq;
use vstd::prelude::*;

verus! {

/// Whether `i` is the first place in `keys` at which `key` stands.
pub open spec fn first_at(keys: Seq<Seq<char>>, key: Seq<char>, i: int) -> bool {
    &&& 0 <= i < keys.len()
    &&& keys[i] == key
    &&& forall|j: int| 0 <= j < i ==> keys[j] != key
}

/// The first place in `keys` at which `key` stands, if it stands anywhere.
pub open spec fn position(keys: Seq<Seq<char>>, key: Seq<char>) -> Option<int> {
    if exists|i: int| first_at(keys, key, i) {
        Some(choose|i: int| first_at(keys, key, i))
    } else {
        None
    }
}

/// The names of a list of named entries, in order.
pub open spec fn names<V>(entries: Seq<(Seq<char>, V)>) -> Seq<Seq<char>> {
    Seq::new(entries.len(), |i: int| entries[i].0)
}

/// The first entry of the name `key`, if there is one.
pub open spec fn lookup<V>(entries: Seq<(Seq<char>, V)>, key: Seq<char>) -> Option<V> {
    match position(names(entries), key) {
        Some(i) => Some(entries[i].1),
        None => None,
    }
}

/// The names of a list of named entries as it is held in memory, in order.
pub open spec fn stored_names<T>(entries: Seq<(String, T)>) -> Seq<Seq<char>> {
    Seq::new(entries.len(), |i: int| entries[i].0@)
}

/// There is one first place at most.
pub proof fn lemma_position_is(keys: Seq<Seq<char>>, key: Seq<char>, i: int)
    requires
        first_at(keys, key, i),
    ensures
        position(keys, key) == Some(i),
{
    let chosen = choose|k: int| first_at(keys, key, k);
    assert(first_at(keys, key, chosen));
    if chosen < i {
        assert(keys[chosen] != key);
    } else if i < chosen {
        assert(keys[i] != key);
    }
}

/// A name that stands nowhere has no place.
pub proof fn lemma_position_none(keys: Seq<Seq<char>>, key: Seq<char>)
    requires
        forall|j: int| 0 <= j < keys.len() ==> keys[j] != key,
    ensures
        position(keys, key) is None,
{
}

/// A place that is found is the first at which the name stands.
pub proof fn lemma_position_found(keys: Seq<Seq<char>>, key: Seq<char>)
    ensures
        position(keys, key) matches Some(i) ==> first_at(keys, key, i),
        position(keys, key) is None ==> forall|j: int| 0 <= j < keys.len() ==> keys[j] != key,
{
    if position(keys, key) is None {
        assert forall|j: int| 0 <= j < keys.len() implies keys[j] != key by {
            if keys[j] == key {
                lemma_first_exists(keys, key, j);
            }
        }
    }
}

/// Where a name stands at all, it stands somewhere first.
proof fn lemma_first_exists(keys: Seq<Seq<char>>, key: Seq<char>, j: int)
    requires
        0 <= j < keys.len(),
        keys[j] == key,
    ensures
        exists|i: int| first_at(keys, key, i),
    decreases j,
{
    if exists|k: int| 0 <= k < j && keys[k] == key {
        let k = choose|k: int| 0 <= k < j && keys[k] == key;
        lemma_first_exists(keys, key, k);
    } else {
        assert(first_at(keys, key, j));
    }
}

/// The first place at which `key` names an entry.
pub fn find_key<T>(entries: &Vec<(String, T)>, key: &str) -> (found: Option<usize>)
    ensures
        match found {
            Some(i) => position(stored_names(entries@), key@) == Some(i as int),
            None => position(stored_names(entries@), key@) is None,
        },
{
    let mut i: usize = 0;
    while i < entries.len()
        invariant
            i <= entries.len(),
            forall|j: int| 0 <= j < i ==> entries[j].0@ != key@,
        decreases entries.len() - i,
    {
        if text_eq(entries[i].0.as_str(), key) {
            proof {
                lemma_position_is(stored_names(entries@), key@, i as int);
            }
            return Some(i);
        }
        i += 1;
    }
    proof {
        lemma_position_none(stored_names(entries@), key@);
    }
    None
}

} // verus!
