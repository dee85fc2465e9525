//! Association lists as maps: what a list of keys and values stands for, and
//! what reading and writing it in place does to that map.

use vstd::prelude::*;

verus! {

/// The map `initial` after each of `entries` was set in it, first to last: a
/// later entry for a key replaces an earlier one.
pub open spec fn assoc_map<K, V>(initial: Map<K, V>, entries: Seq<(K, V)>) -> Map<K, V>
    decreases entries.len(),
{
    if entries.len() == 0 {
        initial
    } else {
        assoc_map(initial, entries.drop_last()).insert(entries.last().0, entries.last().1)
    }
}

/// Whether `entries[i]` is the last entry for its key.
pub open spec fn is_last_for_key<K, V>(entries: Seq<(K, V)>, i: int) -> bool {
    &&& 0 <= i < entries.len()
    &&& forall|j: int| i < j < entries.len() ==> (#[trigger] entries[j]).0 != entries[i].0
}

/// A key that no entry has is not in the map of the list.
pub proof fn lemma_assoc_map_absent<K, V>(entries: Seq<(K, V)>, key: K)
    requires
        forall|j: int| 0 <= j < entries.len() ==> (#[trigger] entries[j]).0 != key,
    ensures
        !assoc_map(Map::empty(), entries).dom().contains(key),
    decreases entries.len(),
{
    if entries.len() > 0 {
        let front = entries.drop_last();
        assert forall|j: int| 0 <= j < front.len() implies (#[trigger] front[j]).0 != key by {
            assert(entries[j].0 != key);
        }
        lemma_assoc_map_absent(front, key);
        assert(entries[entries.len() - 1].0 != key);
    }
}

/// The map of a list gives each key the value of the last entry for it.
pub proof fn lemma_assoc_map_last<K, V>(entries: Seq<(K, V)>, i: int)
    requires
        is_last_for_key(entries, i),
    ensures
        assoc_map(Map::empty(), entries).dom().contains(entries[i].0),
        assoc_map(Map::empty(), entries)[entries[i].0] == entries[i].1,
    decreases entries.len(),
{
    let front = entries.drop_last();
    if i < entries.len() - 1 {
        assert(is_last_for_key(front, i)) by {
            assert forall|j: int| i < j < front.len() implies (#[trigger] front[j]).0
                != front[i].0 by {
                assert(entries[j].0 != entries[i].0);
            }
        }
        lemma_assoc_map_last(front, i);
        assert(entries[entries.len() - 1].0 != entries[i].0);
    }
}

/// Writing a value into the last entry for a key sets that key in the map of
/// the list.
pub proof fn lemma_assoc_map_update<K, V>(entries: Seq<(K, V)>, i: int, value: V)
    requires
        is_last_for_key(entries, i),
    ensures
        assoc_map(Map::empty(), entries.update(i, (entries[i].0, value))) == assoc_map(
            Map::empty(),
            entries,
        ).insert(entries[i].0, value),
    decreases entries.len(),
{
    let key = entries[i].0;
    let updated = entries.update(i, (key, value));
    let front = entries.drop_last();
    if i == entries.len() - 1 {
        assert(updated.drop_last() =~= front);
        assert(assoc_map(Map::empty(), updated) =~= assoc_map(Map::empty(), entries).insert(
            key,
            value,
        ));
    } else {
        assert(is_last_for_key(front, i)) by {
            assert forall|j: int| i < j < front.len() implies (#[trigger] front[j]).0
                != front[i].0 by {
                assert(entries[j].0 != entries[i].0);
            }
        }
        lemma_assoc_map_update(front, i, value);
        assert(updated.drop_last() =~= front.update(i, (key, value)));
        assert(entries[entries.len() - 1].0 != key);
        assert(assoc_map(Map::empty(), updated) =~= assoc_map(Map::empty(), entries).insert(
            key,
            value,
        ));
    }
}

/// Adding an entry at the end sets its key in the map of the list.
pub proof fn lemma_assoc_map_push<K, V>(entries: Seq<(K, V)>, key: K, value: V)
    ensures
        assoc_map(Map::empty(), entries.push((key, value))) == assoc_map(
            Map::empty(),
            entries,
        ).insert(key, value),
{
    assert(entries.push((key, value)).drop_last() =~= entries);
}

} // verus!
