//! Maps kept as a sequence of keys beside a sequence of values.

use vstd::prelude::*;

verus! {

/// The map that sends the key at each position to the value at that position.
pub open spec fn to_map<K, V>(keys: Seq<K>, values: Seq<V>) -> Map<K, V> {
    Map::new(|key: K| keys.contains(key), |key: K| values[keys.index_of(key)])
}

/// The map holds exactly the keys of the sequence, and so finitely many.
pub proof fn lemma_to_map_dom<K, V>(keys: Seq<K>, values: Seq<V>)
    ensures
        to_map(keys, values).dom() == keys.to_set(),
        to_map(keys, values).dom().finite(),
        keys.no_duplicates() ==> to_map(keys, values).dom().len() == keys.len(),
{
    broadcast use vstd::seq_lib::seq_to_set_is_finite;

    assert(to_map(keys, values).dom() =~= keys.to_set());
    if keys.no_duplicates() {
        keys.unique_seq_to_set();
    }
}

/// Where keys are distinct, the key at a position maps to the value there.
pub proof fn lemma_to_map_at<K, V>(keys: Seq<K>, values: Seq<V>, i: int)
    requires
        keys.no_duplicates(),
        0 <= i < keys.len(),
    ensures
        to_map(keys, values).contains_key(keys[i]),
        to_map(keys, values)[keys[i]] == values[i],
{
    assert(keys.contains(keys[i]));
}

/// Appending a key that is new inserts it.
pub proof fn lemma_to_map_push<K, V>(keys: Seq<K>, values: Seq<V>, key: K, value: V)
    requires
        keys.no_duplicates(),
        keys.len() == values.len(),
        !keys.contains(key),
    ensures
        keys.push(key).no_duplicates(),
        to_map(keys.push(key), values.push(value)) == to_map(keys, values).insert(key, value),
{
    let keys2 = keys.push(key);
    let values2 = values.push(value);
    assert(keys2.no_duplicates()) by {
        assert forall|i: int, j: int|
            0 <= i < keys2.len() && 0 <= j < keys2.len() && i != j implies keys2[i] != keys2[j] by {
            if i < keys.len() {
                assert(keys.contains(keys[i]));
            }
            if j < keys.len() {
                assert(keys.contains(keys[j]));
            }
        }
    }
    assert forall|k: K| keys2.contains(k) <==> (keys.contains(k) || k == key) by {
        if keys.contains(k) {
            let i = keys.index_of(k);
            assert(keys2[i] == k);
        }
        if k == key {
            assert(keys2[keys.len() as int] == k);
        }
    }
    assert forall|k: K| keys2.contains(k) implies #[trigger] to_map(keys2, values2)[k] == to_map(
        keys,
        values,
    ).insert(key, value)[k] by {
        let i = keys2.index_of(k);
        if k == key {
            assert(keys2[keys.len() as int] == k);
        } else {
            let j = keys.index_of(k);
            assert(keys2[j] == k);
        }
    }
    assert(to_map(keys2, values2) =~= to_map(keys, values).insert(key, value));
}

/// Replacing the value at a position replaces what its key maps to.
pub proof fn lemma_to_map_update<K, V>(keys: Seq<K>, values: Seq<V>, i: int, value: V)
    requires
        keys.no_duplicates(),
        keys.len() == values.len(),
        0 <= i < keys.len(),
    ensures
        to_map(keys, values.update(i, value)) == to_map(keys, values).insert(keys[i], value),
{
    assert(keys.contains(keys[i]));
    assert forall|k: K| keys.contains(k) implies #[trigger] to_map(keys, values.update(i, value))[k]
        == to_map(keys, values).insert(keys[i], value)[k] by {
        let j = keys.index_of(k);
        assert(keys[j] == k);
    }
    assert(to_map(keys, values.update(i, value)) =~= to_map(keys, values).insert(keys[i], value));
}

/// Dropping a position removes its key.
pub proof fn lemma_to_map_remove<K, V>(keys: Seq<K>, values: Seq<V>, i: int)
    requires
        keys.no_duplicates(),
        keys.len() == values.len(),
        0 <= i < keys.len(),
    ensures
        keys.remove(i).no_duplicates(),
        to_map(keys.remove(i), values.remove(i)) == to_map(keys, values).remove(keys[i]),
{
    let keys2 = keys.remove(i);
    let values2 = values.remove(i);
    keys.remove_ensures(i);
    values.remove_ensures(i);
    assert(keys2.no_duplicates());
    assert forall|k: K| keys2.contains(k) <==> (keys.contains(k) && k != keys[i]) by {
        if keys2.contains(k) {
            let j = keys2.index_of(k);
            if j < i {
                assert(keys[j] == k);
            } else {
                assert(keys[j + 1] == k);
            }
        }
        if keys.contains(k) && k != keys[i] {
            let j = keys.index_of(k);
            if j < i {
                assert(keys2[j] == k);
            } else {
                assert(keys2[j - 1] == k);
            }
        }
    }
    assert forall|k: K| keys2.contains(k) implies #[trigger] to_map(keys2, values2)[k] == to_map(
        keys,
        values,
    ).remove(keys[i])[k] by {
        let j2 = keys2.index_of(k);
        let j = keys.index_of(k);
        assert(keys[j] == k);
        if j2 < i {
            assert(keys[j2] == k);
        } else {
            assert(keys[j2 + 1] == k);
        }
    }
    assert(to_map(keys2, values2) =~= to_map(keys, values).remove(keys[i]));
}

} // verus!
