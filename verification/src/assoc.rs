//! Lists of key and value pairs that are searched from the front: the model
//! of the small tables of this library.

use vstd::prelude::*;

verus! {

/// The value stored under `key` in a list of entries: that of the first entry
/// with this key.
pub open spec fn find<K, V>(entries: Seq<(K, V)>, key: K) -> Option<V>
    decreases entries.len(),
{
    if entries.len() == 0 {
        None
    } else if entries[0].0 == key {
        Some(entries[0].1)
    } else {
        find(entries.drop_first(), key)
    }
}

/// The keys of a list of entries, in order.
pub open spec fn keys_of<K, V>(entries: Seq<(K, V)>) -> Seq<K> {
    Seq::new(entries.len(), |i: int| entries[i].0)
}

/// If no entry before `i` has the key, then the search gives entry `i`, or
/// nothing where `i` is the end of the list.
pub proof fn lemma_find<K, V>(entries: Seq<(K, V)>, key: K, i: int)
    requires
        0 <= i <= entries.len(),
        forall|k: int| 0 <= k < i ==> entries[k].0 != key,
        i < entries.len() ==> entries[i].0 == key,
    ensures
        find(entries, key) == if i < entries.len() {
            Some(entries[i].1)
        } else {
            None
        },
    decreases entries.len(),
{
    if entries.len() == 0 || entries[0].0 == key {
    } else {
        let rest = entries.drop_first();
        assert forall|k: int| 0 <= k < i - 1 implies rest[k].0 != key by {
            assert(rest[k] == entries[k + 1]);
        }
        lemma_find(rest, key, i - 1);
    }
}

/// A key that no entry has is not found.
pub proof fn lemma_find_absent<K, V>(entries: Seq<(K, V)>, key: K)
    ensures
        find(entries, key) is None <==> !keys_of(entries).contains(key),
    decreases entries.len(),
{
    let keys = keys_of(entries);
    if entries.len() == 0 {
    } else if entries[0].0 == key {
        assert(keys[0] == key);
    } else {
        let rest = entries.drop_first();
        lemma_find_absent(rest, key);
        if keys_of(rest).contains(key) {
            let j = choose|j: int| 0 <= j < keys_of(rest).len() && keys_of(rest)[j] == key;
            assert(keys[j + 1] == key);
        }
        if keys.contains(key) {
            let j = choose|j: int| 0 <= j < keys.len() && keys[j] == key;
            assert(keys_of(rest)[j - 1] == key);
        }
    }
}

/// Two lists that differ only at position `i`, where both hold `key` or the
/// first ends and the second holds `key`, give the same answer for any other key.
pub proof fn lemma_find_changed<K, V>(
    before: Seq<(K, V)>,
    after: Seq<(K, V)>,
    key: K,
    other: K,
    i: int,
)
    requires
        other != key,
        0 <= i <= before.len(),
        after.len() == (if i < before.len() {
            before.len()
        } else {
            before.len() + 1
        }),
        after[i].0 == key,
        i < before.len() ==> before[i].0 == key,
        forall|k: int| 0 <= k < before.len() && k != i ==> after[k] == before[k],
    ensures
        find(after, other) == find(before, other),
    decreases before.len(),
{
    if before.len() == 0 {
        assert(after.drop_first().len() == 0);
    } else if i == 0 {
        assert(after.drop_first() =~= before.drop_first());
    } else {
        assert(after[0] == before[0]);
        let b = before.drop_first();
        let a = after.drop_first();
        assert forall|k: int| 0 <= k < b.len() && k != i - 1 implies a[k] == b[k] by {
            assert(a[k] == after[k + 1]);
            assert(b[k] == before[k + 1]);
        }
        lemma_find_changed(b, a, key, other, i - 1);
    }
}

} // verus!
