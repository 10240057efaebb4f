//! Association lists: the finite tables of the library, keyed by values and searched in order.

use vstd::prelude::*;

verus! {

/// The value an association list binds to a key: that of its last entry for the key.
pub open spec fn spec_lookup<K, V>(entries: Seq<(K, V)>, key: K) -> Option<V>
    decreases entries.len(),
{
    if entries.len() == 0 {
        None
    } else if entries.last().0 == key {
        Some(entries.last().1)
    } else {
        spec_lookup(entries.drop_last(), key)
    }
}

/// Whether no key of an association list appears twice.
pub open spec fn spec_unique_keys<K, V>(entries: Seq<(K, V)>) -> bool {
    forall|i: int, j: int| 0 <= i < j < entries.len() ==> entries[i].0 != entries[j].0
}

/// A key that no entry carries is bound to nothing.
pub proof fn lemma_lookup_absent<K, V>(entries: Seq<(K, V)>, key: K)
    requires
        forall|i: int| 0 <= i < entries.len() ==> entries[i].0 != key,
    ensures
        spec_lookup(entries, key) is None,
    decreases entries.len(),
{
    if entries.len() > 0 {
        lemma_lookup_absent(entries.drop_last(), key);
    }
}

/// In a list without repeated keys, a key is bound to the value of its entry.
pub proof fn lemma_lookup_present<K, V>(entries: Seq<(K, V)>, key: K, i: int)
    requires
        spec_unique_keys(entries),
        0 <= i < entries.len(),
        entries[i].0 == key,
    ensures
        spec_lookup(entries, key) == Some(entries[i].1),
    decreases entries.len(),
{
    if i < entries.len() - 1 {
        lemma_lookup_present(entries.drop_last(), key, i);
    }
}

/// Replacing the value of an entry rebinds its key and keeps every other binding.
pub proof fn lemma_lookup_update<K, V>(entries: Seq<(K, V)>, i: int, value: V, key: K)
    requires
        spec_unique_keys(entries),
        0 <= i < entries.len(),
    ensures
        spec_unique_keys(entries.update(i, (entries[i].0, value))),
        spec_lookup(entries.update(i, (entries[i].0, value)), key) == if key == entries[i].0 {
            Some(value)
        } else {
            spec_lookup(entries, key)
        },
{
    let e2 = entries.update(i, (entries[i].0, value));
    assert forall|a: int, b: int| 0 <= a < b < e2.len() implies e2[a].0 != e2[b].0 by {
        assert(e2[a].0 == entries[a].0);
        assert(e2[b].0 == entries[b].0);
    }
    if key == entries[i].0 {
        lemma_lookup_present(e2, key, i);
    } else {
        if exists|j: int| 0 <= j < entries.len() && entries[j].0 == key {
            let j = choose|j: int| 0 <= j < entries.len() && entries[j].0 == key;
            lemma_lookup_present(entries, key, j);
            lemma_lookup_present(e2, key, j);
        } else {
            lemma_lookup_absent(entries, key);
            assert forall|j: int| 0 <= j < e2.len() implies e2[j].0 != key by {
                assert(e2[j].0 == entries[j].0);
            }
            lemma_lookup_absent(e2, key);
        }
    }
}

/// Appending an entry for a new key binds it and keeps every other binding.
pub proof fn lemma_lookup_push<K, V>(entries: Seq<(K, V)>, key: K, value: V)
    requires
        spec_unique_keys(entries),
        forall|i: int| 0 <= i < entries.len() ==> entries[i].0 != key,
    ensures
        spec_unique_keys(entries.push((key, value))),
        forall|k: K| #[trigger] spec_lookup(entries.push((key, value)), k) == if k == key {
            Some(value)
        } else {
            spec_lookup(entries, k)
        },
{
    let e2 = entries.push((key, value));
    assert(e2.drop_last() =~= entries);
    assert forall|a: int, b: int| 0 <= a < b < e2.len() implies e2[a].0 != e2[b].0 by {
        if b == e2.len() - 1 {
            assert(e2[a] == entries[a]);
        } else {
            assert(e2[a] == entries[a] && e2[b] == entries[b]);
        }
    }
}

/// A key an association list binds is the key of one of its entries, with the bound value.
pub proof fn lemma_lookup_found<K, V>(entries: Seq<(K, V)>, key: K)
    ensures
        spec_lookup(entries, key) matches Some(v) ==> exists|i: int|
            0 <= i < entries.len() && entries[i].0 == key && entries[i].1 == v,
    decreases entries.len(),
{
    if entries.len() > 0 && entries.last().0 != key {
        lemma_lookup_found(entries.drop_last(), key);
        if let Some(v) = spec_lookup(entries, key) {
            let i = choose|i: int|
                0 <= i < entries.drop_last().len() && entries.drop_last()[i].0 == key
                    && entries.drop_last()[i].1 == v;
            assert(entries[i] == entries.drop_last()[i]);
        }
    } else if entries.len() > 0 {
        assert(entries[entries.len() - 1] == entries.last());
    }
}

} // verus!
