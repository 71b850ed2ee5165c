//! The abstract semantics of flushing a write batch into the store.
//!
//! The store is modelled as a map from key bytes to value bytes, and a
//! batch as the sequence of its pending entries in insertion order. The
//! engine applies a flushed batch entry by entry, in that order, so the
//! last pending entry for a key is the one that survives.

use vstd::prelude::*;

verus! {

/// The store that results from applying `entries`, in order, to `store`.
pub open spec fn apply_entries(
    store: Map<Seq<u8>, Seq<u8>>,
    entries: Seq<(Seq<u8>, Seq<u8>)>,
) -> Map<Seq<u8>, Seq<u8>>
    decreases entries.len(),
{
    if entries.len() == 0 {
        store
    } else {
        apply_entries(store.insert(entries[0].0, entries[0].1), entries.drop_first())
    }
}

/// The value of the last pending entry for `key`, if any entry has that key.
pub open spec fn last_put(entries: Seq<(Seq<u8>, Seq<u8>)>, key: Seq<u8>) -> Option<Seq<u8>>
    decreases entries.len(),
{
    if entries.len() == 0 {
        None
    } else if entries.last().0 == key {
        Some(entries.last().1)
    } else {
        last_put(entries.drop_last(), key)
    }
}

/// Appending one entry to a batch and applying it is the same as applying
/// the batch and then storing that entry.
pub proof fn lemma_apply_entries_push(
    store: Map<Seq<u8>, Seq<u8>>,
    entries: Seq<(Seq<u8>, Seq<u8>)>,
    entry: (Seq<u8>, Seq<u8>),
)
    ensures
        apply_entries(store, entries.push(entry)) == apply_entries(store, entries).insert(
            entry.0,
            entry.1,
        ),
    decreases entries.len(),
{
    if entries.len() == 0 {
        let none = Seq::<(Seq<u8>, Seq<u8>)>::empty();
        assert(entries =~= none);
        assert(apply_entries(store, none) == store);
        assert(entries.push(entry)[0] == entry);
        assert(entries.push(entry).drop_first() =~= none);
        assert(apply_entries(store.insert(entry.0, entry.1), none) == store.insert(
            entry.0,
            entry.1,
        ));
    } else {
        assert(entries.push(entry)[0] == entries[0]);
        assert(entries.push(entry).drop_first() =~= entries.drop_first().push(entry));
        lemma_apply_entries_push(
            store.insert(entries[0].0, entries[0].1),
            entries.drop_first(),
            entry,
        );
    }
}

/// What a flushed batch leaves under `key`: the batch's last pending value
/// for `key` if it has one, and otherwise whatever the store already held.
pub proof fn lemma_apply_entries_lookup(
    store: Map<Seq<u8>, Seq<u8>>,
    entries: Seq<(Seq<u8>, Seq<u8>)>,
    key: Seq<u8>,
)
    ensures
        match last_put(entries, key) {
            Some(v) => apply_entries(store, entries).contains_key(key) && apply_entries(
                store,
                entries,
            )[key] == v,
            None => apply_entries(store, entries).contains_key(key) == store.contains_key(key)
                && (store.contains_key(key) ==> apply_entries(store, entries)[key] == store[key]),
        },
    decreases entries.len(),
{
    if entries.len() > 0 {
        let front = entries.drop_last();
        let entry = entries.last();
        assert(front.push(entry) =~= entries);
        lemma_apply_entries_push(store, front, entry);
        lemma_apply_entries_lookup(store, front, key);
    }
}

/// Law: after `put(key, value)` closes a batch, flushing the batch stores
/// exactly `value` under `key`, whatever the store held before — a lookup
/// that follows the flush returns `value`.
pub proof fn lemma_write_then_read(
    store: Map<Seq<u8>, Seq<u8>>,
    entries: Seq<(Seq<u8>, Seq<u8>)>,
    key: Seq<u8>,
    value: Seq<u8>,
)
    ensures
        apply_entries(store, entries.push((key, value))).contains_key(key),
        apply_entries(store, entries.push((key, value)))[key] == value,
{
    lemma_apply_entries_push(store, entries, (key, value));
}

/// Law: when one batch puts `key` twice, the later value wins the flush.
pub proof fn lemma_last_write_wins(
    store: Map<Seq<u8>, Seq<u8>>,
    entries: Seq<(Seq<u8>, Seq<u8>)>,
    key: Seq<u8>,
    first: Seq<u8>,
    second: Seq<u8>,
)
    ensures
        apply_entries(store, entries.push((key, first)).push((key, second))).contains_key(key),
        apply_entries(store, entries.push((key, first)).push((key, second)))[key] == second,
{
    lemma_apply_entries_push(store, entries.push((key, first)), (key, second));
}

/// Stepping `last_put` over a prefix of the entries: the entry at `i`
/// either settles the lookup or leaves it to the entries before it.
pub proof fn lemma_last_put_take_step(entries: Seq<(Seq<u8>, Seq<u8>)>, key: Seq<u8>, i: int)
    requires
        0 <= i < entries.len(),
    ensures
        last_put(entries.take(i + 1), key) == (if entries[i].0 == key {
            Some(entries[i].1)
        } else {
            last_put(entries.take(i), key)
        }),
{
    assert(entries.take(i + 1).drop_last() =~= entries.take(i));
    assert(entries.take(i + 1).last() == entries[i]);
}

} // verus!
