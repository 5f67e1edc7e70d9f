//! Laws of the store's mapping, stated over the model the handler contracts
//! speak in: a `Map<Seq<char>, Seq<char>>` changed only by `insert`.

use vstd::prelude::*;

verus! {

/// The mapping after a sequence of writes, applied in order to an empty
/// store: each write associates its value with its key, replacing any prior
/// value for that key.
pub open spec fn contents_after(writes: Seq<(Seq<char>, Seq<char>)>) -> Map<
    Seq<char>,
    Seq<char>,
>
    decreases writes.len(),
{
    if writes.len() == 0 {
        Map::empty()
    } else {
        contents_after(writes.drop_last()).insert(writes.last().0, writes.last().1)
    }
}

/// One more write extends the history exactly as the write handler changes
/// the store: the new value stored under its key, everything else kept.
pub proof fn lemma_contents_after_write(
    writes: Seq<(Seq<char>, Seq<char>)>,
    k: Seq<char>,
    v: Seq<char>,
)
    ensures
        contents_after(writes.push((k, v))) == contents_after(writes).insert(k, v),
{
    assert(writes.push((k, v)).drop_last() =~= writes);
}

/// A write never removes a key: whatever the store held before, it still
/// holds after — the store only grows.
pub proof fn lemma_store_only_grows(m: Map<Seq<char>, Seq<char>>, k: Seq<char>, v: Seq<char>)
    ensures
        forall|k2: Seq<char>| m.contains_key(k2) ==> #[trigger] m.insert(
            k,
            v,
        ).contains_key(k2),
{
}

/// Storing a value and then fetching the same key yields exactly that value.
pub proof fn lemma_store_then_fetch(m: Map<Seq<char>, Seq<char>>, k: Seq<char>, v: Seq<char>)
    ensures
        m.insert(k, v).contains_key(k),
        m.insert(k, v)[k] == v,
{
}

/// Two stores to the same key in order: the later one wins entirely; nothing
/// of the earlier value remains.
pub proof fn lemma_last_write_wins(
    m: Map<Seq<char>, Seq<char>>,
    k: Seq<char>,
    v1: Seq<char>,
    v2: Seq<char>,
)
    ensures
        m.insert(k, v1).insert(k, v2)[k] == v2,
{
}

/// A key that no write in the history ever named is absent from the store,
/// so a fetch of it yields the not-found response, never a stored value.
pub proof fn lemma_never_written_absent(writes: Seq<(Seq<char>, Seq<char>)>, k: Seq<char>)
    requires
        forall|i: int| 0 <= i < writes.len() ==> (#[trigger] writes[i]).0 != k,
    ensures
        !contents_after(writes).contains_key(k),
    decreases writes.len(),
{
    if writes.len() > 0 {
        assert(writes[writes.len() - 1].0 != k);
        assert(forall|i: int|
            0 <= i < writes.drop_last().len() ==> (#[trigger] writes.drop_last()[i]).0 == writes[
                i
            ].0);
        lemma_never_written_absent(writes.drop_last(), k);
    }
}

/// A racing pair of stores to one key can land in either order, and in
/// either order the key afterwards holds one of the two written values in
/// full — never anything else, never a mixture.
pub proof fn lemma_racing_writes(
    m: Map<Seq<char>, Seq<char>>,
    k: Seq<char>,
    v1: Seq<char>,
    v2: Seq<char>,
)
    ensures
        m.insert(k, v1).insert(k, v2).contains_key(k),
        m.insert(k, v2).insert(k, v1).contains_key(k),
        m.insert(k, v1).insert(k, v2)[k] == v1 || m.insert(k, v1).insert(k, v2)[k] == v2,
        m.insert(k, v2).insert(k, v1)[k] == v1 || m.insert(k, v2).insert(k, v1)[k] == v2,
{
}

/// A store to one key neither adds, removes, nor changes what any other key
/// holds: requests for distinct keys do not disturb each other.
pub proof fn lemma_distinct_keys_independent(
    m: Map<Seq<char>, Seq<char>>,
    k1: Seq<char>,
    v1: Seq<char>,
    k2: Seq<char>,
)
    requires
        k1 != k2,
    ensures
        m.insert(k1, v1).contains_key(k2) == m.contains_key(k2),
        m.contains_key(k2) ==> m.insert(k1, v1)[k2] == m[k2],
{
}

} // verus!
