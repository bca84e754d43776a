use vstd::prelude::*;

use crate::item::{Item, ItemModel};

verus! {

/// The answer a point lookup owes: the mapped value where the key is
/// present, absence otherwise. Absence is a normal result, not an error.
pub open spec fn lookup(m: Map<Seq<char>, Seq<char>>, key: Seq<char>) -> Option<Seq<char>> {
    if m.contains_key(key) {
        Some(m[key])
    } else {
        None
    }
}

/// The value carried by an optional record, for stating what a point
/// lookup returned.
pub open spec fn found_value(found: Option<Item>) -> Option<Seq<char>> {
    match found {
        Some(it) => Some(it@.value),
        None => None,
    }
}

/// The store after a sequence of puts, applied in order: each put inserts
/// or overwrites its key (upsert).
pub open spec fn apply_puts(
    m: Map<Seq<char>, Seq<char>>,
    puts: Seq<ItemModel>,
) -> Map<Seq<char>, Seq<char>>
    decreases puts.len(),
{
    if puts.len() == 0 {
        m
    } else {
        apply_puts(m, puts.drop_last()).insert(puts.last().key, puts.last().value)
    }
}

/// No two of the puts touch the same key.
pub open spec fn distinct_keys(puts: Seq<ItemModel>) -> bool {
    forall|i: int, j: int|
        0 <= i < j < puts.len() ==> (#[trigger] puts[i]).key != (#[trigger] puts[j]).key
}

/// A full scan matches a store exactly when every record carries a present
/// key with its mapped value, no key appears twice, and every present key
/// appears. Nothing is said of the order of the records.
pub open spec fn records_match_map(records: Seq<Item>, m: Map<Seq<char>, Seq<char>>) -> bool {
    &&& forall|i: int|
        0 <= i < records.len() ==> m.contains_key((#[trigger] records[i])@.key)
            && m[records[i]@.key] == records[i]@.value
    &&& forall|i: int, j: int|
        0 <= i < j < records.len() ==> (#[trigger] records[i])@.key != (
        #[trigger] records[j])@.key
    &&& forall|k: Seq<char>|
        #[trigger] m.contains_key(k) ==> exists|i: int|
            0 <= i < records.len() && (#[trigger] records[i])@.key == k
}

/// A key that none of the puts touches keeps the answer it had before.
pub proof fn lemma_puts_leave_other_keys(
    m: Map<Seq<char>, Seq<char>>,
    puts: Seq<ItemModel>,
    key: Seq<char>,
)
    requires
        forall|i: int| 0 <= i < puts.len() ==> (#[trigger] puts[i]).key != key,
    ensures
        lookup(apply_puts(m, puts), key) == lookup(m, key),
    decreases puts.len(),
{
    if puts.len() > 0 {
        lemma_puts_leave_other_keys(m, puts.drop_last(), key);
    }
}

/// The last put of a key decides what a lookup of that key returns
/// afterward, whatever the store held before and whatever other keys were
/// put in between.
pub proof fn lemma_last_put_wins(m: Map<Seq<char>, Seq<char>>, puts: Seq<ItemModel>, i: int)
    requires
        0 <= i < puts.len(),
        forall|j: int| i < j < puts.len() ==> (#[trigger] puts[j]).key != puts[i].key,
    ensures
        lookup(apply_puts(m, puts), puts[i].key) == Some(puts[i].value),
    decreases puts.len(),
{
    if i < puts.len() - 1 {
        lemma_last_put_wins(m, puts.drop_last(), i);
    }
}

/// Overwrite semantics: putting a key twice leaves the second value, not a
/// duplicate, so a point lookup afterward returns the second value.
pub proof fn lemma_put_overwrites(
    m: Map<Seq<char>, Seq<char>>,
    key: Seq<char>,
    v1: Seq<char>,
    v2: Seq<char>,
)
    ensures
        lookup(
            apply_puts(
                m,
                seq![(ItemModel { key: key, value: v1 }), (ItemModel { key: key, value: v2 })],
            ),
            key,
        ) == Some(v2),
{
    let puts = seq![(ItemModel { key: key, value: v1 }), (ItemModel { key: key, value: v2 })];
    lemma_last_put_wins(m, puts, 1);
}

/// A key never written stays absent: starting from a store without the key,
/// a lookup after any sequence of puts of other keys answers none.
pub proof fn lemma_never_written_is_absent(
    m: Map<Seq<char>, Seq<char>>,
    puts: Seq<ItemModel>,
    key: Seq<char>,
)
    requires
        !m.contains_key(key),
        forall|i: int| 0 <= i < puts.len() ==> (#[trigger] puts[i]).key != key,
    ensures
        lookup(apply_puts(m, puts), key) is None,
{
    lemma_puts_leave_other_keys(m, puts, key);
}

/// After puts of pairwise distinct keys, a full scan that matches the
/// resulting store holds exactly one record for each put key, carrying the
/// value that was put.
pub proof fn lemma_scan_after_distinct_puts(
    m: Map<Seq<char>, Seq<char>>,
    puts: Seq<ItemModel>,
    records: Seq<Item>,
    i: int,
)
    requires
        distinct_keys(puts),
        records_match_map(records, apply_puts(m, puts)),
        0 <= i < puts.len(),
    ensures
        exists|j: int|
            0 <= j < records.len() && (#[trigger] records[j])@.key == puts[i].key
                && records[j]@.value == puts[i].value,
        forall|j1: int, j2: int|
            0 <= j1 < records.len() && 0 <= j2 < records.len() && (#[trigger] records[j1])@.key
                == puts[i].key && (#[trigger] records[j2])@.key == puts[i].key ==> j1 == j2,
{
    let stored = apply_puts(m, puts);
    lemma_last_put_wins(m, puts, i);
    assert(stored.contains_key(puts[i].key) && stored[puts[i].key] == puts[i].value);
    let j = choose|j: int| 0 <= j < records.len() && (#[trigger] records[j])@.key == puts[i].key;
    assert(records[j]@.value == puts[i].value);
}

} // verus!
