//! Ordered key-value lists: the mathematical model shared by envelope
//! metadata and by the field set of an event.
//!
//! A list holds each key at most once. Writing a key that is present replaces
//! its value where it stands; writing a new key appends it.

use vstd::prelude::*;

verus! {

/// One key with its value.
pub type Entry = (Seq<char>, Seq<char>);

/// Some entry of `entries` has the key `key`.
pub open spec fn has_key(entries: Seq<Entry>, key: Seq<char>) -> bool {
    exists|i: int| 0 <= i < entries.len() && (#[trigger] entries[i]).0 == key
}

/// No key occurs twice in `entries`.
pub open spec fn keys_distinct(entries: Seq<Entry>) -> bool {
    forall|i: int, j: int|
        0 <= i < j < entries.len() ==> (#[trigger] entries[i]).0 != (#[trigger] entries[j]).0
}

/// Where `key` stands in `entries`, if it is present.
pub open spec fn index_of(entries: Seq<Entry>, key: Seq<char>) -> int {
    choose|i: int| 0 <= i < entries.len() && (#[trigger] entries[i]).0 == key
}

/// The value written for `key`, if it is present.
pub open spec fn value_of(entries: Seq<Entry>, key: Seq<char>) -> Seq<char> {
    entries[index_of(entries, key)].1
}

/// `entries` after writing `value` for `key`: a present key keeps its place
/// and takes the new value, a new key goes to the end.
pub open spec fn upsert(entries: Seq<Entry>, key: Seq<char>, value: Seq<char>) -> Seq<Entry> {
    if has_key(entries, key) {
        entries.update(index_of(entries, key), (key, value))
    } else {
        entries.push((key, value))
    }
}

/// `entries` after writing each entry of `writes` in turn.
pub open spec fn upsert_all(entries: Seq<Entry>, writes: Seq<Entry>) -> Seq<Entry>
    decreases writes.len(),
{
    if writes.len() == 0 {
        entries
    } else {
        upsert(upsert_all(entries, writes.drop_last()), writes.last().0, writes.last().1)
    }
}

/// The mapping that `entries` stands for, order set aside.
pub open spec fn to_map(entries: Seq<Entry>) -> Map<Seq<char>, Seq<char>> {
    Map::new(|key: Seq<char>| has_key(entries, key), |key: Seq<char>| value_of(entries, key))
}

/// In a list without repeated keys, an entry is found again under its key.
pub proof fn lemma_index_of_unique(entries: Seq<Entry>, i: int)
    requires
        keys_distinct(entries),
        0 <= i < entries.len(),
    ensures
        has_key(entries, entries[i].0),
        index_of(entries, entries[i].0) == i,
        value_of(entries, entries[i].0) == entries[i].1,
{
    let key = entries[i].0;
    let j = index_of(entries, key);
    assert(0 <= j < entries.len() && entries[j].0 == key);
    if j < i {
        assert(entries[j].0 != entries[i].0);
    } else if i < j {
        assert(entries[i].0 != entries[j].0);
    }
}

/// Writing a key keeps the keys distinct, keeps every other key with its
/// value and its place, and grows the list by one exactly when the key is
/// new.
pub proof fn lemma_upsert(entries: Seq<Entry>, key: Seq<char>, value: Seq<char>)
    requires
        keys_distinct(entries),
    ensures
        keys_distinct(upsert(entries, key, value)),
        has_key(upsert(entries, key, value), key),
        value_of(upsert(entries, key, value), key) == value,
        forall|other: Seq<char>|
            other != key ==> has_key(upsert(entries, key, value), other) == has_key(entries, other),
        forall|other: Seq<char>|
            other != key && has_key(entries, other) ==> value_of(
                upsert(entries, key, value),
                other,
            ) == value_of(entries, other) && index_of(upsert(entries, key, value), other)
                == index_of(entries, other),
        upsert(entries, key, value).len() == if has_key(entries, key) {
            entries.len()
        } else {
            entries.len() + 1
        },
        index_of(upsert(entries, key, value), key) == if has_key(entries, key) {
            index_of(entries, key)
        } else {
            entries.len() as int
        },
        forall|other: Seq<char>|
            has_key(upsert(entries, key, value), other) ==> 0 <= index_of(
                upsert(entries, key, value),
                other,
            ) < upsert(entries, key, value).len(),
{
    let after = upsert(entries, key, value);
    let at = if has_key(entries, key) {
        index_of(entries, key)
    } else {
        entries.len() as int
    };
    assert(0 <= at < after.len() && after[at] == (key, value));
    assert forall|i: int| 0 <= i < after.len() && i != at implies after[i] == entries[i]
        && after[i].0 != key by {
        if has_key(entries, key) {
            if i < at {
                assert(entries[i].0 != entries[at].0);
            } else {
                assert(entries[at].0 != entries[i].0);
            }
        } else {
            if entries[i].0 == key {
                assert(has_key(entries, key));
            }
        }
    }
    assert forall|i: int, j: int| 0 <= i < j < after.len() implies (#[trigger] after[i]).0 != (
    #[trigger] after[j]).0 by {
        if i != at && j != at {
            assert(entries[i].0 != entries[j].0);
        }
    }
    lemma_index_of_unique(after, at);
    assert forall|other: Seq<char>| other != key implies has_key(after, other) == has_key(
        entries,
        other,
    ) by {
        if has_key(entries, other) {
            let i = index_of(entries, other);
            assert(after[i].0 == other);
        }
        if has_key(after, other) {
            let i = index_of(after, other);
            assert(entries[i].0 == other);
        }
    }
    assert forall|other: Seq<char>| other != key && has_key(entries, other) implies value_of(
        after,
        other,
    ) == value_of(entries, other) && index_of(after, other) == index_of(entries, other) by {
        let i = index_of(entries, other);
        assert(after[i] == entries[i]);
        lemma_index_of_unique(after, i);
    }
}

/// Last write wins: the mapping after writing `key` is the mapping before
/// with `key` set to `value`, whatever it held.
pub proof fn lemma_upsert_map(entries: Seq<Entry>, key: Seq<char>, value: Seq<char>)
    requires
        keys_distinct(entries),
    ensures
        to_map(upsert(entries, key, value)) == to_map(entries).insert(key, value),
{
    lemma_upsert(entries, key, value);
    let after = to_map(upsert(entries, key, value));
    let expected = to_map(entries).insert(key, value);
    assert forall|k: Seq<char>| after.dom().contains(k) == expected.dom().contains(k) by {}
    assert forall|k: Seq<char>| after.dom().contains(k) implies after[k] == expected[k] by {}
    assert(after =~= expected);
}

/// Writing any number of entries into a list without repeated keys leaves a
/// list without repeated keys.
pub proof fn lemma_upsert_all_distinct(entries: Seq<Entry>, writes: Seq<Entry>)
    requires
        keys_distinct(entries),
    ensures
        keys_distinct(upsert_all(entries, writes)),
    decreases writes.len(),
{
    if writes.len() > 0 {
        lemma_upsert_all_distinct(entries, writes.drop_last());
        lemma_upsert(upsert_all(entries, writes.drop_last()), writes.last().0, writes.last().1);
    }
}

/// Some write of `writes` has the key `key`.
pub open spec fn is_written(writes: Seq<Entry>, key: Seq<char>) -> bool {
    exists|i: int| 0 <= i < writes.len() && (#[trigger] writes[i]).0 == key
}

/// Write `i` is the first of `writes` with its key.
pub open spec fn is_first_write(writes: Seq<Entry>, i: int) -> bool {
    forall|j: int| 0 <= j < i ==> (#[trigger] writes[j]).0 != writes[i].0
}

/// Write `i` is the last of `writes` with its key.
pub open spec fn is_last_write(writes: Seq<Entry>, i: int) -> bool {
    forall|j: int| i < j < writes.len() ==> (#[trigger] writes[j]).0 != writes[i].0
}

/// The list built from nothing by `writes` holds exactly the keys that were
/// written.
pub proof fn lemma_written_keys(writes: Seq<Entry>, key: Seq<char>)
    ensures
        has_key(upsert_all(Seq::empty(), writes), key) == is_written(writes, key),
    decreases writes.len(),
{
    if writes.len() == 0 {
        assert(!has_key(Seq::<Entry>::empty(), key));
    } else {
        let earlier = writes.drop_last();
        let last = writes.last();
        lemma_written_keys(earlier, key);
        lemma_upsert_all_distinct(Seq::empty(), earlier);
        lemma_upsert(upsert_all(Seq::empty(), earlier), last.0, last.1);
        if is_written(writes, key) {
            let i = choose|i: int| 0 <= i < writes.len() && (#[trigger] writes[i]).0 == key;
            if i < writes.len() - 1 {
                assert(earlier[i].0 == key);
            }
        }
        if is_written(earlier, key) {
            let i = choose|i: int| 0 <= i < earlier.len() && (#[trigger] earlier[i]).0 == key;
            assert(writes[i].0 == key);
        }
        if last.0 == key {
            assert(writes[writes.len() - 1].0 == key);
        }
    }
}

/// Last write wins: the list built from nothing by `writes` holds, for each
/// key, the value of the last write with that key.
pub proof fn lemma_last_write_wins(writes: Seq<Entry>, i: int)
    requires
        0 <= i < writes.len(),
        is_last_write(writes, i),
    ensures
        has_key(upsert_all(Seq::empty(), writes), writes[i].0),
        value_of(upsert_all(Seq::empty(), writes), writes[i].0) == writes[i].1,
    decreases writes.len(),
{
    let earlier = writes.drop_last();
    let last = writes.last();
    lemma_upsert_all_distinct(Seq::empty(), earlier);
    lemma_upsert(upsert_all(Seq::empty(), earlier), last.0, last.1);
    if i < writes.len() - 1 {
        assert(writes[writes.len() - 1].0 != writes[i].0);
        assert forall|j: int| i < j < earlier.len() implies (#[trigger] earlier[j]).0
            != earlier[i].0 by {
            assert(writes[j].0 != writes[i].0);
        }
        lemma_last_write_wins(earlier, i);
    }
}

/// Order is visitation order: in the list built from nothing by `writes`,
/// keys stand in the order in which they were first written.
pub proof fn lemma_first_write_order(writes: Seq<Entry>, i: int, j: int)
    requires
        0 <= i < j < writes.len(),
        is_first_write(writes, i),
        is_first_write(writes, j),
    ensures
        has_key(upsert_all(Seq::empty(), writes), writes[i].0),
        has_key(upsert_all(Seq::empty(), writes), writes[j].0),
        index_of(upsert_all(Seq::empty(), writes), writes[i].0) < index_of(
            upsert_all(Seq::empty(), writes),
            writes[j].0,
        ),
    decreases writes.len(),
{
    let earlier = writes.drop_last();
    let last = writes.last();
    let before = upsert_all(Seq::empty(), earlier);
    lemma_upsert_all_distinct(Seq::empty(), earlier);
    lemma_upsert(before, last.0, last.1);
    lemma_written_keys(earlier, writes[i].0);
    lemma_written_keys(earlier, writes[j].0);
    assert(earlier[i].0 == writes[i].0);
    assert(writes[i].0 != writes[j].0);
    if j < writes.len() - 1 {
        assert(earlier[j].0 == writes[j].0);
        assert forall|k: int| 0 <= k < i implies (#[trigger] earlier[k]).0 != earlier[i].0 by {
            assert(writes[k].0 != writes[i].0);
        }
        assert forall|k: int| 0 <= k < j implies (#[trigger] earlier[k]).0 != earlier[j].0 by {
            assert(writes[k].0 != writes[j].0);
        }
        lemma_first_write_order(earlier, i, j);
    } else {
        if is_written(earlier, writes[j].0) {
            let k = choose|k: int| 0 <= k < earlier.len() && (#[trigger] earlier[k]).0 == writes[j].0;
            assert(writes[k].0 != writes[j].0);
        }
        assert(!has_key(before, last.0));
        assert(has_key(before, writes[i].0));
        let at = index_of(before, writes[i].0);
        assert(0 <= at < before.len());
    }
}

} // verus!
