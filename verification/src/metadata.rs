//! Envelope metadata: a mapping from text keys to text values.

use crate::entries::{
    has_key, index_of, keys_distinct, lemma_index_of_unique, lemma_upsert, lemma_upsert_map,
    to_map, upsert, Entry,
};
use crate::debug::{debug_string, entries_debug_text, entry_debug_text, map_debug_text};
use crate::json::json_object_text;
use crate::setting::{FieldSet, SerializeError};
use vstd::prelude::*;
use vstd::string::*;

verus! {

/// A mapping from keys to values that remembers the order in which its keys
/// were first written. No key is held twice.
pub struct Metadata {
    pairs: Vec<(String, String)>,
}

/// The entries that a list of owned pairs stands for.
spec fn entries_of(pairs: Seq<(String, String)>) -> Seq<Entry> {
    Seq::new(pairs.len(), |i: int| (pairs[i].0@, pairs[i].1@))
}

impl View for Metadata {
    type V = Map<Seq<char>, Seq<char>>;

    /// The mapping, order set aside.
    open spec fn view(&self) -> Map<Seq<char>, Seq<char>> {
        to_map(self.entries())
    }
}

impl Metadata {
    /// The entries in the order in which their keys were first written.
    pub closed spec fn entries(&self) -> Seq<Entry> {
        entries_of(self.pairs@)
    }

    /// What every value of this type satisfies: no key is held twice.
    #[verifier::type_invariant]
    pub open spec fn well_formed(&self) -> bool {
        keys_distinct(self.entries())
    }

    /// The empty mapping.
    pub fn new() -> (metadata: Metadata)
        ensures
            metadata.entries() == Seq::<Entry>::empty(),
            metadata@ == Map::<Seq<char>, Seq<char>>::empty(),
    {
        let metadata = Metadata { pairs: Vec::new() };
        assert(metadata.entries() =~= Seq::<Entry>::empty());
        assert(metadata@ =~= Map::<Seq<char>, Seq<char>>::empty());
        metadata
    }

    /// The number of keys.
    pub fn len(&self) -> (n: usize)
        ensures
            n == self.entries().len(),
    {
        self.pairs.len()
    }

    /// Whether no key is held.
    pub fn is_empty(&self) -> (empty: bool)
        ensures
            empty == (self.entries().len() == 0),
    {
        self.pairs.len() == 0
    }

    /// The key and the value of the entry at `index`, counted in first-write
    /// order, if there are that many entries.
    pub fn entry_at(&self, index: usize) -> (entry: Option<(&String, &String)>)
        ensures
            entry is Some == (index < self.entries().len()),
            entry matches Some((key, value)) ==> (key@, value@) == self.entries()[index as int],
    {
        if index < self.pairs.len() {
            Some((&self.pairs[index].0, &self.pairs[index].1))
        } else {
            None
        }
    }

    /// The value held for `key`, if any.
    pub fn get(&self, key: &str) -> (found: Option<&String>)
        ensures
            found is Some == self@.contains_key(key@),
            found matches Some(value) ==> value@ == self@[key@],
    {
        proof {
            use_type_invariant(self);
        }
        let wanted = key.to_owned();
        let n = self.pairs.len();
        let mut i: usize = 0;
        while i < n
            invariant
                i <= n,
                n == self.pairs@.len(),
                wanted@ == key@,
                keys_distinct(self.entries()),
                forall|j: int| 0 <= j < i ==> (#[trigger] self.entries()[j]).0 != key@,
            decreases n - i,
        {
            if self.pairs[i].0 == wanted {
                proof {
                    assert(self.entries()[i as int].0 == key@);
                    lemma_index_of_unique(self.entries(), i as int);
                }
                return Some(&self.pairs[i].1);
            }
            i += 1;
        }
        None
    }

    /// Writes `value` for `key`. A key that is present keeps its place and
    /// takes the new value; a new key is appended. Every other key keeps its
    /// value.
    pub fn insert(&mut self, key: &str, value: &str)
        ensures
            final(self).entries() == upsert(old(self).entries(), key@, value@),
            final(self)@ == old(self)@.insert(key@, value@),
    {
        proof {
            use_type_invariant(&*self);
        }
        let ghost before = self.entries();
        let new_key = key.to_owned();
        let new_value = value.to_owned();
        let mut pairs: Vec<(String, String)> = Vec::new();
        assert(entries_of(pairs@) =~= Seq::<Entry>::empty());
        core::mem::swap(&mut self.pairs, &mut pairs);
        let n = pairs.len();
        let mut at: usize = 0;
        while at < n && pairs[at].0 != new_key
            invariant
                at <= n,
                n == pairs@.len(),
                before == entries_of(pairs@),
                new_key@ == key@,
                forall|j: int| 0 <= j < at ==> (#[trigger] before[j]).0 != key@,
            decreases n - at,
        {
            at += 1;
        }
        proof {
            lemma_upsert(before, key@, value@);
            lemma_upsert_map(before, key@, value@);
        }
        if at < n {
            proof {
                assert(before[at as int].0 == key@);
                lemma_index_of_unique(before, at as int);
            }
            pairs.set(at, (new_key, new_value));
            assert(entries_of(pairs@) =~= before.update(at as int, (key@, value@)));
        } else {
            proof {
                if has_key(before, key@) {
                    let found = index_of(before, key@);
                    assert(before[found].0 == key@);
                }
            }
            pairs.push((new_key, new_value));
            assert(entries_of(pairs@) =~= before.push((key@, value@)));
        }
        core::mem::swap(&mut self.pairs, &mut pairs);
    }

    /// The metadata as an ordered JSON object with the same entries.
    pub fn to_field_set(&self) -> (set: FieldSet)
        ensures
            set.entries() == self.entries(),
    {
        proof {
            use_type_invariant(self);
        }
        let mut set = FieldSet::new();
        let n = self.pairs.len();
        let mut i: usize = 0;
        while i < n
            invariant
                i <= n,
                n == self.pairs@.len(),
                keys_distinct(self.entries()),
                set.entries() == self.entries().take(i as int),
            decreases n - i,
        {
            proof {
                let done = self.entries().take(i as int);
                let next = self.entries()[i as int];
                if has_key(done, next.0) {
                    let at = index_of(done, next.0);
                    assert(done[at] == self.entries()[at]);
                    assert(self.entries()[at].0 != self.entries()[i as int].0);
                }
                assert(done.push(next) =~= self.entries().take(i + 1));
            }
            set.record_str(self.pairs[i].0.as_str(), self.pairs[i].1.as_str());
            i += 1;
        }
        proof {
            assert(self.entries().take(n as int) =~= self.entries());
        }
        set
    }

    /// The compact JSON text of the metadata, as an object of strings in
    /// first-write order.
    pub fn to_json(&self) -> (r: Result<String, SerializeError>)
        ensures
            r is Ok,
            r matches Ok(text) ==> text@ == json_object_text(self.entries()),
    {
        self.to_field_set().to_json()
    }

    /// The debug rendering of the metadata, in the form of a mapping:
    /// `{"k1": "v1", "k2": "v2"}`, entries in first-write order.
    pub fn to_debug_string(&self) -> (text: String)
        ensures
            text@ == map_debug_text(self.entries()),
    {
        let ghost entries = self.entries();
        let mut text = String::from_str("{");
        let n = self.pairs.len();
        let mut i: usize = 0;
        while i < n
            invariant
                i <= n,
                n == self.pairs@.len(),
                entries == self.entries(),
                text@ == "{"@ + entries_debug_text(entries.take(i as int)),
            decreases n - i,
        {
            let ghost before = text@;
            if i > 0 {
                text.append(", ");
            }
            text.append(debug_string(self.pairs[i].0.as_str()).as_str());
            text.append(": ");
            text.append(debug_string(self.pairs[i].1.as_str()).as_str());
            proof {
                let done = entries.take(i as int);
                let next = entries.take(i + 1);
                assert(next.drop_last() =~= done);
                assert(next.last() == entries[i as int]);
                if i == 0 {
                    assert(done =~= Seq::<Entry>::empty());
                    assert(entries_debug_text(done) =~= Seq::<char>::empty());
                    assert(next[0] == entries[0]);
                    assert(text@ =~= "{"@ + entry_debug_text(entries[0]));
                } else {
                    assert(text@ =~= "{"@ + (entries_debug_text(done) + ", "@ + entry_debug_text(
                        entries[i as int],
                    )));
                }
            }
            i += 1;
        }
        proof {
            assert(entries.take(n as int) =~= entries);
        }
        text.append("}");
        text
    }
}

} // verus!
