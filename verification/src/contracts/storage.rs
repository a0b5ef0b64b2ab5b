//! The ledger entries that a call reads and writes.

use super::host::{Address, Bytes32, Symbol};
use vstd::prelude::*;

verus! {

/// A key under which a ledger entry is found.
pub trait StorageKey: Copy {
    /// Whether two keys are the same.
    fn same(&self, other: &Self) -> (b: bool)
        ensures
            b == (*self == *other),
    ;
}

impl StorageKey for u32 {
    fn same(&self, other: &Self) -> (b: bool) {
        *self == *other
    }
}

impl StorageKey for Bytes32 {
    fn same(&self, other: &Self) -> (b: bool) {
        *self == *other
    }
}

impl StorageKey for Address {
    fn same(&self, other: &Self) -> (b: bool) {
        *self == *other
    }
}

impl StorageKey for Symbol {
    fn same(&self, other: &Self) -> (b: bool) {
        *self == *other
    }
}

/// The map that a list of entries stands for: the first entry under a key counts.
pub open spec fn entries_map<K, V>(entries: Seq<(K, V)>) -> Map<K, V>
    decreases entries.len(),
{
    if entries.len() == 0 {
        Map::empty()
    } else {
        entries_map(entries.skip(1)).insert(entries[0].0, entries[0].1)
    }
}

/// Ledger entries of one kind: a finite map from keys to values.
pub struct Storage<K, V> {
    entries: Vec<(K, V)>,
}

impl<K, V> View for Storage<K, V> {
    type V = Map<K, V>;

    closed spec fn view(&self) -> Map<K, V> {
        entries_map(self.entries@)
    }
}

proof fn lemma_first_entry<K, V>(entries: Seq<(K, V)>, i: int)
    requires
        0 <= i < entries.len(),
        forall|j: int| 0 <= j < i ==> entries[j].0 != entries[i].0,
    ensures
        entries_map(entries).contains_key(entries[i].0),
        entries_map(entries)[entries[i].0] == entries[i].1,
    decreases entries.len(),
{
    if i > 0 {
        let rest = entries.skip(1);
        assert(rest[i - 1] == entries[i]);
        assert forall|j: int| 0 <= j < i - 1 implies (#[trigger] rest[j]).0 != rest[i - 1].0 by {
            assert(rest[j] == entries[j + 1]);
        }
        lemma_first_entry(rest, i - 1);
        assert(entries[0].0 != entries[i].0);
    }
}

proof fn lemma_absent<K, V>(entries: Seq<(K, V)>, key: K)
    requires
        forall|j: int| 0 <= j < entries.len() ==> entries[j].0 != key,
    ensures
        !entries_map(entries).contains_key(key),
    decreases entries.len(),
{
    if entries.len() > 0 {
        let rest = entries.skip(1);
        assert forall|j: int| 0 <= j < rest.len() implies rest[j].0 != key by {
            assert(rest[j] == entries[j + 1]);
        }
        lemma_absent(rest, key);
        assert(entries[0].0 != key);
    }
}

proof fn lemma_update<K, V>(entries: Seq<(K, V)>, i: int, value: V)
    requires
        0 <= i < entries.len(),
        forall|j: int| 0 <= j < i ==> entries[j].0 != entries[i].0,
    ensures
        entries_map(entries.update(i, (entries[i].0, value))) == entries_map(entries).insert(
            entries[i].0,
            value,
        ),
    decreases entries.len(),
{
    let key = entries[i].0;
    let rest = entries.skip(1);
    let after = entries.update(i, (key, value));
    if i == 0 {
        assert(after.skip(1) =~= rest);
        assert(entries_map(after) =~= entries_map(entries).insert(key, value));
    } else {
        assert(rest[i - 1] == entries[i]);
        assert forall|j: int| 0 <= j < i - 1 implies (#[trigger] rest[j]).0 != rest[i - 1].0 by {
            assert(rest[j] == entries[j + 1]);
        }
        lemma_update(rest, i - 1, value);
        assert(after.skip(1) =~= rest.update(i - 1, (key, value)));
        assert(entries[0].0 != key);
        assert(entries_map(after) =~= entries_map(entries).insert(key, value));
    }
}

proof fn lemma_push<K, V>(entries: Seq<(K, V)>, key: K, value: V)
    requires
        forall|j: int| 0 <= j < entries.len() ==> entries[j].0 != key,
    ensures
        entries_map(entries.push((key, value))) == entries_map(entries).insert(key, value),
    decreases entries.len(),
{
    let after = entries.push((key, value));
    if entries.len() == 0 {
        assert(after.skip(1) =~= Seq::<(K, V)>::empty());
        assert(entries_map(after.skip(1)) =~= Map::<K, V>::empty());
    } else {
        let rest = entries.skip(1);
        assert forall|j: int| 0 <= j < rest.len() implies rest[j].0 != key by {
            assert(rest[j] == entries[j + 1]);
        }
        lemma_push(rest, key, value);
        assert(after.skip(1) =~= rest.push((key, value)));
        assert(entries[0].0 != key);
        assert(entries_map(after) =~= entries_map(entries).insert(key, value));
    }
}

proof fn lemma_remove_one<K, V>(entries: Seq<(K, V)>, i: int)
    requires
        0 <= i < entries.len(),
    ensures
        entries_map(entries.remove(i)).remove(entries[i].0) == entries_map(entries).remove(
            entries[i].0,
        ),
    decreases entries.len(),
{
    let key = entries[i].0;
    let rest = entries.skip(1);
    let after = entries.remove(i);
    if i == 0 {
        assert(after =~= rest);
        assert(entries_map(after).remove(key) =~= entries_map(entries).remove(key));
    } else {
        assert(rest[i - 1] == entries[i]);
        lemma_remove_one(rest, i - 1);
        assert(after.skip(1) =~= rest.remove(i - 1));
        let head = entries[0];
        let inner = entries_map(rest);
        let inner_after = entries_map(rest.remove(i - 1));
        assert(after[0] == head);
        if head.0 == key {
            assert(inner.insert(head.0, head.1).remove(key) =~= inner.remove(key));
            assert(inner_after.insert(head.0, head.1).remove(key) =~= inner_after.remove(key));
        } else {
            assert(inner.insert(head.0, head.1).remove(key) =~= inner.remove(key).insert(
                head.0,
                head.1,
            ));
            assert(inner_after.insert(head.0, head.1).remove(key) =~= inner_after.remove(
                key,
            ).insert(head.0, head.1));
        }
    }
}

proof fn lemma_finite<K, V>(entries: Seq<(K, V)>)
    ensures
        entries_map(entries).dom().finite(),
    decreases entries.len(),
{
    if entries.len() > 0 {
        lemma_finite(entries.skip(1));
    }
}

impl<K: StorageKey, V> Storage<K, V> {
    /// Storage with no entries.
    pub fn new() -> (s: Self)
        ensures
            s@ == Map::<K, V>::empty(),
    {
        Storage { entries: Vec::new() }
    }

    /// Storage never holds infinitely many entries.
    pub proof fn lemma_finite(self)
        ensures
            self@.dom().finite(),
    {
        lemma_finite(self.entries@);
    }

    /// The place of the first entry under `key`.
    fn find(&self, key: K) -> (r: Option<usize>)
        ensures
            match r {
                Some(i) => {
                    &&& i < self.entries@.len()
                    &&& self.entries@[i as int].0 == key
                    &&& forall|j: int| 0 <= j < i ==> self.entries@[j].0 != key
                },
                None => forall|j: int| 0 <= j < self.entries@.len() ==> self.entries@[j].0 != key,
            },
    {
        let mut i: usize = 0;
        while i < self.entries.len()
            invariant
                i <= self.entries@.len(),
                forall|j: int| 0 <= j < i ==> self.entries@[j].0 != key,
            decreases self.entries@.len() - i,
        {
            if self.entries[i].0.same(&key) {
                return Some(i);
            }
            i = i + 1;
        }
        None
    }

    /// Whether there is an entry under `key`.
    pub fn has(&self, key: K) -> (b: bool)
        ensures
            b == self@.contains_key(key),
    {
        self.get(key).is_some()
    }

    /// The entry under `key`.
    pub fn get(&self, key: K) -> (r: Option<&V>)
        ensures
            match r {
                Some(v) => self@.contains_key(key) && *v == self@[key],
                None => !self@.contains_key(key),
            },
    {
        match self.find(key) {
            Some(i) => {
                proof {
                    lemma_first_entry(self.entries@, i as int);
                }
                Some(&self.entries[i].1)
            },
            None => {
                proof {
                    lemma_absent(self.entries@, key);
                }
                None
            },
        }
    }

    /// Writes the entry under `key`.
    pub fn set(&mut self, key: K, value: V)
        ensures
            final(self)@ == old(self)@.insert(key, value),
    {
        match self.find(key) {
            Some(i) => {
                proof {
                    lemma_update(self.entries@, i as int, value);
                }
                self.entries.set(i, (key, value));
            },
            None => {
                proof {
                    lemma_push(self.entries@, key, value);
                }
                self.entries.push((key, value));
            },
        }
    }

    /// Deletes the entry under `key`, if there is one.
    pub fn remove(&mut self, key: K)
        ensures
            final(self)@ == old(self)@.remove(key),
    {
        let mut found: Option<usize> = self.find(key);
        while found.is_some()
            invariant
                match found {
                    Some(i) => i < self.entries@.len() && self.entries@[i as int].0 == key,
                    None => forall|j: int|
                        0 <= j < self.entries@.len() ==> self.entries@[j].0 != key,
                },
                self@.remove(key) == old(self)@.remove(key),
            decreases self.entries@.len(),
        {
            if let Some(i) = found {
                proof {
                    lemma_remove_one(self.entries@, i as int);
                }
                self.entries.remove(i);
                found = self.find(key);
            }
        }
        proof {
            lemma_absent(self.entries@, key);
            assert(self@.remove(key) =~= self@);
        }
    }
}

} // verus!
