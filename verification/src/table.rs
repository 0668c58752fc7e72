//! A small map kept in the order of insertion. The channel registry, the
//! allow list and the balance ledger are all built on it.
use vstd::prelude::*;
use vstd::string::*;

verus! {

broadcast use vstd::string::group_string_axioms;

/// What can be the key of a table: a value with a mathematical view and a
/// test that tells whether two keys have the same view.
pub trait TableKey: View + Sized {
    /// Tests whether two keys stand for the same value.
    fn same(&self, other: &Self) -> (yes: bool)
        ensures
            yes == (self@ == other@),
    ;
}

impl TableKey for String {
    fn same(&self, other: &Self) -> (yes: bool) {
        *self == *other
    }
}

impl TableKey for (String, String) {
    fn same(&self, other: &Self) -> (yes: bool) {
        self.0 == other.0 && self.1 == other.1
    }
}

/// `keys` with `key` at its end, unless it is there already.
pub open spec fn with_key<T>(keys: Seq<T>, key: T) -> Seq<T> {
    if keys.contains(key) {
        keys
    } else {
        keys.push(key)
    }
}

#[derive(Debug)]
struct Slot<K, V> {
    key: K,
    value: V,
}

spec fn distinct_keys<K: View, V>(slots: Seq<Slot<K, V>>) -> bool {
    forall|i: int, j: int| 0 <= i < j < slots.len() ==> #[trigger] slots[i].key@ != #[trigger] slots[j].key@
}

spec fn has_key<K: View, V>(slots: Seq<Slot<K, V>>, key: K::V) -> bool {
    exists|i: int| 0 <= i < slots.len() && #[trigger] slots[i].key@ == key
}

spec fn index_of_key<K: View, V>(slots: Seq<Slot<K, V>>, key: K::V) -> int {
    choose|i: int| 0 <= i < slots.len() && #[trigger] slots[i].key@ == key
}

spec fn map_of<K: View, V: View>(slots: Seq<Slot<K, V>>) -> Map<K::V, V::V> {
    Map::new(
        |key: K::V| has_key(slots, key),
        |key: K::V| slots[index_of_key(slots, key)].value@,
    )
}

spec fn keys_of<K: View, V>(slots: Seq<Slot<K, V>>) -> Seq<K::V> {
    Seq::new(slots.len(), |i: int| slots[i].key@)
}

proof fn lemma_map_of_at<K: View, V: View>(slots: Seq<Slot<K, V>>, i: int)
    requires
        distinct_keys(slots),
        0 <= i < slots.len(),
    ensures
        map_of(slots).contains_key(slots[i].key@),
        map_of(slots)[slots[i].key@] == slots[i].value@,
{
    let key = slots[i].key@;
    assert(has_key(slots, key));
    let k = index_of_key(slots, key);
    assert(slots[k].key@ == key);
}

proof fn lemma_keys_of<K: View, V: View>(slots: Seq<Slot<K, V>>)
    requires
        distinct_keys(slots),
    ensures
        keys_of(slots).no_duplicates(),
        forall|key: K::V| keys_of(slots).contains(key) <==> map_of(slots).contains_key(key),
{
    let keys = keys_of(slots);
    assert forall|key: K::V| keys.contains(key) <==> map_of(slots).contains_key(key) by {
        if keys.contains(key) {
            let i = choose|i: int| 0 <= i < keys.len() && keys[i] == key;
            assert(slots[i].key@ == key);
        }
        if map_of(slots).contains_key(key) {
            let i = index_of_key(slots, key);
            assert(keys[i] == key);
        }
    }
}

/// A map from keys to values that remembers the order in which its keys
/// came.
#[derive(Debug)]
pub struct Table<K: View, V> {
    slots: Vec<Slot<K, V>>,
}

impl<K: View, V: View> View for Table<K, V> {
    type V = Map<K::V, V::V>;

    closed spec fn view(&self) -> Map<K::V, V::V> {
        map_of(self.slots@)
    }
}

impl<K: View, V> Table<K, V> {
    #[verifier::type_invariant]
    spec fn well_formed(self) -> bool {
        distinct_keys(self.slots@)
    }
}

impl<K: TableKey, V: View> Table<K, V> {
    /// The keys in the order in which they were first inserted.
    pub closed spec fn keys(&self) -> Seq<K::V> {
        keys_of(self.slots@)
    }

    /// A table without entries.
    pub fn new() -> (table: Self)
        ensures
            table@ == Map::<K::V, V::V>::empty(),
            table.keys() == Seq::<K::V>::empty(),
    {
        let table = Table { slots: Vec::new() };
        assert(table@ =~= Map::<K::V, V::V>::empty());
        assert(table.keys() =~= Seq::<K::V>::empty());
        table
    }

    fn find(&self, key: &K) -> (found: Option<usize>)
        ensures
            match found {
                Some(i) => i < self.slots@.len() && self.slots@[i as int].key@ == key@,
                None => !has_key(self.slots@, key@),
            },
    {
        let mut i: usize = 0;
        while i < self.slots.len()
            invariant
                i <= self.slots@.len(),
                forall|k: int| 0 <= k < i ==> #[trigger] self.slots@[k].key@ != key@,
            decreases self.slots@.len() - i,
        {
            if self.slots[i].key.same(key) {
                return Some(i);
            }
            i = i + 1;
        }
        None
    }

    /// The value under `key`, if there is one. There is one exactly for the
    /// keys that stand in the order.
    pub fn get(&self, key: &K) -> (value: Option<&V>)
        ensures
            match value {
                Some(v) => self@.contains_key(key@) && v@ == self@[key@],
                None => !self@.contains_key(key@),
            },
            self.keys().contains(key@) <==> self@.contains_key(key@),
    {
        proof {
            use_type_invariant(self);
            lemma_keys_of(self.slots@);
        }
        match self.find(key) {
            Some(i) => {
                proof {
                    lemma_map_of_at(self.slots@, i as int);
                }
                Some(&self.slots[i].value)
            },
            None => None,
        }
    }

    /// Puts `value` under `key`, in place of any value there. A key that is
    /// new comes last in the order; one that was there keeps its place.
    pub fn insert(&mut self, key: K, value: V)
        ensures
            final(self)@ == old(self)@.insert(key@, value@),
            final(self).keys() == with_key(old(self).keys(), key@),
    {
        proof {
            use_type_invariant(&*self);
        }
        let ghost before = self.slots@;
        let ghost new_key = key@;
        let ghost new_value = value@;
        let found = self.find(&key);
        let slot = Slot { key, value };
        let mut slots: Vec<Slot<K, V>> = Vec::new();
        core::mem::swap(&mut self.slots, &mut slots);
        match found {
            Some(i) => {
                slots.set(i, slot);
            },
            None => {
                slots.push(slot);
            },
        }
        proof {
            let after = slots@;
            let n = before.len() as int;
            assert forall|k: int| 0 <= k < n implies #[trigger] after[k].key@ == before[k].key@ by {}
            assert(distinct_keys(after)) by {
                assert forall|a: int, b: int| 0 <= a < b < after.len() implies #[trigger] after[a].key@
                    != #[trigger] after[b].key@ by {
                    if b < n {
                        assert(before[a].key@ != before[b].key@);
                    } else {
                        assert(before[a].key@ != new_key);
                    }
                }
            }
            assert forall|q: K::V| has_key(after, q) <==> (q == new_key || has_key(before, q)) by {
                if has_key(after, q) {
                    let k = index_of_key(after, q);
                    if k < n {
                        assert(before[k].key@ == q);
                    }
                }
                if has_key(before, q) {
                    let k = index_of_key(before, q);
                    assert(after[k].key@ == q);
                }
                if q == new_key {
                    match found {
                        Some(i) => {
                            assert(after[i as int].key@ == q);
                        },
                        None => {
                            assert(after[n].key@ == q);
                        },
                    }
                }
            }
            assert forall|q: K::V| has_key(after, q) implies map_of(after)[q] == map_of(
                before,
            ).insert(new_key, new_value)[q] by {
                let k = index_of_key(after, q);
                lemma_map_of_at(after, k);
                if k < n {
                    lemma_map_of_at(before, k);
                }
            }
            assert(map_of(after) =~= map_of(before).insert(new_key, new_value));
            assert(keys_of(after) =~= with_key(keys_of(before), new_key)) by {
                match found {
                    Some(i) => {
                        assert(keys_of(before)[i as int] == new_key);
                    },
                    None => {
                        if keys_of(before).contains(new_key) {
                            let k = choose|k: int|
                                0 <= k < keys_of(before).len() && keys_of(before)[k] == new_key;
                            assert(before[k].key@ == new_key);
                        }
                    },
                }
            }
        }
        self.slots = slots;
    }

    /// The number of entries. The keys under which they stand are those of
    /// the map, each once.
    pub fn len(&self) -> (n: usize)
        ensures
            n == self.keys().len(),
            self.keys().no_duplicates(),
            forall|key: K::V| self.keys().contains(key) <==> self@.contains_key(key),
    {
        proof {
            use_type_invariant(self);
            lemma_keys_of(self.slots@);
        }
        self.slots.len()
    }

    /// The key and the value of the entry at position `i`.
    pub fn entry(&self, i: usize) -> (entry: (&K, &V))
        requires
            i < self.keys().len(),
        ensures
            entry.0@ == self.keys()[i as int],
            self@.contains_key(self.keys()[i as int]),
            entry.1@ == self@[self.keys()[i as int]],
    {
        proof {
            use_type_invariant(self);
            lemma_map_of_at(self.slots@, i as int);
        }
        (&self.slots[i].key, &self.slots[i].value)
    }
}

} // verus!
