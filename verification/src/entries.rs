//! The key-value map that ledger entries live in.
use crate::types::Address;
use vstd::prelude::*;

verus! {

/// A key whose equality can be tested.
pub trait EntryKey: Sized {
    /// Whether the two keys are the same.
    fn same(&self, other: &Self) -> (r: bool)
        ensures
            r == (*self == *other),
    ;
}

impl EntryKey for u32 {
    fn same(&self, other: &u32) -> (r: bool) {
        *self == *other
    }
}

impl EntryKey for (u32, u32) {
    fn same(&self, other: &(u32, u32)) -> (r: bool) {
        self.0 == other.0 && self.1 == other.1
    }
}

impl EntryKey for Address {
    fn same(&self, other: &Address) -> (r: bool) {
        *self == *other
    }
}

/// No key occurs twice.
pub open spec fn distinct_keys<K, V>(pairs: Seq<(K, V)>) -> bool {
    forall|i: int, j: int|
        0 <= i < pairs.len() && 0 <= j < pairs.len() && #[trigger] pairs[i].0 == #[trigger] pairs[j].0
            ==> i == j
}

/// The pairs hold an entry under the key at this position.
pub open spec fn holds_at<K, V>(pairs: Seq<(K, V)>, key: K, i: int) -> bool {
    0 <= i < pairs.len() && pairs[i].0 == key
}

/// The map that a list of pairs stands for.
pub open spec fn pairs_map<K, V>(pairs: Seq<(K, V)>) -> Map<K, V> {
    Map::new(
        |key: K| exists|i: int| holds_at(pairs, key, i),
        |key: K| pairs[choose|i: int| holds_at(pairs, key, i)].1,
    )
}

/// A finite map from keys to values. Its view is the map.
pub struct Entries<K, V> {
    pairs: Vec<(K, V)>,
}

impl<K, V> View for Entries<K, V> {
    type V = Map<K, V>;

    closed spec fn view(&self) -> Map<K, V> {
        pairs_map(self.pairs@)
    }
}

impl<K, V> Entries<K, V> {
    #[verifier::type_invariant]
    spec fn keys_are_distinct(self) -> bool {
        distinct_keys(self.pairs@)
    }
}

impl<K: EntryKey, V> Entries<K, V> {
    /// The empty map.
    pub fn new() -> (entries: Self)
        ensures
            entries@ == Map::<K, V>::empty(),
    {
        let entries = Entries { pairs: Vec::new() };
        assert(entries@ =~= Map::<K, V>::empty());
        entries
    }

    /// The position of the entry under `key`, or the number of entries.
    fn position(pairs: &Vec<(K, V)>, key: &K) -> (at: usize)
        ensures
            at <= pairs.len(),
            at < pairs.len() ==> holds_at(pairs@, *key, at as int),
            at == pairs.len() ==> forall|i: int| !holds_at(pairs@, *key, i),
    {
        let mut at: usize = 0;
        while at < pairs.len()
            invariant
                at <= pairs.len(),
                forall|i: int| 0 <= i < at ==> pairs@[i].0 != *key,
            decreases pairs.len() - at,
        {
            if pairs[at].0.same(key) {
                return at;
            }
            at = at + 1;
        }
        at
    }

    /// Whether there is an entry under `key`.
    pub fn has(&self, key: &K) -> (r: bool)
        ensures
            r == self@.contains_key(*key),
    {
        let at = Self::position(&self.pairs, key);
        at < self.pairs.len()
    }

    /// The value under `key`, if there is one.
    pub fn get(&self, key: &K) -> (value: Option<&V>)
        ensures
            value is Some <==> self@.contains_key(*key),
            value is Some ==> *value->0 == self@[*key],
    {
        proof {
            use_type_invariant(self);
        }
        let at = Self::position(&self.pairs, key);
        if at < self.pairs.len() {
            Some(&self.pairs[at].1)
        } else {
            None
        }
    }

    /// Puts `value` under `key`, in place of what was there.
    pub fn set(&mut self, key: K, value: V)
        ensures
            final(self)@ == old(self)@.insert(key, value),
    {
        proof {
            use_type_invariant(&*self);
        }
        let ghost before = self.pairs@;
        let mut pairs: Vec<(K, V)> = Vec::new();
        std::mem::swap(&mut pairs, &mut self.pairs);
        let at = Self::position(&pairs, &key);
        if at < pairs.len() {
            pairs.set(at, (key, value));
        } else {
            pairs.push((key, value));
        }
        proof {
            assert forall|i: int| 0 <= i < before.len() implies #[trigger] pairs@[i].0 == before[i].0 by {
            }
            assert forall|i: int| 0 <= i < before.len() && i != at implies #[trigger] before[i].0 != key by {
                assert(!holds_at(before, key, i) || holds_at(before, key, at as int));
            }
            assert(distinct_keys(pairs@));
            assert(holds_at(pairs@, key, at as int));
            assert forall|k: K| #[trigger] pairs_map(pairs@).contains_key(k)
                == pairs_map(before).insert(key, value).contains_key(k) by {
                if k != key {
                    if exists|i: int| holds_at(before, k, i) {
                        let i = choose|i: int| holds_at(before, k, i);
                        assert(holds_at(pairs@, k, i));
                    }
                    if exists|i: int| holds_at(pairs@, k, i) {
                        let i = choose|i: int| holds_at(pairs@, k, i);
                        assert(holds_at(before, k, i));
                    }
                }
            }
            assert forall|k: K| pairs_map(pairs@).contains_key(k) implies
                #[trigger] pairs_map(pairs@)[k] == pairs_map(before).insert(key, value)[k] by {
                let i = choose|i: int| holds_at(pairs@, k, i);
                if k != key {
                    assert(holds_at(before, k, i));
                    let j = choose|j: int| holds_at(before, k, j);
                    assert(i == j);
                }
            }
            assert(pairs_map(pairs@) =~= pairs_map(before).insert(key, value));
        }
        self.pairs = pairs;
    }
}

} // verus!
