//! A table of amounts by key.

use crate::assoc::{
    assoc_map, lemma_assoc_map_absent, lemma_assoc_map_last, lemma_assoc_map_push,
    lemma_assoc_map_update,
};
use crate::primitives::{Balance, CurrencyId};
use vstd::prelude::*;

verus! {

/// The amount that `amounts` hold for `key`: zero where they hold none.
pub open spec fn amount_in<K>(amounts: Map<K, Balance>, key: K) -> Balance {
    if amounts.dom().contains(key) {
        amounts[key]
    } else {
        0
    }
}

/// What a table can be keyed by: a plain value that can be told from another.
pub trait Key: Sized {
    /// Whether the two are the same.
    fn same(&self, other: &Self) -> (r: bool)
        ensures
            r == (*self == *other),
    ;
}

impl Key for CurrencyId {
    fn same(&self, other: &Self) -> (r: bool) {
        *self == *other
    }
}

impl Key for (CurrencyId, u64) {
    fn same(&self, other: &Self) -> (r: bool) {
        self.0 == other.0 && self.1 == other.1
    }
}

/// An amount for each key for which one was set.
pub struct Amounts<K> {
    entries: Vec<(K, Balance)>,
}

impl<K: Key + Copy> Amounts<K> {
    /// The amounts that were set, by key.
    pub closed spec fn view(&self) -> Map<K, Balance> {
        assoc_map(Map::empty(), self.entries@)
    }

    /// The table in which no amount was set.
    pub fn new() -> (amounts: Self)
        ensures
            amounts@ == Map::<K, Balance>::empty(),
    {
        Amounts { entries: Vec::new() }
    }

    /// The amount set for `key`; zero where none was set.
    pub fn get(&self, key: K) -> (amount: Balance)
        ensures
            amount == amount_in(self@, key),
    {
        let mut i: usize = self.entries.len();
        while i > 0
            invariant
                i <= self.entries.len(),
                forall|j: int|
                    i <= j < self.entries.len() ==> (#[trigger] self.entries@[j]).0 != key,
            decreases i,
        {
            i = i - 1;
            if self.entries[i].0.same(&key) {
                proof {
                    lemma_assoc_map_last(self.entries@, i as int);
                }
                return self.entries[i].1;
            }
        }
        proof {
            lemma_assoc_map_absent(self.entries@, key);
        }
        0
    }

    /// Sets the amount for `key`.
    pub fn set(&mut self, key: K, amount: Balance)
        ensures
            final(self)@ == old(self)@.insert(key, amount),
    {
        let mut i: usize = self.entries.len();
        while i > 0
            invariant
                i <= self.entries.len(),
                self.entries@ == old(self).entries@,
                forall|j: int|
                    i <= j < self.entries.len() ==> (#[trigger] self.entries@[j]).0 != key,
            decreases i,
        {
            i = i - 1;
            if self.entries[i].0.same(&key) {
                proof {
                    lemma_assoc_map_update(self.entries@, i as int, amount);
                }
                self.entries.set(i, (key, amount));
                return ;
            }
        }
        proof {
            lemma_assoc_map_push(self.entries@, key, amount);
        }
        self.entries.push((key, amount));
    }

    /// A table with the same amounts.
    pub fn duplicate(&self) -> (copy: Self)
        ensures
            copy@ == self@,
    {
        let mut entries: Vec<(K, Balance)> = Vec::new();
        let mut i: usize = 0;
        while i < self.entries.len()
            invariant
                i <= self.entries.len(),
                entries@ == self.entries@.take(i as int),
            decreases self.entries.len() - i,
        {
            entries.push(self.entries[i]);
            assert(entries@ =~= self.entries@.take(i + 1));
            i = i + 1;
        }
        assert(self.entries@.take(i as int) =~= self.entries@);
        Amounts { entries }
    }
}

} // verus!
