//! A map from 16-bit keys.

use std::collections::HashMap;

use vstd::prelude::*;

verus! {

/// A map from 16-bit keys. A later value for a key replaces an earlier one.
pub struct Assoc<V> {
    entries: HashMap<u16, V>,
}

impl<V> View for Assoc<V> {
    type V = Map<u16, V>;

    closed spec fn view(&self) -> Map<u16, V> {
        self.entries@
    }
}

impl<V> Assoc<V> {
    pub fn new() -> (map: Assoc<V>)
        ensures
            map@ == Map::<u16, V>::empty(),
    {
        Assoc { entries: HashMap::new() }
    }

    pub fn insert(&mut self, key: u16, value: V)
        ensures
            final(self)@ == old(self)@.insert(key, value),
    {
        self.entries.insert(key, value);
    }

    pub fn get(&self, key: u16) -> (r: Option<&V>)
        ensures
            match r {
                Some(value) => self@.dom().contains(key) && self@[key] == *value,
                None => !self@.dom().contains(key),
            },
    {
        self.entries.get(&key)
    }
}

} // verus!
