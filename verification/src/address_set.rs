//! A set of addresses with constant-time membership tests.

use crate::primitives::Address;
use std::collections::HashMap;
use std::collections::HashSet;
use vstd::prelude::*;

verus! {

/// A set of addresses: the addresses for which a flag that defaults to false
/// has been raised.
///
/// Addresses are grouped by their high word, and within a group found by
/// their low word, so that every lookup is two hash probes.
pub struct AddressSet {
    groups: HashMap<u32, HashSet<u128>>,
}

impl View for AddressSet {
    type V = Set<Address>;

    closed spec fn view(&self) -> Set<Address> {
        Set::new(
            |a: Address|
                self.groups@.contains_key(a.high) && self.groups@[a.high]@.contains(a.low),
        )
    }
}

impl AddressSet {
    /// The empty set.
    pub fn new() -> (set: AddressSet)
        ensures
            set@ == Set::<Address>::empty(),
    {
        let set = AddressSet { groups: HashMap::new() };
        assert(set@ =~= Set::<Address>::empty());
        set
    }

    /// Whether `address` is in the set.
    pub fn contains(&self, address: Address) -> (found: bool)
        ensures
            found == self@.contains(address),
    {
        match self.groups.get(&address.high) {
            Some(group) => group.contains(&address.low),
            None => false,
        }
    }

    /// Puts `address` into the set; returns whether it was new.
    pub fn insert(&mut self, address: Address) -> (added: bool)
        ensures
            final(self)@ == old(self)@.insert(address),
            added == !old(self)@.contains(address),
    {
        let mut group = match self.groups.remove(&address.high) {
            Some(group) => group,
            None => HashSet::new(),
        };
        let added = group.insert(address.low);
        self.groups.insert(address.high, group);
        assert(self@ =~= old(self)@.insert(address));
        added
    }

    /// Takes `address` out of the set; returns whether it was there.
    pub fn remove(&mut self, address: Address) -> (removed: bool)
        ensures
            final(self)@ == old(self)@.remove(address),
            removed == old(self)@.contains(address),
    {
        let removed = match self.groups.remove(&address.high) {
            Some(mut group) => {
                let removed = group.remove(&address.low);
                if !group.is_empty() {
                    self.groups.insert(address.high, group);
                }
                removed
            },
            None => false,
        };
        assert forall|a: Address| self@.contains(a) == old(self)@.remove(address).contains(a) by {
            if a.high == address.high && old(self).groups@.contains_key(a.high) {
                let before = old(self).groups@[a.high]@;
                assert(before.remove(address.low).contains(a.low) == (before.contains(a.low)
                    && a.low != address.low));
            }
        }
        assert(self@ =~= old(self)@.remove(address));
        removed
    }
}

} // verus!
