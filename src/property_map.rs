use crate::property_key::PnpDevicePropertyKey;
use crate::property_value::PnpDevicePropertyValue;
use vstd::prelude::*;

verus! {

/// Property values by key, each key at most once.
#[derive(Debug, PartialEq, Eq)]
pub struct PnpDevicePropertyMap {
    entries: Vec<(PnpDevicePropertyKey, PnpDevicePropertyValue)>,
}

/// Where `key` stands among `entries`, if it does.
pub open spec fn entries_position(
    entries: Seq<(PnpDevicePropertyKey, PnpDevicePropertyValue)>,
    key: PnpDevicePropertyKey,
) -> Option<int> {
    if exists|i: int| 0 <= i < entries.len() && (#[trigger] entries[i]).0 == key {
        Some(choose|i: int| 0 <= i < entries.len() && (#[trigger] entries[i]).0 == key)
    } else {
        None
    }
}

/// The entries after storing `value` under `key`: in place of an entry with
/// that key, or at the end.
pub open spec fn entries_insert(
    entries: Seq<(PnpDevicePropertyKey, PnpDevicePropertyValue)>,
    key: PnpDevicePropertyKey,
    value: PnpDevicePropertyValue,
) -> Seq<(PnpDevicePropertyKey, PnpDevicePropertyValue)> {
    match entries_position(entries, key) {
        Some(i) => entries.update(i, (key, value)),
        None => entries.push((key, value)),
    }
}

impl PnpDevicePropertyMap {
    /// The entries, in the order their keys were first inserted.
    pub closed spec fn spec_entries(&self) -> Seq<(PnpDevicePropertyKey, PnpDevicePropertyValue)> {
        self.entries@
    }

    pub open spec fn wf(&self) -> bool {
        forall|i: int, j: int|
            0 <= i < j < self.spec_entries().len() ==> (#[trigger] self.spec_entries()[i]).0
                != (#[trigger] self.spec_entries()[j]).0
    }

    pub open spec fn contains_key(&self, key: PnpDevicePropertyKey) -> bool {
        exists|i: int| 0 <= i < self.spec_entries().len() && (#[trigger] self.spec_entries()[i]).0 == key
    }

    pub fn new() -> (r: PnpDevicePropertyMap)
        ensures
            r.spec_entries() == Seq::<(PnpDevicePropertyKey, PnpDevicePropertyValue)>::empty(),
            r.wf(),
    {
        PnpDevicePropertyMap { entries: Vec::new() }
    }

    pub fn len(&self) -> (r: usize)
        ensures
            r == self.spec_entries().len(),
    {
        self.entries.len()
    }

    /// The entries, in the order their keys were first inserted.
    pub fn entries(&self) -> (r: &Vec<(PnpDevicePropertyKey, PnpDevicePropertyValue)>)
        ensures
            r@ == self.spec_entries(),
    {
        &self.entries
    }

    fn position(&self, key: &PnpDevicePropertyKey) -> (r: Option<usize>)
        ensures
            match r {
                Some(i) => i < self.spec_entries().len() && self.spec_entries()[i as int].0 == *key,
                None => !self.contains_key(*key),
            },
    {
        let mut i: usize = 0;
        while i < self.entries.len()
            invariant
                i <= self.entries@.len(),
                forall|j: int| 0 <= j < i ==> (#[trigger] self.entries@[j]).0 != *key,
            decreases self.entries@.len() - i,
        {
            if self.entries[i].0 == *key {
                return Some(i);
            }
            i = i + 1;
        }
        None
    }

    /// The value stored under `key`, if any.
    pub fn get(&self, key: &PnpDevicePropertyKey) -> (r: Option<&PnpDevicePropertyValue>)
        ensures
            match r {
                Some(v) => exists|i: int|
                    0 <= i < self.spec_entries().len() && #[trigger] self.spec_entries()[i] == (*key, *v),
                None => !self.contains_key(*key),
            },
    {
        match self.position(key) {
            Some(i) => {
                assert(self.spec_entries()[i as int] == (*key, self.entries@[i as int].1));
                Some(&self.entries[i].1)
            },
            None => None,
        }
    }

    /// Stores `value` under `key`, replacing the value stored there before.
    pub fn insert(&mut self, key: PnpDevicePropertyKey, value: PnpDevicePropertyValue)
        requires
            old(self).wf(),
        ensures
            final(self).wf(),
            final(self).spec_entries() == entries_insert(old(self).spec_entries(), key, value),
    {
        match self.position(&key) {
            Some(i) => {
                proof {
                    assert(old(self).position_of(key) == Some(i as int)) by {
                        old(self).lemma_position_unique(key, i as int);
                    }
                }
                self.entries.set(i, (key, value));
                assert(forall|k: int|
                    0 <= k < self.entries@.len() ==> (#[trigger] self.entries@[k]).0
                        == old(self).spec_entries()[k].0);
            },
            None => {
                self.entries.push((key, value));
                assert(forall|k: int|
                    0 <= k < old(self).spec_entries().len() ==> (#[trigger] self.entries@[k]).0
                        == old(self).spec_entries()[k].0 && self.entries@[k].0 != key);
            },
        }
    }

    /// Where `key` is stored, if it is.
    pub open spec fn position_of(&self, key: PnpDevicePropertyKey) -> Option<int> {
        entries_position(self.spec_entries(), key)
    }

    proof fn lemma_position_unique(&self, key: PnpDevicePropertyKey, i: int)
        requires
            self.wf(),
            0 <= i < self.spec_entries().len(),
            self.spec_entries()[i].0 == key,
        ensures
            self.position_of(key) == Some(i),
    {
        let j = choose|j: int| 0 <= j < self.spec_entries().len() && (#[trigger] self.spec_entries()[j]).0 == key;
        if j < i {
            assert(self.spec_entries()[j].0 != self.spec_entries()[i].0);
        } else if i < j {
            assert(self.spec_entries()[i].0 != self.spec_entries()[j].0);
        }
    }
}

} // verus!
