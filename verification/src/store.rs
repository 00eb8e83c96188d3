//! Keyed storage of records: each address holds at most one record, created
//! once and never removed.

use vstd::prelude::*;
use crate::address::Address;
use crate::error::PlatformError;
use crate::states::{Record, RecordView};

verus! {

/// One occupied address: the space allocated to it and the record it holds.
pub struct Slot {
    pub address: Address,
    pub space: u64,
    pub record: Record,
}

/// What an occupied address holds.
pub struct SlotView {
    pub space: u64,
    pub record: RecordView,
}

/// The records of a deployment, each at its address.
pub struct Store {
    slots: Vec<Slot>,
}

impl Store {
    /// Some position at which the key is stored.
    spec fn index_of(&self, key: Seq<u8>) -> int {
        choose|i: int| 0 <= i < self.slots.len() && self.slots[i].address@ == key
    }

    /// No address is stored twice.
    pub closed spec fn wf(&self) -> bool {
        forall|i: int, j: int|
            0 <= i < j < self.slots.len() ==> self.slots[i].address@ != self.slots[j].address@
    }

    /// The store as a map from occupied addresses to what they hold.
    pub closed spec fn view(&self) -> Map<Seq<u8>, SlotView> {
        Map::new(
            |key: Seq<u8>|
                exists|i: int| 0 <= i < self.slots.len() && self.slots[i].address@ == key,
            |key: Seq<u8>|
                SlotView {
                    space: self.slots[self.index_of(key)].space,
                    record: self.slots[self.index_of(key)].record@,
                },
        )
    }

    /// In a well-formed store, the slot at a position is what the map holds
    /// at that slot's address.
    proof fn lemma_slot_at(&self, i: int)
        requires
            self.wf(),
            0 <= i < self.slots.len(),
        ensures
            self@.contains_key(self.slots[i].address@),
            self@[self.slots[i].address@] == (SlotView {
                space: self.slots[i].space,
                record: self.slots[i].record@,
            }),
            self.index_of(self.slots[i].address@) == i,
    {
        let key = self.slots[i].address@;
        let j = self.index_of(key);
        assert(0 <= j < self.slots.len() && self.slots[j].address@ == key);
        if j < i {
            assert(self.slots[j].address@ != self.slots[i].address@);
        } else if i < j {
            assert(self.slots[i].address@ != self.slots[j].address@);
        }
    }

    /// An empty store.
    pub fn new() -> (s: Store)
        ensures
            s.wf(),
            s@ == Map::<Seq<u8>, SlotView>::empty(),
    {
        let s = Store { slots: Vec::new() };
        assert(s@ =~= Map::<Seq<u8>, SlotView>::empty());
        s
    }

    /// The position of an address, if it is occupied.
    fn position(&self, address: &Address) -> (r: Option<usize>)
        requires
            self.wf(),
        ensures
            match r {
                Some(i) => i < self.slots.len() && self.slots[i as int].address@ == address@,
                None => !self@.contains_key(address@),
            },
    {
        let mut i: usize = 0;
        while i < self.slots.len()
            invariant
                i <= self.slots.len(),
                forall|j: int| 0 <= j < i ==> self.slots[j].address@ != address@,
            decreases self.slots.len() - i,
        {
            if self.slots[i].address.same(address) {
                return Some(i);
            }
            i += 1;
        }
        None
    }

    /// Whether a record is stored at the address.
    pub fn contains(&self, address: &Address) -> (r: bool)
        requires
            self.wf(),
        ensures
            r == self@.contains_key(address@),
    {
        match self.position(address) {
            Some(i) => {
                proof {
                    self.lemma_slot_at(i as int);
                }
                true
            },
            None => false,
        }
    }

    /// Stores a new record at a free address, with the space allocated to it.
    /// Fails with `AddressAlreadyInUse` where the address is occupied.
    pub fn create(&mut self, address: Address, record: Record, space: u64) -> (r: Result<
        (),
        PlatformError,
    >)
        requires
            old(self).wf(),
        ensures
            final(self).wf(),
            old(self)@.contains_key(address@) ==> r == Err::<(), _>(
                PlatformError::AddressAlreadyInUse,
            ) && final(self)@ == old(self)@,
            !old(self)@.contains_key(address@) ==> r == Ok::<_, PlatformError>(()) && final(self)@
                == old(self)@.insert(address@, SlotView { space, record: record@ }),
    {
        if self.contains(&address) {
            return Err(PlatformError::AddressAlreadyInUse);
        }
        let ghost before = *self;
        let ghost added = SlotView { space, record: record@ };
        self.slots.push(Slot { address, space, record });
        proof {
            let n = before.slots.len() as int;
            assert(self.wf()) by {
                assert forall|i: int, j: int|
                    0 <= i < j < self.slots.len() implies self.slots[i].address@
                    != self.slots[j].address@ by {
                    if j == n {
                        assert(before.slots[i].address@ != address@);
                    } else {
                        assert(before.slots[i].address@ != before.slots[j].address@);
                    }
                }
            }
            assert(self@ =~= before@.insert(address@, added)) by {
                assert forall|key: Seq<u8>| self@.contains_key(key) <==> before@.insert(
                    address@,
                    added,
                ).contains_key(key) by {
                    if before@.contains_key(key) {
                        let i = before.index_of(key);
                        assert(self.slots[i].address@ == key);
                    }
                    if key == address@ {
                        assert(self.slots[n].address@ == key);
                    }
                }
                assert forall|key: Seq<u8>| self@.contains_key(key) implies self@[key]
                    == before@.insert(address@, added)[key] by {
                    let i = self.index_of(key);
                    self.lemma_slot_at(i);
                    if i < n {
                        before.lemma_slot_at(i);
                    }
                }
            }
        }
        Ok(())
    }

    /// The space allocated at an address, if it is occupied.
    pub fn space(&self, address: &Address) -> (r: Option<u64>)
        requires
            self.wf(),
        ensures
            match r {
                Some(space) => self@.contains_key(address@) && space == self@[address@].space,
                None => !self@.contains_key(address@),
            },
    {
        match self.position(address) {
            Some(i) => {
                proof {
                    self.lemma_slot_at(i as int);
                }
                Some(self.slots[i].space)
            },
            None => None,
        }
    }

    /// The record stored at an address. Fails with `NotFound` where the
    /// address is free.
    pub fn load(&self, address: &Address) -> (r: Result<&Record, PlatformError>)
        requires
            self.wf(),
        ensures
            match r {
                Ok(record) => self@.contains_key(address@) && record@ == self@[address@].record,
                Err(e) => !self@.contains_key(address@) && e == PlatformError::NotFound,
            },
    {
        match self.position(address) {
            Some(i) => {
                proof {
                    self.lemma_slot_at(i as int);
                }
                Ok(&self.slots[i].record)
            },
            None => Err(PlatformError::NotFound),
        }
    }

    /// What the store holds once the record at one position has changed.
    proof fn lemma_record_set(before: Store, after: Store, i: int)
        requires
            before.wf(),
            0 <= i < before.slots.len(),
            after.slots.len() == before.slots.len(),
            forall|j: int|
                0 <= j < before.slots.len() ==> after.slots[j].address == before.slots[j].address,
            forall|j: int|
                0 <= j < before.slots.len() ==> after.slots[j].space == before.slots[j].space,
            forall|j: int|
                0 <= j < before.slots.len() && j != i ==> after.slots[j] == before.slots[j],
        ensures
            after.wf(),
            after@ == before@.insert(
                before.slots[i].address@,
                SlotView { space: before.slots[i].space, record: after.slots[i].record@ },
            ),
    {
        let key = before.slots[i].address@;
        let put = SlotView { space: before.slots[i].space, record: after.slots[i].record@ };
        assert(after.wf());
        assert(after@ =~= before@.insert(key, put)) by {
            assert forall|k: Seq<u8>|
                after@.contains_key(k) <==> before@.insert(key, put).contains_key(k) by {
                if before@.contains_key(k) {
                    let j = before.index_of(k);
                    assert(after.slots[j].address@ == k);
                }
                if after@.contains_key(k) {
                    let j = after.index_of(k);
                    assert(before.slots[j].address@ == k);
                }
                if k == key {
                    assert(after.slots[i].address@ == k);
                }
            }
            assert forall|k: Seq<u8>| after@.contains_key(k) implies after@[k] == before@.insert(
                key,
                put,
            )[k] by {
                let j = after.index_of(k);
                after.lemma_slot_at(j);
                before.lemma_slot_at(j);
            }
        }
    }

    /// The record stored at an address, to be changed in place; the space
    /// allocated stays. Fails with `NotFound` where the address is free.
    pub fn load_mut(&mut self, address: &Address) -> (r: Result<&mut Record, PlatformError>)
        requires
            old(self).wf(),
        ensures
            match r {
                Ok(record) => old(self)@.contains_key(address@) && (*record)@ == old(
                    self,
                )@[address@].record
                    && final(self).wf() && final(self)@ == old(self)@.insert(
                    address@,
                    SlotView { space: old(self)@[address@].space, record: (*final(record))@ },
                ),
                Err(e) => !old(self)@.contains_key(address@) && e == PlatformError::NotFound
                    && final(self).wf() && final(self)@ == old(self)@,
            },
    {
        match self.position(address) {
            Some(i) => {
                proof {
                    self.lemma_slot_at(i as int);
                }
                let ghost before = *self;
                let ghost after = *final(self);
                let record = &mut self.slots[i].record;
                proof {
                    Self::lemma_record_set(before, after, i as int);
                }
                Ok(record)
            },
            None => Err(PlatformError::NotFound),
        }
    }
}

} // verus!
