//! The grant table: one storage record per process, reached by identity.

use vstd::prelude::*;
use crate::driver::AppStorage;
use crate::driver::StorageModel;
use crate::error::GrantError;
use crate::process::ProcessId;

verus! {

/// What a grant table holds, as plain values.
pub struct GrantModel {
    /// One place per process of the process table: the process's record,
    /// or `None` while it has not been created.
    pub slots: Seq<Option<StorageModel>>,
    /// How many more records can be created.
    pub free: nat,
}

impl GrantModel {
    /// A table for `processes` processes with room for `capacity` records
    /// and no record yet.
    pub open spec fn empty(processes: nat, capacity: nat) -> GrantModel {
        GrantModel { slots: Seq::new(processes, |i: int| None), free: capacity }
    }

    /// Whether `pid` names a process of the table.
    pub open spec fn knows(self, pid: ProcessId) -> bool {
        pid.spec_index() < self.slots.len()
    }

    /// Whether the record of `pid` exists.
    pub open spec fn allocated(self, pid: ProcessId) -> bool {
        self.knows(pid) && self.slots[pid.spec_index() as int] is Some
    }

    /// The record of `pid`.
    pub open spec fn storage(self, pid: ProcessId) -> StorageModel
        recommends
            self.allocated(pid),
    {
        self.slots[pid.spec_index() as int]->Some_0
    }

    /// Why the record of `pid` cannot be entered, if it cannot: the
    /// identity is unknown, or the record is missing and no room is left.
    pub open spec fn entry_error(self, pid: ProcessId) -> Option<GrantError> {
        if !self.knows(pid) {
            Some(GrantError::NoSuchProcess)
        } else if !self.allocated(pid) && self.free == 0 {
            Some(GrantError::OutOfMemory)
        } else {
            None
        }
    }

    /// The table with `storage` as the record of `pid`.
    pub open spec fn with_storage(self, pid: ProcessId, storage: StorageModel) -> GrantModel
        recommends
            self.knows(pid),
    {
        GrantModel { slots: self.slots.update(pid.spec_index() as int, Some(storage)), ..self }
    }

    /// The table once the record of `pid` has been entered: a missing
    /// record has been created fresh, at the cost of one free place; where
    /// the record exists, or cannot be entered, nothing has changed.
    pub open spec fn entered(self, pid: ProcessId) -> GrantModel {
        if self.entry_error(pid) is None && !self.allocated(pid) {
            GrantModel {
                slots: self.slots.update(pid.spec_index() as int, Some(StorageModel::fresh())),
                free: (self.free - 1) as nat,
            }
        } else {
            self
        }
    }

    /// The table once the record of `pid` has been torn down: the place is
    /// empty and its room is free again.
    pub open spec fn reclaimed(self, pid: ProcessId) -> GrantModel {
        if self.allocated(pid) {
            GrantModel {
                slots: self.slots.update(pid.spec_index() as int, None),
                free: self.free + 1,
            }
        } else {
            self
        }
    }
}

/// The grant table. A record is created the first time it is entered and
/// belongs to one process; entering borrows the whole table exclusively,
/// so no record is ever entered twice at once.
pub struct Grant {
    slots: Vec<Option<AppStorage>>,
    free: usize,
}

impl View for Grant {
    type V = GrantModel;

    closed spec fn view(&self) -> GrantModel {
        GrantModel {
            slots: Seq::new(
                self.slots@.len(),
                |i: int|
                    match self.slots@[i] {
                        Some(storage) => Some(storage@),
                        None => None,
                    },
            ),
            free: self.free as nat,
        }
    }
}

/// The places of `slots` that hold a record.
spec fn occupied(slots: Seq<Option<AppStorage>>) -> Set<int> {
    Set::new(|i: int| 0 <= i < slots.len() && slots[i] is Some)
}

/// There are no more records than places.
proof fn occupied_is_bounded(slots: Seq<Option<AppStorage>>)
    ensures
        occupied(slots).finite(),
        occupied(slots).len() <= slots.len(),
{
    let all = vstd::set_lib::set_int_range(0, slots.len() as int);
    vstd::set_lib::lemma_int_range(0, slots.len() as int);
    assert(occupied(slots).subset_of(all));
    vstd::set_lib::lemma_len_subset(occupied(slots), all);
}

/// Writing one place changes the number of records by what that place
/// gains or loses, and by nothing else.
proof fn occupied_after_write(slots: Seq<Option<AppStorage>>, i: int, slot: Option<AppStorage>)
    requires
        0 <= i < slots.len(),
    ensures
        occupied(slots.update(i, slot)).len() + (if slots[i] is Some { 1int } else { 0int })
            == occupied(slots).len() + (if slot is Some { 1int } else { 0int }),
{
    occupied_is_bounded(slots);
    occupied_is_bounded(slots.update(i, slot));
    let without = occupied(slots).remove(i);
    assert(occupied(slots.update(i, slot)).remove(i) =~= without);
    if slots[i] is Some {
        assert(occupied(slots) =~= without.insert(i));
    } else {
        assert(occupied(slots) =~= without);
    }
    if slot is Some {
        assert(occupied(slots.update(i, slot)) =~= without.insert(i));
    } else {
        assert(occupied(slots.update(i, slot)) =~= without);
    }
}

impl Grant {
    /// The room that is free and the room that the records take never
    /// add up to more than can be counted.
    #[verifier::type_invariant]
    spec fn room_is_countable(self) -> bool {
        self.free + occupied(self.slots@).len() <= usize::MAX
    }

    /// A table for `processes` processes with room for `capacity` records,
    /// none of them created yet.
    pub fn new(processes: usize, capacity: usize) -> (grant: Grant)
        ensures
            grant@ == GrantModel::empty(processes as nat, capacity as nat),
    {
        let mut slots: Vec<Option<AppStorage>> = Vec::new();
        let mut i: usize = 0;
        while i < processes
            invariant
                i <= processes,
                slots@.len() == i,
                forall|j: int| 0 <= j < i ==> slots@[j] is None,
            decreases processes - i,
        {
            slots.push(None);
            i += 1;
        }
        proof {
            occupied_is_bounded(slots@);
            assert(occupied(slots@) =~= Set::<int>::empty());
        }
        let grant = Grant { slots, free: capacity };
        assert(grant@.slots =~= GrantModel::empty(processes as nat, capacity as nat).slots);
        grant
    }

    /// Enters the record of `pid`, creating it first if it is missing, and
    /// lends it out for changing. What is written through the loan is what
    /// the table holds for `pid` afterwards; no other record changes. On
    /// failure the table is as it was.
    pub fn enter(&mut self, pid: ProcessId) -> (res: Result<&mut AppStorage, GrantError>)
        ensures
            match res {
                Ok(storage) => {
                    &&& old(self)@.entry_error(pid) is None
                    &&& (*storage)@ == old(self)@.entered(pid).storage(pid)
                    &&& final(self)@.free == old(self)@.entered(pid).free
                    &&& final(self)@.slots =~= old(self)@.entered(pid).slots.update(
                        pid.spec_index() as int,
                        Some((*final(storage))@),
                    )
                },
                Err(err) => {
                    &&& old(self)@.entry_error(pid) == Some(err)
                    &&& final(self)@ == old(self)@
                },
            },
    {
        let i: usize = pid.index();
        if i >= self.slots.len() {
            return Err(GrantError::NoSuchProcess);
        }
        proof {
            use_type_invariant(&*self);
        }
        if self.slots[i].is_none() {
            if self.free == 0 {
                return Err(GrantError::OutOfMemory);
            }
            self.free = self.free - 1;
            proof {
                let vacant = self.slots@;
                assert forall|slot: Option<AppStorage>|
                    (#[trigger] occupied(vacant.update(i as int, slot))).len() <= occupied(
                        vacant,
                    ).len() + 1 by {
                    occupied_after_write(vacant, i as int, slot);
                }
            }
            self.slots[i] = Some(AppStorage::default());
        }
        assert(self@.slots =~= old(self)@.entered(pid).slots);
        proof {
            let taken = self.slots@;
            assert forall|slot: Option<AppStorage>|
                (#[trigger] occupied(taken.update(i as int, slot))).len() <= occupied(
                    taken,
                ).len() by {
                occupied_after_write(taken, i as int, slot);
            }
        }
        match &mut self.slots[i] {
            Some(storage) => Ok(storage),
            // Not reached: the place holds a record by now.
            None => Err(GrantError::AlreadyInUse),
        }
    }

    /// Tears down the record of `pid` and frees its room, as when the
    /// process ends or restarts: the next entry finds a fresh record.
    /// Without a record, or with an unknown identity, nothing changes.
    pub fn reclaim(&mut self, pid: ProcessId)
        ensures
            final(self)@ == old(self)@.reclaimed(pid),
    {
        let i: usize = pid.index();
        if i < self.slots.len() && self.slots[i].is_some() {
            proof {
                use_type_invariant(&*self);
                let taken = self.slots@;
                occupied_is_bounded(taken);
                assert forall|slot: Option<AppStorage>|
                    (#[trigger] occupied(taken.update(i as int, slot))).len() + 1 == occupied(
                        taken,
                    ).len() + (if slot is Some { 1int } else { 0int }) by {
                    occupied_after_write(taken, i as int, slot);
                }
            }
            self.slots[i] = None;
            self.free = self.free + 1;
            assert(self@.slots =~= old(self)@.reclaimed(pid).slots);
        }
    }
}

} // verus!
