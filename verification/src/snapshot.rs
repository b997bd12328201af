use vstd::prelude::*;

use crate::world::World;
use crate::world::WorldModel;

verus! {

/// A fixed-capacity ring of world snapshots indexed by frame number modulo
/// the capacity. Saving a frame evicts the snapshot that shared its slot, so
/// the store always holds the most recent save of each residue — for a caller
/// that saves every frame in order, the last `capacity` frames. Restoring a
/// frame that was never saved or has been evicted fails; the rollback engine
/// treats that as the fatal desync it is.
pub struct SnapshotStore {
    slots: Vec<Option<(u64, World)>>,
}

impl SnapshotStore {
    /// How many distinct frames the store can hold at once.
    pub closed spec fn capacity(self) -> int {
        self.slots@.len() as int
    }

    /// The ring slot a frame is kept in.
    pub open spec fn slot_of(self, frame: u64) -> int {
        frame as int % self.capacity()
    }

    /// Every occupied slot holds a frame that belongs there.
    pub closed spec fn wf(self) -> bool {
        &&& self.slots@.len() > 0
        &&& forall|i: int|
            0 <= i < self.slots@.len() ==> match #[trigger] self.slots@[i] {
                Some(p) => p.0 as int % self.slots@.len() as int == i,
                None => true,
            }
    }

    /// Whether the snapshot taken at `frame` is still in the store.
    pub closed spec fn has_frame(self, frame: u64) -> bool {
        &&& self.capacity() > 0
        &&& match self.slots@[self.slot_of(frame)] {
            Some(p) => p.0 == frame,
            None => false,
        }
    }

    /// The stored world for `frame`; meaningful only when `has_frame` holds.
    pub closed spec fn model_at(self, frame: u64) -> WorldModel {
        match self.slots@[self.slot_of(frame)] {
            Some(p) => p.1@,
            None => arbitrary(),
        }
    }

    /// An empty store for `capacity` frames of rollback window.
    pub fn new(capacity: usize) -> (r: SnapshotStore)
        requires
            capacity >= 1,
        ensures
            r.wf(),
            r.capacity() == capacity,
            forall|f: u64| !r.has_frame(f),
    {
        let mut slots: Vec<Option<(u64, World)>> = Vec::new();
        let mut i: usize = 0;
        while i < capacity
            invariant
                i <= capacity,
                slots@.len() == i,
                forall|k: int| 0 <= k < i ==> slots@[k] is None,
            decreases capacity - i,
        {
            slots.push(None);
            i += 1;
        }
        SnapshotStore { slots }
    }

    /// `save(world)`: copies the world into the slot for `frame`, evicting
    /// whatever frame shared that slot; every other stored frame survives
    /// unchanged.
    pub fn save(&mut self, frame: u64, w: &World)
        requires
            old(self).wf(),
        ensures
            final(self).wf(),
            final(self).capacity() == old(self).capacity(),
            final(self).has_frame(frame),
            final(self).model_at(frame) == w@,
            forall|g: u64|
                g != frame ==> (final(self).has_frame(g) <==> old(self).has_frame(g)
                    && old(self).slot_of(g) != old(self).slot_of(frame)),
            forall|g: u64|
                g != frame && final(self).has_frame(g) ==> final(self).model_at(g) == old(
                    self,
                ).model_at(g),
    {
        let capacity = self.slots.len();
        let index = (frame % (capacity as u64)) as usize;
        self.slots.set(index, Some((frame, w.duplicate())));
    }

    /// `restore(frame)`: a copy of the world saved at `frame`, or `None` when
    /// that snapshot was never taken or has been evicted — the rollback
    /// window was exceeded, which the caller must treat as fatal.
    pub fn restore(&self, frame: u64) -> (r: Option<World>)
        requires
            self.wf(),
        ensures
            r is Some <==> self.has_frame(frame),
            r is Some ==> r->Some_0@ == self.model_at(frame),
    {
        let capacity = self.slots.len();
        let index = (frame % (capacity as u64)) as usize;
        match &self.slots[index] {
            Some(pair) => {
                if pair.0 == frame {
                    Some(pair.1.duplicate())
                } else {
                    None
                }
            },
            None => None,
        }
    }
}

} // verus!
