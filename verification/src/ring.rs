use vstd::prelude::*;
use crate::error::PacerError;

verus! {

/// The ring of recording slots: slot `i` owns the command pool `pools()[i]`
/// and the one primary command buffer `buffers()[i]` allocated from it, both
/// as raw handles. The ring is created once and never grows or shrinks.
pub struct FrameRing {
    pools: Vec<u64>,
    buffers: Vec<u64>,
}

impl FrameRing {
    /// The command pools, by slot.
    pub closed spec fn pools(&self) -> Seq<u64> {
        self.pools@
    }

    /// The command buffers, by slot.
    pub closed spec fn buffers(&self) -> Seq<u64> {
        self.buffers@
    }

    /// A ring has at least one slot, and a buffer for every pool.
    pub open spec fn wf(&self) -> bool {
        &&& self.pools().len() >= 1
        &&& self.buffers().len() == self.pools().len()
        &&& self.pools().len() <= usize::MAX
    }

    /// The slot that frame `frame_index` records into.
    pub open spec fn slot_of(slots: nat, frame_index: nat) -> int
        recommends
            slots >= 1,
    {
        (frame_index as int) % (slots as int)
    }

    /// Builds the ring of `slot_count` slots from the pools and buffers that
    /// were created for it. Fails if no slot is asked for, or if the pools or
    /// the buffers are not one per slot.
    pub fn new(slot_count: usize, pools: Vec<u64>, buffers: Vec<u64>) -> (r: Result<
        FrameRing,
        PacerError,
    >)
        ensures
            r is Ok <==> slot_count >= 1 && pools@.len() == slot_count && buffers@.len()
                == slot_count,
            r matches Ok(ring) ==> ring.wf() && ring.pools() == pools@ && ring.buffers()
                == buffers@,
            r matches Err(e) ==> e == PacerError::ResourceCreation,
    {
        if slot_count == 0 || pools.len() != slot_count || buffers.len() != slot_count {
            return Err(PacerError::ResourceCreation);
        }
        Ok(FrameRing { pools, buffers })
    }

    /// The number of slots.
    pub fn slot_count(&self) -> (n: usize)
        requires
            self.wf(),
        ensures
            n == self.pools().len(),
            n >= 1,
    {
        self.pools.len()
    }

    /// The slot that frame `frame_index` records into: the frame index modulo
    /// the number of slots.
    pub fn slot_for(&self, frame_index: u64) -> (slot: usize)
        requires
            self.wf(),
        ensures
            slot == Self::slot_of(self.pools().len(), frame_index as nat),
            slot < self.pools().len(),
    {
        let n: u64 = self.pools.len() as u64;
        (frame_index % n) as usize
    }

    /// The command pool of a slot.
    pub fn pool(&self, slot: usize) -> (h: u64)
        requires
            self.wf(),
            slot < self.pools().len(),
        ensures
            h == self.pools()[slot as int],
    {
        self.pools[slot]
    }

    /// The command buffer of a slot.
    pub fn recording_buffer(&self, slot: usize) -> (h: u64)
        requires
            self.wf(),
            slot < self.pools().len(),
        ensures
            h == self.buffers()[slot as int],
    {
        self.buffers[slot]
    }
}

} // verus!
