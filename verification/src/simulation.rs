//! The monotone vehicle-id allocator.

use vstd::prelude::*;

verus! {

/// Simulation-wide bookkeeping: the next vehicle id to hand out.  Ids
/// are assigned in increasing order and never reused.
pub struct Simulation {
    pub next_vehicle_id: usize,
}

impl Simulation {
    /// A fresh allocator starting at id 0.
    pub fn new() -> (r: Self)
        ensures
            r.next_vehicle_id == 0,
    {
        Simulation { next_vehicle_id: 0 }
    }

    /// Hands out the next id and advances the counter.
    pub fn get_next_vehicle_id(&mut self) -> (r: usize)
        requires
            old(self).next_vehicle_id < usize::MAX,
        ensures
            r == old(self).next_vehicle_id,
            final(self).next_vehicle_id == old(self).next_vehicle_id + 1,
    {
        let id = self.next_vehicle_id;
        self.next_vehicle_id += 1;
        id
    }
}

} // verus!
