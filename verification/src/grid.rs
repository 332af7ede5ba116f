//! The global clock: current tick id and its slot window.

use vstd::prelude::*;
use crate::consts::TICK_DURATION_SLOTS;

verus! {

/// Singleton tick clock. Created once at initialization and mutated only by
/// `tick::advance_tick`.
#[derive(Clone, Copy, Debug, PartialEq, Eq, Structural)]
pub struct Grid {
    /// The current tick number.
    pub tick_id: u64,
    /// The slot at which the current round starts mining.
    pub start_slot: u64,
    /// The slot at which the current round ends mining.
    pub end_slot: u64,
    /// The current epoch id.
    pub epoch_id: u64,
}

impl Grid {
    /// The freshly initialized clock: tick zero, mining from the next slot.
    pub fn new(now_slot: u64) -> (g: Grid)
        requires
            now_slot + 1 + TICK_DURATION_SLOTS <= u64::MAX,
        ensures
            g.tick_id == 0,
            g.start_slot == now_slot + 1,
            g.end_slot == now_slot + 1 + TICK_DURATION_SLOTS,
            g.epoch_id == 0,
    {
        let start_slot = now_slot + 1;
        Grid { tick_id: 0, start_slot, end_slot: start_slot + TICK_DURATION_SLOTS, epoch_id: 0 }
    }

    /// Whether `slot` falls inside the current mining window.
    pub open spec fn in_mining_window(self, slot: u64) -> bool {
        self.start_slot <= slot < self.end_slot
    }
}

} // verus!
