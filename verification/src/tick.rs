//! Advancing the global tick clock.

use vstd::prelude::*;
use crate::consts::{INTERMISSION_SLOTS, TICK_DURATION_SLOTS};
use crate::error::LocalUniverseError;
use crate::grid::Grid;

verus! {

/// Advances the grid to the next tick once the current tick plus the
/// intermission window has fully elapsed; rejects (leaving the grid
/// unchanged) otherwise, and the caller retries later.
///
/// Wraparound of `tick_id` is an explicit non-goal: the `u64` range outlives
/// the protocol, so headroom is a precondition rather than a checked case.
pub fn advance_tick(grid: &mut Grid, now_slot: u64) -> (r: Result<(), LocalUniverseError>)
    requires
        old(grid).tick_id < u64::MAX,
        now_slot + 1 + TICK_DURATION_SLOTS <= u64::MAX,
    ensures
        now_slot >= old(grid).end_slot + INTERMISSION_SLOTS ==> {
            &&& r == Ok::<(), LocalUniverseError>(())
            &&& final(grid).tick_id == old(grid).tick_id + 1
            &&& final(grid).start_slot == now_slot + 1
            &&& final(grid).end_slot == now_slot + 1 + TICK_DURATION_SLOTS
            &&& final(grid).epoch_id == old(grid).epoch_id
        },
        now_slot < old(grid).end_slot + INTERMISSION_SLOTS ==> {
            &&& r == Err::<(), LocalUniverseError>(LocalUniverseError::TickNotEnded)
            &&& *final(grid) == *old(grid)
        },
{
    if !(now_slot >= grid.end_slot && now_slot - grid.end_slot >= INTERMISSION_SLOTS) {
        return Err(LocalUniverseError::TickNotEnded);
    }
    grid.tick_id = grid.tick_id + 1;
    grid.start_slot = now_slot + 1;
    grid.end_slot = grid.start_slot + TICK_DURATION_SLOTS;
    Ok(())
}

} // verus!
