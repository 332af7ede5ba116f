//! Closing an excavation record to reclaim its rent.

use vstd::prelude::*;
use crate::error::LocalUniverseError;
use crate::excavation::Excavation;
use crate::grid::Grid;
use crate::miner::sat_sub;
use crate::treasury::Treasury;

verus! {

/// Whether the excavation may be closed: it is in a past tick, and its
/// claim window has passed (resolved) or it can never be resolved any
/// more (unresolved and more than one tick in the past).
pub open spec fn closeable(e: Excavation, grid: Grid, now_slot: u64) -> bool {
    e.id < grid.tick_id && ((e.processed() && now_slot >= e.expires_at) || (!e.processed()
        && e.id + 1 < grid.tick_id))
}

/// Closes an expired or stale excavation: any lamports above the rent
/// minimum are unclaimed escrow and sweep to the treasury; the rent
/// itself goes back to `rent_payer`. The caller destroys the record and
/// moves both amounts; rejection changes nothing.
pub fn close(
    grid: &Grid,
    excavation: &Excavation,
    treasury: &mut Treasury,
    now_slot: u64,
    excavation_lamports: u64,
    rent_minimum: u64,
) -> (r: Result<u64, LocalUniverseError>)
    requires
        old(treasury).sol_balance + excavation_lamports <= u64::MAX,
    ensures
        !closeable(*excavation, *grid, now_slot) ==> r == Err::<u64, LocalUniverseError>(
            LocalUniverseError::NotCloseable,
        ) && *final(treasury) == *old(treasury),
        closeable(*excavation, *grid, now_slot) ==> {
            let swept = sat_sub(excavation_lamports, rent_minimum);
            &&& r == Ok::<u64, LocalUniverseError>(swept)
            &&& *final(treasury) == (Treasury {
                sol_balance: (old(treasury).sol_balance + swept) as u64,
                ..*old(treasury)
            })
        },
        Treasury::factors_advanced_from(*final(treasury), *old(treasury)),
{
    let past_tick = excavation.id < grid.tick_id;
    let expired = excavation.is_processed() && now_slot >= excavation.expires_at;
    let stale = !excavation.is_processed() && grid.tick_id > 1 && excavation.id < grid.tick_id
        - 1;
    if !(past_tick && (expired || stale)) {
        return Err(LocalUniverseError::NotCloseable);
    }
    let swept = if excavation_lamports >= rent_minimum {
        excavation_lamports - rent_minimum
    } else {
        0
    };
    treasury.sol_balance = treasury.sol_balance + swept;
    Ok(swept)
}

} // verus!
