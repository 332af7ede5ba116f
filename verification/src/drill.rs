//! The drill: the per-dimension aggregate tick tracker.

use vstd::prelude::*;

verus! {

/// One per dimension, created with the dimension. Carries the current
/// tick's deposit aggregates (reset lazily when a deposit first touches a
/// new tick) and lifetime counters; `depth` counts resolved excavations.
#[derive(Clone, Copy, Debug, PartialEq, Eq, Structural)]
pub struct Drill {
    /// The dimension this drill is on.
    pub dimension_id: u64,
    /// The tick the current aggregates belong to.
    pub tick_id: u64,
    /// Lamports deployed into the current tick (after fees).
    pub total_deployed: u64,
    /// Unique miners that deposited into the current tick.
    pub miner_count: u64,
    /// Current mining depth: the number of excavations resolved.
    pub depth: u64,
    /// Lifetime lamports deployed across all excavations (after fees).
    pub lifetime_deployed: u64,
    /// Lifetime LUXITE emitted across all excavations.
    pub lifetime_rewards_luxite: u64,
}

impl Drill {
    /// The record a discovery scan writes.
    pub fn new(dimension_id: u64) -> (d: Drill)
        ensures
            d.dimension_id == dimension_id,
            d.tick_id == 0,
            d.total_deployed == 0,
            d.miner_count == 0,
            d.depth == 0,
            d.lifetime_deployed == 0,
            d.lifetime_rewards_luxite == 0,
    {
        Drill {
            dimension_id,
            tick_id: 0,
            total_deployed: 0,
            miner_count: 0,
            depth: 0,
            lifetime_deployed: 0,
            lifetime_rewards_luxite: 0,
        }
    }
}

} // verus!
