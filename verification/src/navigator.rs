//! The navigator: a wallet's lifetime statistics across all dimensions.

use vstd::prelude::*;
use crate::consts::AccountId;

verus! {

/// Pure bookkeeping; no operation reads these counters back.
#[derive(Clone, Copy, Debug, PartialEq, Eq, Structural)]
pub struct Navigator {
    /// The authority of this navigator record.
    pub authority: AccountId,
    /// Total dimensions this navigator has discovered.
    pub lifetime_dimensions_discovered: u64,
    /// Lifetime LUXITE earned across all dimensions.
    pub lifetime_rewards_luxite: u64,
    /// Lifetime lamports claimed back across all dimensions.
    pub lifetime_rewards_sol: u64,
    /// Lifetime lamports deployed across all dimensions.
    pub lifetime_deployed: u64,
    /// Unix timestamp when this navigator was created.
    pub created_at: i64,
}

impl Navigator {
    /// The record a wallet's first scan writes.
    pub fn new(authority: AccountId, now_ts: i64) -> (n: Navigator)
        ensures
            n == (Navigator {
                authority,
                lifetime_dimensions_discovered: 0,
                lifetime_rewards_luxite: 0,
                lifetime_rewards_sol: 0,
                lifetime_deployed: 0,
                created_at: now_ts,
            }),
    {
        Navigator {
            authority,
            lifetime_dimensions_discovered: 0,
            lifetime_rewards_luxite: 0,
            lifetime_rewards_sol: 0,
            lifetime_deployed: 0,
            created_at: now_ts,
        }
    }
}

} // verus!
