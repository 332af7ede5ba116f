//! The treasury: the protocol-wide ledger of revenue, emissions and the
//! two global reward factors.

use vstd::prelude::*;
use crate::numeric::Numeric;

verus! {

/// Singleton record mutated by nearly every operation.
///
/// `total_unclaimed` and `total_refined` are running sums of outstanding
/// claimable amounts and must never go negative; the two reward factors
/// never decrease.
#[derive(Clone, Copy, Debug, PartialEq, Eq, Structural)]
pub struct Treasury {
    /// Lamports collected for buyback-burn operations.
    pub sol_balance: u64,
    /// LUXITE remaining for mining emissions.
    pub luxite_balance: u64,
    /// Cumulative LUXITE distributed to miners through claim fees, divided
    /// by the total unclaimed at each distribution.
    pub miner_rewards_factor: Numeric,
    /// Cumulative LUXITE distributed to stakers, divided by the total stake
    /// at each distribution.
    pub stake_rewards_factor: Numeric,
    /// The current total of refined LUXITE mining rewards.
    pub total_refined: u64,
    /// The current total of LUXITE staking deposits.
    pub total_staked: u64,
    /// The current total of unclaimed LUXITE mining rewards.
    pub total_unclaimed: u64,
    /// The total LUXITE emitted from mining.
    pub total_emitted: u64,
    /// The total LUXITE burned by buybacks.
    pub total_burned: u64,
}

impl Treasury {
    /// The empty treasury written at initialization.
    pub fn new() -> (t: Treasury)
        ensures
            t.sol_balance == 0,
            t.luxite_balance == 0,
            t.miner_rewards_factor@ == 0,
            t.stake_rewards_factor@ == 0,
            t.total_refined == 0,
            t.total_staked == 0,
            t.total_unclaimed == 0,
            t.total_emitted == 0,
            t.total_burned == 0,
    {
        Treasury {
            sol_balance: 0,
            luxite_balance: 0,
            miner_rewards_factor: Numeric::zero(),
            stake_rewards_factor: Numeric::zero(),
            total_refined: 0,
            total_staked: 0,
            total_unclaimed: 0,
            total_emitted: 0,
            total_burned: 0,
        }
    }

    /// Neither global reward factor of `post` is below its value in `pre`:
    /// the accrual invariant every operation preserves.
    pub open spec fn factors_advanced_from(post: Treasury, pre: Treasury) -> bool {
        post.miner_rewards_factor@ >= pre.miner_rewards_factor@
            && post.stake_rewards_factor@ >= pre.stake_rewards_factor@
    }
}

} // verus!
