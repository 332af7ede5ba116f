//! The miner: a participant's per-dimension ledger of deployed capital,
//! claimable rewards and checkpoint state.

use vstd::prelude::*;
use crate::consts::AccountId;
use crate::numeric::{Numeric, NUMERIC_SCALE};
use crate::treasury::Treasury;

verus! {

/// `a - b`, floored at zero.
pub open spec fn sat_sub(a: u64, b: u64) -> u64 {
    if a >= b {
        (a - b) as u64
    } else {
        0
    }
}

/// Tracks a miner's deployed lamports and reward balances for one
/// dimension. Created on first deposit; `deployed` and `excavation_id`
/// reset whenever the miner's active excavation no longer matches the
/// grid's tick.
#[derive(Clone, Copy, Debug, PartialEq, Eq, Structural)]
pub struct Miner {
    /// The authority of this miner record.
    pub authority: AccountId,
    /// The dimension this miner is on.
    pub dimension_id: u64,
    /// Lamports this miner has deployed this excavation (after fee).
    pub deployed: u64,
    /// Lamports withheld in reserve to pay bots for checkpointing.
    pub checkpoint_fee: u64,
    /// The last excavation this miner checkpointed.
    pub checkpoint_id: u64,
    /// The id of the excavation this miner last played in.
    pub excavation_id: u64,
    /// The lamports this miner can claim.
    pub rewards_sol: u64,
    /// The LUXITE this miner can claim.
    pub rewards_luxite: u64,
    /// The LUXITE this miner has earned from claim-fee redistribution.
    pub refined_luxite: u64,
    /// The treasury factor last observed when rewards were settled.
    pub rewards_factor: Numeric,
    /// The last time this miner claimed LUXITE rewards.
    pub last_claim_luxite_at: i64,
    /// The last time this miner claimed lamport rewards.
    pub last_claim_sol_at: i64,
    /// The total lamports this miner has received back from hits.
    pub lifetime_rewards_sol: u64,
    /// The total LUXITE this miner has earned.
    pub lifetime_rewards_luxite: u64,
    /// The total lamports this miner has deployed across all excavations.
    pub lifetime_deployed: u64,
}

/// The scale units of claim-fee redistribution owed to `m` since it last
/// observed the global factor: the factor delta times the unclaimed
/// principal, or zero while the global factor is not ahead.
pub open spec fn miner_accrued_units(m: Miner, t: Treasury) -> int {
    if t.miner_rewards_factor@ > m.rewards_factor@ {
        (t.miner_rewards_factor@ - m.rewards_factor@) * m.rewards_luxite
    } else {
        0
    }
}

/// The whole LUXITE units of that accrual, truncated toward zero.
pub open spec fn miner_accrued(m: Miner, t: Treasury) -> int {
    miner_accrued_units(m, t) / NUMERIC_SCALE as int
}

/// The miner after settling accrued claim-fee redistribution against the
/// treasury's factor: refined balance grown by the accrual, factor caught
/// up, everything else untouched.
pub open spec fn settled_miner(m: Miner, t: Treasury) -> Miner {
    Miner {
        refined_luxite: (m.refined_luxite + miner_accrued(m, t)) as u64,
        rewards_factor: t.miner_rewards_factor,
        ..m
    }
}

/// The claim fee: 10% of the unrefined mining rewards, levied only while
/// other unclaimed rewards remain to redistribute it to.
pub open spec fn claim_fee(rewards: u64, unclaimed_after: u64) -> u64 {
    if unclaimed_after > 0 && rewards > 0 {
        rewards / 10
    } else {
        0
    }
}

/// The full effect of one LUXITE claim on the miner and the treasury:
/// settle the accrual, clear the claimed balances, shrink the running
/// sums, and redistribute the 10% fee to the rewards still unclaimed by
/// advancing the global factor. With nothing to claim, only the miner's
/// factor catches up.
pub open spec fn claim_luxite_rel(
    m0: Miner,
    t0: Treasury,
    m1: Miner,
    t1: Treasury,
    amount: u64,
    now_ts: i64,
) -> bool {
    let ms = settled_miner(m0, t0);
    let rewards = ms.rewards_luxite;
    let refined = ms.refined_luxite;
    let unclaimed_after = sat_sub(t0.total_unclaimed, rewards);
    let fee = claim_fee(rewards, unclaimed_after);
    &&& refined + rewards == 0 ==> {
        &&& amount == 0
        &&& m1 == ms
        &&& t1 == t0
    }
    &&& refined + rewards > 0 ==> {
        &&& amount == refined + rewards - fee
        &&& m1 == (Miner {
            refined_luxite: 0,
            rewards_luxite: 0,
            last_claim_luxite_at: now_ts,
            lifetime_rewards_luxite: (ms.lifetime_rewards_luxite + amount) as u64,
            ..ms
        })
        &&& t1 == (Treasury {
            total_unclaimed: unclaimed_after,
            total_refined: (sat_sub(t0.total_refined, refined) + fee) as u64,
            miner_rewards_factor: t1.miner_rewards_factor,
            ..t0
        })
        &&& t1.miner_rewards_factor@ == t0.miner_rewards_factor@ + (if unclaimed_after > 0
            && rewards > 0 {
            fee * NUMERIC_SCALE / unclaimed_after as int
        } else {
            0
        })
    }
}

impl Miner {
    /// The record a first-ever deposit (or an automation setup) writes.
    pub fn new(authority: AccountId, dimension_id: u64, now_ts: i64) -> (m: Miner)
        ensures
            m == (Miner {
                authority,
                dimension_id,
                deployed: 0,
                checkpoint_fee: 0,
                checkpoint_id: 0,
                excavation_id: 0,
                rewards_sol: 0,
                rewards_luxite: 0,
                refined_luxite: 0,
                rewards_factor: m.rewards_factor,
                last_claim_luxite_at: now_ts,
                last_claim_sol_at: now_ts,
                lifetime_rewards_sol: 0,
                lifetime_rewards_luxite: 0,
                lifetime_deployed: 0,
            }),
            m.rewards_factor@ == 0,
    {
        Miner {
            authority,
            dimension_id,
            deployed: 0,
            checkpoint_fee: 0,
            checkpoint_id: 0,
            excavation_id: 0,
            rewards_sol: 0,
            rewards_luxite: 0,
            refined_luxite: 0,
            rewards_factor: Numeric::zero(),
            last_claim_luxite_at: now_ts,
            last_claim_sol_at: now_ts,
            lifetime_rewards_sol: 0,
            lifetime_rewards_luxite: 0,
            lifetime_deployed: 0,
        }
    }

    /// Settles LUXITE owed from the 10% claim-fee redistribution: credits
    /// `floor(factor delta x unclaimed rewards)` to the refined balance and
    /// adopts the treasury's factor. The delta is never negative because
    /// the global factor never decreases; a treasury factor at or below the
    /// last observed one is simply adopted with no accrual.
    pub fn update_rewards(&mut self, treasury: &Treasury)
        requires
            miner_accrued_units(*old(self), *treasury) <= u128::MAX,
            old(self).refined_luxite + miner_accrued(*old(self), *treasury) <= u64::MAX,
        ensures
            *final(self) == settled_miner(*old(self), *treasury),
    {
        if treasury.miner_rewards_factor.le(&self.rewards_factor) {
            self.rewards_factor = treasury.miner_rewards_factor;
            return;
        }
        let accumulated = treasury.miner_rewards_factor.sub(self.rewards_factor);
        let personal = accumulated.mul_u64(self.rewards_luxite);
        self.refined_luxite = self.refined_luxite + personal.to_u64();
        self.rewards_factor = treasury.miner_rewards_factor;
    }

    /// Claims the pending LUXITE rewards: settles outstanding accrual, then
    /// pays out refined plus unrefined rewards, charging the 10% claim fee
    /// on the unrefined portion only and redistributing it to everyone who
    /// has not yet claimed, by advancing the treasury's miner factor.
    ///
    /// Returns the amount owed to the claimant; the caller moves the
    /// tokens. With nothing to claim, the treasury is untouched.
    pub fn claim_luxite(&mut self, now_ts: i64, treasury: &mut Treasury) -> (amount: u64)
        requires
            miner_accrued_units(*old(self), *old(treasury)) <= u128::MAX,
            old(self).refined_luxite + miner_accrued(*old(self), *old(treasury)) + old(
                self,
            ).rewards_luxite <= u64::MAX,
            old(self).lifetime_rewards_luxite + old(self).refined_luxite + miner_accrued(
                *old(self),
                *old(treasury),
            ) + old(self).rewards_luxite <= u64::MAX,
            old(treasury).total_refined + old(self).rewards_luxite / 10 <= u64::MAX,
            old(treasury).miner_rewards_factor@ + u64::MAX * NUMERIC_SCALE <= u128::MAX,
        ensures
            claim_luxite_rel(
                *old(self),
                *old(treasury),
                *final(self),
                *final(treasury),
                amount,
                now_ts,
            ),
            Treasury::factors_advanced_from(*final(treasury), *old(treasury)),
    {
        self.update_rewards(treasury);

        let refined = self.refined_luxite;
        let rewards = self.rewards_luxite;
        let total = refined + rewards;

        if total == 0 {
            return 0;
        }
        // Clear the claimed balances.
        self.refined_luxite = 0;
        self.rewards_luxite = 0;
        self.last_claim_luxite_at = now_ts;

        // These running sums shrink by what leaves the unclaimed pool.
        treasury.total_unclaimed = if treasury.total_unclaimed >= rewards {
            treasury.total_unclaimed - rewards
        } else {
            0
        };
        treasury.total_refined = if treasury.total_refined >= refined {
            treasury.total_refined - refined
        } else {
            0
        };

        // Charge the 10% fee on unrefined rewards and share it out across
        // the rewards still unclaimed.
        let fee: u64 = if treasury.total_unclaimed > 0 && rewards > 0 {
            let f = rewards / 10;
            treasury.miner_rewards_factor = treasury.miner_rewards_factor.add(
                Numeric::from_fraction(f, treasury.total_unclaimed),
            );
            treasury.total_refined = treasury.total_refined + f;
            f
        } else {
            0
        };

        let amount = total - fee;
        self.lifetime_rewards_luxite = self.lifetime_rewards_luxite + amount;
        amount
    }

    /// Claims the pending lamport rewards (already settled onto this record
    /// by checkpoint). Returns the amount; the caller moves the lamports.
    pub fn claim_sol(&mut self, now_ts: i64) -> (amount: u64)
        requires
            old(self).lifetime_rewards_sol + old(self).rewards_sol <= u64::MAX,
        ensures
            amount == old(self).rewards_sol,
            *final(self) == (Miner {
                rewards_sol: 0,
                last_claim_sol_at: now_ts,
                lifetime_rewards_sol: (old(self).lifetime_rewards_sol + old(
                    self,
                ).rewards_sol) as u64,
                ..*old(self)
            }),
    {
        let amount = self.rewards_sol;
        self.rewards_sol = 0;
        self.last_claim_sol_at = now_ts;
        self.lifetime_rewards_sol = self.lifetime_rewards_sol + amount;
        amount
    }
}

} // verus!
