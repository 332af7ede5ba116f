//! Checkpoint: pulling one miner's resolved round into its claimable
//! balances, or forfeiting a round that can no longer pay out.

use vstd::prelude::*;
use crate::consts::{AccountId, TWELVE_HOURS_SLOTS};
use crate::excavation::Excavation;
use crate::grid::Grid;
use crate::miner::{miner_accrued, miner_accrued_units, sat_sub, settled_miner, Miner};
use crate::treasury::Treasury;

verus! {

/// What one checkpoint call did.
#[derive(Clone, Copy, Debug, PartialEq, Eq, Structural)]
pub enum CheckpointOutcome {
    /// The miner had already checkpointed this excavation; nothing changed.
    AlreadySettled,
    /// The excavation record is gone, or was never resolved and is now
    /// permanently un-resolvable: the deployment is forfeited with no
    /// reward (and no refund of the checkpoint-fee escrow).
    ForfeitClosed,
    /// The excavation is the current tick or not yet resolved; nothing
    /// changed, and the caller retries later.
    NotReady,
    /// The excavation was resolved but its claim window has passed: the
    /// deployment is forfeited with no reward.
    ForfeitExpired,
    /// The round settled. The caller transfers `rewards_sol` lamports from
    /// the excavation's escrow to the miner record and `bot_fee` lamports
    /// from the miner record to the calling bot.
    Settled { rewards_sol: u64, rewards_luxite: u64, bot_fee: u64 },
}

/// A participant's proportional slice of the distributed emission,
/// floored; remainders stay with the excavation forever.
pub open spec fn luxite_share(distributed: u64, deployed: u64, total_deployed: u64) -> int
    recommends
        total_deployed > 0,
{
    distributed * deployed / total_deployed as int
}

/// The lamports a settlement refunds: the full stake on a hit, nothing on
/// a miss.
pub open spec fn settle_sol(e: Excavation, deployed: u64) -> u64 {
    if e.spec_hit() && deployed > 0 {
        deployed
    } else {
        0
    }
}

/// The LUXITE a settlement credits: the proportional share of the round's
/// distribution on a hit, nothing otherwise.
pub open spec fn settle_luxite(e: Excavation, deployed: u64) -> int {
    if e.spec_hit() && deployed > 0 && e.luxite_distributed > 0 && e.total_deployed > 0 {
        luxite_share(e.luxite_distributed, deployed, e.total_deployed)
    } else {
        0
    }
}

/// The forfeiture write: the round is marked checkpointed and the stake
/// zeroed, with no reward and no other change.
pub open spec fn forfeited_miner(m: Miner) -> Miner {
    Miner { checkpoint_id: m.excavation_id, deployed: 0, ..m }
}

/// Whether a settlement at `now_slot` pays the checkpoint-fee escrow out
/// to the caller: only a third party, only within twelve hours of expiry,
/// and only while the escrow is unspent.
pub open spec fn bot_fee_due(m: Miner, e: Excavation, caller: AccountId, now_slot: u64) -> bool {
    caller != m.authority && now_slot >= sat_sub(e.expires_at, TWELVE_HOURS_SLOTS)
        && m.checkpoint_fee > 0
}

/// Settles the miner's last played round, in the four mutually exclusive
/// ways of the outcome type. Safe to call at any time: every path either
/// leaves all records unchanged or marks the round checkpointed exactly
/// once.
///
/// `excavation` is `None` when the record has already been closed. The
/// caller pre-validates identity: a present excavation is the one the
/// miner last played, on the miner's dimension, and its aggregate escrow
/// covers this miner's stake.
pub fn checkpoint(
    grid: &Grid,
    excavation: Option<&Excavation>,
    miner: &mut Miner,
    treasury: &mut Treasury,
    caller: AccountId,
    now_slot: u64,
) -> (r: CheckpointOutcome)
    requires
        excavation matches Some(e) ==> e.id == old(miner).excavation_id && e.dimension_id == old(
            miner,
        ).dimension_id && e.total_deployed >= old(miner).deployed,
        miner_accrued_units(*old(miner), *old(treasury)) <= u128::MAX,
        old(miner).refined_luxite + miner_accrued(*old(miner), *old(treasury)) <= u64::MAX,
        old(miner).rewards_sol + old(miner).deployed <= u64::MAX,
        excavation matches Some(e) ==> old(miner).rewards_luxite + e.luxite_distributed
            <= u64::MAX,
        excavation matches Some(e) ==> old(treasury).total_unclaimed + e.luxite_distributed
            <= u64::MAX,
    ensures
        ({
            let m0 = *old(miner);
            let t0 = *old(treasury);
            &&& m0.checkpoint_id == m0.excavation_id ==> {
                &&& r == CheckpointOutcome::AlreadySettled
                &&& *final(miner) == m0
                &&& *final(treasury) == t0
            }
            &&& m0.checkpoint_id != m0.excavation_id && excavation is None ==> {
                &&& r == CheckpointOutcome::ForfeitClosed
                &&& *final(miner) == forfeited_miner(m0)
                &&& *final(treasury) == t0
            }
            &&& m0.checkpoint_id != m0.excavation_id ==> match excavation {
                None => true,
                Some(e) => {
                    &&& !e.processed() && e.id + 1 < grid.tick_id ==> {
                        &&& r == CheckpointOutcome::ForfeitClosed
                        &&& *final(miner) == forfeited_miner(m0)
                        &&& *final(treasury) == t0
                    }
                    &&& (e.id == grid.tick_id || !e.processed()) && !(!e.processed() && e.id + 1
                        < grid.tick_id) ==> {
                        &&& r == CheckpointOutcome::NotReady
                        &&& *final(miner) == m0
                        &&& *final(treasury) == t0
                    }
                    &&& e.processed() && e.id != grid.tick_id && now_slot >= e.expires_at ==> {
                        &&& r == CheckpointOutcome::ForfeitExpired
                        &&& *final(miner) == forfeited_miner(m0)
                        &&& *final(treasury) == t0
                    }
                    &&& e.processed() && e.id != grid.tick_id && now_slot < e.expires_at ==> {
                        let refund = settle_sol(*e, m0.deployed);
                        let share = settle_luxite(*e, m0.deployed);
                        let bot = if bot_fee_due(m0, *e, caller, now_slot) {
                            m0.checkpoint_fee
                        } else {
                            0u64
                        };
                        let m1 = settled_miner(m0, t0);
                        &&& r == (CheckpointOutcome::Settled {
                            rewards_sol: refund,
                            rewards_luxite: share as u64,
                            bot_fee: bot,
                        })
                        &&& *final(miner) == (Miner {
                            checkpoint_fee: (m1.checkpoint_fee - bot) as u64,
                            checkpoint_id: m0.excavation_id,
                            deployed: 0,
                            rewards_sol: (m0.rewards_sol + refund) as u64,
                            rewards_luxite: (m0.rewards_luxite + share) as u64,
                            ..m1
                        })
                        &&& *final(treasury) == (Treasury {
                            total_unclaimed: (t0.total_unclaimed + share) as u64,
                            ..t0
                        })
                        &&& share <= e.luxite_distributed
                    }
                },
            }
        }),
        Treasury::factors_advanced_from(*final(treasury), *old(treasury)),
{
    // Already checkpointed.
    if miner.checkpoint_id == miner.excavation_id {
        return CheckpointOutcome::AlreadySettled;
    }
    let e = match excavation {
        None => {
            // The record was closed before this miner settled.
            miner.checkpoint_id = miner.excavation_id;
            miner.deployed = 0;
            return CheckpointOutcome::ForfeitClosed;
        },
        Some(e) => e,
    };
    if !e.is_processed() && grid.tick_id > 1 && e.id < grid.tick_id - 1 {
        // Never resolved and permanently un-resolvable.
        miner.checkpoint_id = miner.excavation_id;
        miner.deployed = 0;
        return CheckpointOutcome::ForfeitClosed;
    }
    if e.id == grid.tick_id || !e.is_processed() {
        return CheckpointOutcome::NotReady;
    }
    if now_slot >= e.expires_at {
        // Resolved, but the claim window has passed.
        miner.checkpoint_id = miner.excavation_id;
        miner.deployed = 0;
        return CheckpointOutcome::ForfeitExpired;
    }

    let deployed = miner.deployed;

    // Pay the escrowed checkpoint fee to a third-party bot working close
    // to the deadline; this keeps unclaimed rounds from expiring.
    let expiry_window_start = if e.expires_at >= TWELVE_HOURS_SLOTS {
        e.expires_at - TWELVE_HOURS_SLOTS
    } else {
        0
    };
    let mut bot_fee: u64 = 0;
    if caller != miner.authority && now_slot >= expiry_window_start && miner.checkpoint_fee > 0 {
        bot_fee = miner.checkpoint_fee;
        miner.checkpoint_fee = 0;
    }

    let mut rewards_sol: u64 = 0;
    let mut rewards_luxite: u64 = 0;
    if e.hit() && deployed > 0 {
        // The full stake comes back on a hit.
        rewards_sol = deployed;
        if e.luxite_distributed > 0 && e.total_deployed > 0 {
            proof {
                lemma_share_le_distributed(
                    e.luxite_distributed as int,
                    deployed as int,
                    e.total_deployed as int,
                );
                assert(e.luxite_distributed * deployed <= u128::MAX) by (nonlinear_arith)
                    requires
                        e.luxite_distributed <= u64::MAX,
                        deployed <= u64::MAX,
                ;
            }
            rewards_luxite = ((e.luxite_distributed as u128) * (deployed as u128) / (
            e.total_deployed as u128)) as u64;
        }
    }

    // Settle outstanding claim-fee accrual before adding the new rewards,
    // so stale accrual cannot apply to what was just earned.
    miner.update_rewards(treasury);

    miner.checkpoint_id = miner.excavation_id;
    miner.deployed = 0;
    miner.rewards_sol = miner.rewards_sol + rewards_sol;
    miner.rewards_luxite = miner.rewards_luxite + rewards_luxite;
    treasury.total_unclaimed = treasury.total_unclaimed + rewards_luxite;

    CheckpointOutcome::Settled { rewards_sol, rewards_luxite, bot_fee }
}

/// A proportional slice never exceeds what was distributed: with
/// `deployed <= total`, `distributed * deployed / total <= distributed`.
pub proof fn lemma_share_le_distributed(distributed: int, deployed: int, total: int)
    requires
        0 <= distributed,
        0 <= deployed <= total,
        0 < total,
    ensures
        0 <= distributed * deployed / total <= distributed,
{
    assert(distributed * deployed >= 0) by (nonlinear_arith)
        requires
            0 <= distributed,
            0 <= deployed,
    ;
    assert(distributed * deployed <= total * distributed) by (nonlinear_arith)
        requires
            0 <= distributed,
            0 <= deployed <= total,
    ;
    vstd::arithmetic::div_mod::lemma_div_is_ordered(
        distributed * deployed,
        total * distributed,
        total,
    );
    vstd::arithmetic::div_mod::lemma_div_multiples_vanish(distributed, total);
    vstd::arithmetic::div_mod::lemma_div_pos_is_pos(distributed * deployed, total);
}

} // verus!
