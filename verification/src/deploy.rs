//! Deposit of capital into the current tick's excavation.

use vstd::prelude::*;
use crate::consts::{CHECKPOINT_FEE, DENOMINATOR_BPS, DEPLOY_FEE_BPS};
use crate::drill::Drill;
use crate::error::LocalUniverseError;
use crate::excavation::Excavation;
use crate::grid::Grid;
use crate::miner::Miner;
use crate::treasury::Treasury;

verus! {

/// The lamport movements one accepted deposit asks of the caller.
#[derive(Clone, Copy, Debug, PartialEq, Eq, Structural)]
pub struct DeployReceipt {
    /// The protocol fee, moved from the depositor to the treasury.
    pub fee_to_treasury: u64,
    /// The capital at risk, moved from the depositor into the
    /// excavation's escrow.
    pub escrowed: u64,
    /// The checkpoint-fee escrow topped up on the miner record (zero when
    /// the reserve was already funded), moved from the depositor.
    pub checkpoint_topup: u64,
    /// Whether this was the miner's first deposit into this excavation.
    pub first_in_round: bool,
}

/// The protocol fee on a deployment, in basis points, floored.
pub open spec fn deploy_fee(amount: u64) -> int {
    amount * DEPLOY_FEE_BPS / DENOMINATOR_BPS as int
}

/// The miner as the deposit first sees it: rolled forward into the
/// grid's tick, with the stake of any fully checkpointed earlier round
/// cleared.
pub open spec fn rolled_miner(m: Miner, tick_id: u64) -> Miner {
    if m.excavation_id != tick_id {
        Miner { deployed: 0, excavation_id: tick_id, ..m }
    } else {
        m
    }
}

/// The drill as the deposit first sees it: current-tick aggregates reset
/// lazily when a deposit first touches a new tick.
pub open spec fn rolled_drill(d: Drill, tick_id: u64) -> Drill {
    if d.tick_id != tick_id {
        Drill { tick_id, total_deployed: 0, miner_count: 0, ..d }
    } else {
        d
    }
}

/// The full effect of one accepted or rejected deposit on the miner,
/// drill, excavation and treasury. Stating the transition as one
/// relation lets the escrow-conservation law be proved about it
/// directly.
pub open spec fn deploy_transition(
    grid: Grid,
    m0: Miner,
    d0: Drill,
    e0: Excavation,
    t0: Treasury,
    m1: Miner,
    d1: Drill,
    e1: Excavation,
    t1: Treasury,
    amount: u64,
    now_slot: u64,
    r: Result<DeployReceipt, LocalUniverseError>,
) -> bool {
    let rejected = !grid.in_mining_window(now_slot) || (m0.excavation_id != grid.tick_id
        && m0.excavation_id != 0 && m0.checkpoint_id != m0.excavation_id);
    &&& !grid.in_mining_window(now_slot) ==> r == Err::<DeployReceipt, LocalUniverseError>(
        LocalUniverseError::OutsideTickWindow,
    )
    &&& grid.in_mining_window(now_slot) && rejected ==> r == Err::<
        DeployReceipt,
        LocalUniverseError,
    >(LocalUniverseError::UncheckpointedRound)
    &&& rejected ==> m1 == m0 && d1 == d0 && e1 == e0 && t1 == t0
    &&& !rejected ==> {
        let fee = deploy_fee(amount);
        let after = amount - fee;
        let topup = if m0.checkpoint_fee == 0 {
            CHECKPOINT_FEE as int
        } else {
            0
        };
        let mb = rolled_miner(m0, grid.tick_id);
        let db = rolled_drill(d0, grid.tick_id);
        let first = mb.deployed == 0;
        &&& r == Ok::<DeployReceipt, LocalUniverseError>(
            DeployReceipt {
                fee_to_treasury: fee as u64,
                escrowed: after as u64,
                checkpoint_topup: topup as u64,
                first_in_round: first,
            },
        )
        &&& m1 == (Miner {
            deployed: (mb.deployed + after) as u64,
            lifetime_deployed: (mb.lifetime_deployed + after) as u64,
            checkpoint_fee: (mb.checkpoint_fee + topup) as u64,
            ..mb
        })
        &&& d1 == (Drill {
            total_deployed: (db.total_deployed + after) as u64,
            miner_count: (db.miner_count + if first {
                1int
            } else {
                0int
            }) as u64,
            lifetime_deployed: (db.lifetime_deployed + after) as u64,
            ..db
        })
        &&& e1 == (Excavation {
            total_deployed: (e0.total_deployed + after) as u64,
            total_miners: (e0.total_miners + if first {
                1int
            } else {
                0int
            }) as u64,
            ..e0
        })
        &&& t1 == (Treasury { sol_balance: (t0.sol_balance + fee) as u64, ..t0 })
    }
}

/// Commits `amount` lamports to the current tick's excavation.
///
/// Rejected, with every record unchanged, when the slot is outside the
/// tick's mining window, or when the miner still has an unclaimed earlier
/// round (`checkpoint_id` behind `excavation_id`; a first-ever record,
/// `excavation_id == 0`, is exempt). Otherwise the protocol fee is split
/// off, only the remainder is put at risk, and the miner, drill,
/// excavation and treasury aggregates grow in step — which is what keeps
/// the per-round conservation between the miner stakes and the
/// excavation's escrow.
///
/// The caller pre-validates identity: the excavation is the grid's
/// current tick on the miner's dimension.
pub fn deploy(
    grid: &Grid,
    drill: &mut Drill,
    excavation: &mut Excavation,
    miner: &mut Miner,
    treasury: &mut Treasury,
    amount: u64,
    now_slot: u64,
) -> (r: Result<DeployReceipt, LocalUniverseError>)
    requires
        old(excavation).id == grid.tick_id,
        old(excavation).dimension_id == old(miner).dimension_id,
        old(drill).dimension_id == old(miner).dimension_id,
        old(miner).deployed + amount <= u64::MAX,
        old(miner).lifetime_deployed + amount <= u64::MAX,
        old(miner).checkpoint_fee + CHECKPOINT_FEE <= u64::MAX,
        old(excavation).total_deployed + amount <= u64::MAX,
        old(excavation).total_miners < u64::MAX,
        old(drill).total_deployed + amount <= u64::MAX,
        old(drill).lifetime_deployed + amount <= u64::MAX,
        old(drill).miner_count < u64::MAX,
        old(treasury).sol_balance + amount <= u64::MAX,
    ensures
        deploy_transition(
            *grid,
            *old(miner),
            *old(drill),
            *old(excavation),
            *old(treasury),
            *final(miner),
            *final(drill),
            *final(excavation),
            *final(treasury),
            amount,
            now_slot,
            r,
        ),
        Treasury::factors_advanced_from(*final(treasury), *old(treasury)),
{
    // A deposit is accepted only while the tick is live.
    if !(now_slot >= grid.start_slot && now_slot < grid.end_slot) {
        return Err(LocalUniverseError::OutsideTickWindow);
    }
    // A participant may not roll into a new round while a prior round's
    // outcome is unclaimed; a first-ever record is exempt.
    if miner.excavation_id != grid.tick_id && miner.excavation_id != 0 && miner.checkpoint_id
        != miner.excavation_id {
        return Err(LocalUniverseError::UncheckpointedRound);
    }
    if miner.excavation_id != grid.tick_id {
        miner.deployed = 0;
        miner.excavation_id = grid.tick_id;
    }
    if drill.tick_id != grid.tick_id {
        drill.tick_id = grid.tick_id;
        drill.total_deployed = 0;
        drill.miner_count = 0;
    }

    // Fund a future bot-executed checkpoint if the reserve ran dry.
    let topup: u64 = if miner.checkpoint_fee == 0 {
        miner.checkpoint_fee = CHECKPOINT_FEE;
        CHECKPOINT_FEE
    } else {
        0
    };

    // Only the amount after the protocol fee is put at risk.
    proof {
        lemma_deploy_fee_le_amount(amount as int);
    }
    let fee = ((amount as u128) * (DEPLOY_FEE_BPS as u128) / (DENOMINATOR_BPS as u128)) as u64;
    let after = amount - fee;

    let first = miner.deployed == 0;
    if first {
        excavation.total_miners = excavation.total_miners + 1;
        drill.miner_count = drill.miner_count + 1;
    }

    miner.deployed = miner.deployed + after;
    miner.lifetime_deployed = miner.lifetime_deployed + after;
    excavation.total_deployed = excavation.total_deployed + after;
    drill.total_deployed = drill.total_deployed + after;
    drill.lifetime_deployed = drill.lifetime_deployed + after;
    treasury.sol_balance = treasury.sol_balance + fee;

    Ok(
        DeployReceipt {
            fee_to_treasury: fee,
            escrowed: after,
            checkpoint_topup: topup,
            first_in_round: first,
        },
    )
}

/// The basis-point fee never exceeds the amount itself.
pub proof fn lemma_deploy_fee_le_amount(amount: int)
    requires
        0 <= amount,
    ensures
        0 <= amount * DEPLOY_FEE_BPS / DENOMINATOR_BPS as int <= amount,
{
    assert(amount * DEPLOY_FEE_BPS <= amount * DENOMINATOR_BPS) by (nonlinear_arith)
        requires
            0 <= amount,
    ;
    vstd::arithmetic::div_mod::lemma_div_is_ordered(
        amount * DEPLOY_FEE_BPS as int,
        amount * DENOMINATOR_BPS as int,
        DENOMINATOR_BPS as int,
    );
    vstd::arithmetic::div_mod::lemma_div_multiples_vanish(amount, DENOMINATOR_BPS as int);
    vstd::arithmetic::div_mod::lemma_div_pos_is_pos(
        amount * DEPLOY_FEE_BPS as int,
        DENOMINATOR_BPS as int,
    );
    assert(amount * DEPLOY_FEE_BPS >= 0) by (nonlinear_arith)
        requires
            0 <= amount,
    ;
}

} // verus!
