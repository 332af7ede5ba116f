//! The automation ledger: a prepaid escrow plus fee schedule that lets a
//! third-party executor deposit on a principal's behalf every tick.

use vstd::prelude::*;
use crate::consts::{AccountId, CHECKPOINT_FEE, NULL_ACCOUNT};
use crate::deploy::{deploy, deploy_transition, DeployReceipt};
use crate::drill::Drill;
use crate::error::LocalUniverseError;
use crate::excavation::Excavation;
use crate::grid::Grid;
use crate::miner::Miner;
use crate::treasury::Treasury;

verus! {

/// Automation settings for hands-free mining on one dimension.
#[derive(Clone, Copy, Debug, PartialEq, Eq, Structural)]
pub struct Automation {
    /// The lamports to deploy per tick.
    pub amount: u64,
    /// The authority who owns this automation.
    pub authority: AccountId,
    /// The lamport balance available for automation.
    pub balance: u64,
    /// The dimension this automation is for.
    pub dimension_id: u64,
    /// The executor bot allowed to run this automation.
    pub executor: AccountId,
    /// The fee paid to the executor per operation, in lamports.
    pub fee: u64,
    /// Reserved for future strategy use.
    pub strategy: u64,
    /// Whether to auto-reload lamport winnings into the balance
    /// (nonzero = yes).
    pub reload: u64,
}

/// What an `automate` call settled to.
#[derive(Clone, Copy, Debug, PartialEq, Eq, Structural)]
pub enum AutomateOutcome {
    /// The automation is closed (or was never open): the caller returns
    /// `refund` escrowed lamports, plus the record's rent, to the
    /// authority, and collects `checkpoint_topup` from it.
    Closed { refund: u64, checkpoint_topup: u64 },
    /// The automation now holds these settings; the caller collects
    /// `deposit_collected` lamports into its escrow and
    /// `checkpoint_topup` onto the miner record, both from the authority.
    Updated { automation: Automation, deposit_collected: u64, checkpoint_topup: u64 },
}

/// Creates, updates or closes the authority's automation for one
/// dimension, topping up the miner's checkpoint-fee escrow on the way
/// (so a bot can always settle the automated rounds).
///
/// Passing the null account as `executor` closes the automation and
/// refunds its remaining balance. The caller pre-creates the miner record
/// on a first touch and pre-validates that `existing` is the signer's
/// automation on this dimension, so the only rejection is a foreign
/// miner record.
pub fn automate(
    existing: Option<Automation>,
    miner: &mut Miner,
    signer: AccountId,
    dimension_id: u64,
    amount: u64,
    deposit: u64,
    fee: u64,
    reload: u64,
    executor: AccountId,
) -> (r: Result<AutomateOutcome, LocalUniverseError>)
    requires
        old(miner).dimension_id == dimension_id,
        old(miner).checkpoint_fee + CHECKPOINT_FEE <= u64::MAX,
        existing matches Some(a) ==> a.authority == signer && a.dimension_id == dimension_id,
        existing matches Some(a) ==> a.balance + deposit <= u64::MAX,
        deposit <= u64::MAX,
    ensures
        old(miner).authority != signer ==> r == Err::<AutomateOutcome, LocalUniverseError>(
            LocalUniverseError::NotAuthorized,
        ) && *final(miner) == *old(miner),
        old(miner).authority == signer ==> {
            let topup = if old(miner).checkpoint_fee == 0 {
                CHECKPOINT_FEE
            } else {
                0u64
            };
            &&& *final(miner) == (Miner {
                checkpoint_fee: (old(miner).checkpoint_fee + topup) as u64,
                ..*old(miner)
            })
            &&& executor == NULL_ACCOUNT ==> r == Ok::<AutomateOutcome, LocalUniverseError>(
                AutomateOutcome::Closed {
                    refund: match existing {
                        Some(a) => a.balance,
                        None => 0,
                    },
                    checkpoint_topup: topup,
                },
            )
            &&& executor != NULL_ACCOUNT ==> r == Ok::<AutomateOutcome, LocalUniverseError>(
                AutomateOutcome::Updated {
                    automation: Automation {
                        amount,
                        authority: signer,
                        balance: ((match existing {
                            Some(a) => a.balance,
                            None => 0,
                        }) + deposit) as u64,
                        dimension_id,
                        executor,
                        fee,
                        strategy: match existing {
                            Some(a) => a.strategy,
                            None => 0,
                        },
                        reload,
                    },
                    deposit_collected: deposit,
                    checkpoint_topup: topup,
                },
            )
        },
{
    if miner.authority != signer {
        return Err(LocalUniverseError::NotAuthorized);
    }
    // Fund a future bot-executed checkpoint if the reserve ran dry.
    let topup: u64 = if miner.checkpoint_fee == 0 {
        miner.checkpoint_fee = CHECKPOINT_FEE;
        CHECKPOINT_FEE
    } else {
        0
    };

    // The null executor closes the automation, returning its escrow.
    if executor == NULL_ACCOUNT {
        let refund = match existing {
            Some(a) => a.balance,
            None => 0,
        };
        return Ok(AutomateOutcome::Closed { refund, checkpoint_topup: topup });
    }

    let (balance, strategy) = match existing {
        Some(a) => (a.balance, a.strategy),
        None => (0, 0),
    };
    Ok(
        AutomateOutcome::Updated {
            automation: Automation {
                amount,
                authority: signer,
                balance: balance + deposit,
                dimension_id,
                executor,
                fee,
                strategy,
                reload,
            },
            deposit_collected: deposit,
            checkpoint_topup: topup,
        },
    )
}

/// The lamport movements of one delegated deployment.
#[derive(Clone, Copy, Debug, PartialEq, Eq, Structural)]
pub struct AutomationCharge {
    /// The fee the caller moves from the automation escrow to the
    /// executor.
    pub executor_fee: u64,
    /// The residual escrow returned to the authority because the
    /// automation could not cover another run and closed itself.
    pub closed_refund: u64,
}

/// Runs one delegated deposit: the executor deploys exactly
/// `automation.amount` on the principal's behalf, paid from the
/// automation escrow together with the executor's fee.
///
/// Rejected when the caller is not the executor, when the escrow cannot
/// cover `amount + fee`, or when the deposit itself is rejected (outside
/// the mining window, or an unclaimed prior round) — in each case every
/// record is unchanged. With the executor signing and the escrow
/// covering the run, success is owed whenever the deposit is accepted,
/// and then the miner, drill, excavation and treasury move exactly as a
/// direct deposit of `automation.amount` would move them. After a
/// successful run the automation self-closes (returning `None` and
/// refunding the residue) if the remaining escrow cannot cover one more
/// run.
pub fn deploy_automated(
    grid: &Grid,
    drill: &mut Drill,
    excavation: &mut Excavation,
    miner: &mut Miner,
    treasury: &mut Treasury,
    automation: Automation,
    signer: AccountId,
    now_slot: u64,
) -> (r: Result<(Option<Automation>, DeployReceipt, AutomationCharge), LocalUniverseError>)
    requires
        old(excavation).id == grid.tick_id,
        old(excavation).dimension_id == old(miner).dimension_id,
        old(drill).dimension_id == old(miner).dimension_id,
        automation.dimension_id == old(miner).dimension_id,
        automation.authority == old(miner).authority,
        automation.amount + automation.fee <= u64::MAX,
        old(miner).deployed + automation.amount <= u64::MAX,
        old(miner).lifetime_deployed + automation.amount <= u64::MAX,
        old(miner).checkpoint_fee + CHECKPOINT_FEE <= u64::MAX,
        old(excavation).total_deployed + automation.amount <= u64::MAX,
        old(excavation).total_miners < u64::MAX,
        old(drill).total_deployed + automation.amount <= u64::MAX,
        old(drill).lifetime_deployed + automation.amount <= u64::MAX,
        old(drill).miner_count < u64::MAX,
        old(treasury).sol_balance + automation.amount <= u64::MAX,
    ensures
        r is Err ==> *final(miner) == *old(miner) && *final(drill) == *old(drill)
            && *final(excavation) == *old(excavation) && *final(treasury) == *old(treasury),
        signer != automation.executor ==> r == Err::<
            (Option<Automation>, DeployReceipt, AutomationCharge),
            LocalUniverseError,
        >(LocalUniverseError::NotAuthorized),
        signer == automation.executor && automation.balance < automation.amount + automation.fee
            ==> r == Err::<
            (Option<Automation>, DeployReceipt, AutomationCharge),
            LocalUniverseError,
        >(LocalUniverseError::AmountTooSmall),
        signer == automation.executor && automation.balance >= automation.amount + automation.fee
            ==> {
            let m0 = *old(miner);
            let outside_window = !grid.in_mining_window(now_slot);
            let unclaimed_round = m0.excavation_id != grid.tick_id && m0.excavation_id != 0
                && m0.checkpoint_id != m0.excavation_id;
            &&& outside_window ==> r == Err::<
                (Option<Automation>, DeployReceipt, AutomationCharge),
                LocalUniverseError,
            >(LocalUniverseError::OutsideTickWindow)
            &&& !outside_window && unclaimed_round ==> r == Err::<
                (Option<Automation>, DeployReceipt, AutomationCharge),
                LocalUniverseError,
            >(LocalUniverseError::UncheckpointedRound)
            &&& !outside_window && !unclaimed_round ==> r is Ok
        },
        r matches Ok((after, receipt, charge)) ==> {
            let remaining = (automation.balance - automation.amount - automation.fee) as u64;
            &&& deploy_transition(
                *grid,
                *old(miner),
                *old(drill),
                *old(excavation),
                *old(treasury),
                *final(miner),
                *final(drill),
                *final(excavation),
                *final(treasury),
                automation.amount,
                now_slot,
                Ok::<DeployReceipt, LocalUniverseError>(receipt),
            )
            &&& receipt.escrowed + receipt.fee_to_treasury == automation.amount
            &&& charge.executor_fee == automation.fee
            &&& remaining >= automation.amount + automation.fee ==> after == Some(
                Automation { balance: remaining, ..automation },
            ) && charge.closed_refund == 0
            &&& remaining < automation.amount + automation.fee ==> after is None
                && charge.closed_refund == remaining
        },
        Treasury::factors_advanced_from(*final(treasury), *old(treasury)),
{
    if signer != automation.executor {
        return Err(LocalUniverseError::NotAuthorized);
    }
    let cost = automation.amount + automation.fee;
    if automation.balance < cost {
        return Err(LocalUniverseError::AmountTooSmall);
    }
    // The deposited amount is forced to the configured per-tick size;
    // any rejection there leaves the escrow untouched too.
    let deployed = deploy(grid, drill, excavation, miner, treasury, automation.amount, now_slot);
    let receipt = match deployed {
        Ok(receipt) => receipt,
        Err(e) => {
            return Err(e);
        },
    };
    proof {
        crate::deploy::lemma_deploy_fee_le_amount(automation.amount as int);
    }
    let remaining = automation.balance - cost;
    if remaining >= cost {
        Ok(
            (
                Some(Automation { balance: remaining, ..automation }),
                receipt,
                AutomationCharge { executor_fee: automation.fee, closed_refund: 0 },
            ),
        )
    } else {
        // The escrow cannot cover another run: self-close and hand the
        // residue back to the authority.
        Ok(
            (
                None,
                receipt,
                AutomationCharge { executor_fee: automation.fee, closed_refund: remaining },
            ),
        )
    }
}

/// Sweeps the principal's already-settled lamport winnings back into the
/// automation escrow, so a fully hands-off strategy can recycle them.
/// Gated on the executor's signature, the explicit `reload` opt-in and
/// the dimension binding; rejection leaves both records unchanged.
pub fn reload_sol(
    automation: &mut Automation,
    miner: &mut Miner,
    signer: AccountId,
    dimension_id: u64,
    now_ts: i64,
) -> (r: Result<u64, LocalUniverseError>)
    requires
        old(miner).authority == old(automation).authority,
        old(miner).lifetime_rewards_sol + old(miner).rewards_sol <= u64::MAX,
        old(automation).balance + old(miner).rewards_sol <= u64::MAX,
    ensures
        old(automation).executor != signer || old(automation).reload == 0 || old(
            automation,
        ).dimension_id != dimension_id ==> r == Err::<u64, LocalUniverseError>(
            LocalUniverseError::NotAuthorized,
        ) && *final(miner) == *old(miner) && *final(automation) == *old(automation),
        old(automation).executor == signer && old(automation).reload > 0 && old(
            automation,
        ).dimension_id == dimension_id ==> {
            &&& r == Ok::<u64, LocalUniverseError>(old(miner).rewards_sol)
            &&& *final(miner) == (Miner {
                rewards_sol: 0,
                last_claim_sol_at: now_ts,
                lifetime_rewards_sol: (old(miner).lifetime_rewards_sol + old(
                    miner,
                ).rewards_sol) as u64,
                ..*old(miner)
            })
            &&& *final(automation) == (Automation {
                balance: (old(automation).balance + old(miner).rewards_sol) as u64,
                ..*old(automation)
            })
        },
{
    if !(automation.executor == signer && automation.reload > 0 && automation.dimension_id
        == dimension_id) {
        return Err(LocalUniverseError::NotAuthorized);
    }
    let amount = miner.claim_sol(now_ts);
    automation.balance = automation.balance + amount;
    Ok(amount)
}

} // verus!
