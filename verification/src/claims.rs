//! Claim operations: moving a miner's settled balances out, with the
//! signer check and the navigator's lifetime statistics.

use vstd::prelude::*;
use crate::consts::AccountId;
use crate::error::LocalUniverseError;
use crate::miner::{claim_luxite_rel, miner_accrued, miner_accrued_units, Miner};
use crate::navigator::Navigator;
use crate::treasury::Treasury;

verus! {

/// Claims a miner's pending LUXITE (the 10% claim fee applies, see
/// `Miner::claim_luxite`). Only the miner's own authority may; rejection
/// changes nothing. Returns what the caller transfers to the claimant.
pub fn claim_luxite(
    miner: &mut Miner,
    navigator: &mut Navigator,
    treasury: &mut Treasury,
    signer: AccountId,
    now_ts: i64,
) -> (r: Result<u64, LocalUniverseError>)
    requires
        miner_accrued_units(*old(miner), *old(treasury)) <= u128::MAX,
        old(miner).refined_luxite + miner_accrued(*old(miner), *old(treasury)) + old(
            miner,
        ).rewards_luxite <= u64::MAX,
        old(miner).lifetime_rewards_luxite + old(miner).refined_luxite + miner_accrued(
            *old(miner),
            *old(treasury),
        ) + old(miner).rewards_luxite <= u64::MAX,
        old(navigator).lifetime_rewards_luxite + old(miner).refined_luxite + miner_accrued(
            *old(miner),
            *old(treasury),
        ) + old(miner).rewards_luxite <= u64::MAX,
        old(treasury).total_refined + old(miner).rewards_luxite / 10 <= u64::MAX,
        old(treasury).miner_rewards_factor@ + u64::MAX * crate::numeric::NUMERIC_SCALE
            <= u128::MAX,
    ensures
        signer != old(miner).authority ==> r == Err::<u64, LocalUniverseError>(
            LocalUniverseError::NotAuthorized,
        ) && *final(miner) == *old(miner) && *final(navigator) == *old(navigator)
            && *final(treasury) == *old(treasury),
        signer == old(miner).authority ==> match r {
            Ok(amount) => {
                &&& claim_luxite_rel(
                    *old(miner),
                    *old(treasury),
                    *final(miner),
                    *final(treasury),
                    amount,
                    now_ts,
                )
                &&& *final(navigator) == (Navigator {
                    lifetime_rewards_luxite: (old(navigator).lifetime_rewards_luxite
                        + amount) as u64,
                    ..*old(navigator)
                })
            },
            Err(_) => false,
        },
        Treasury::factors_advanced_from(*final(treasury), *old(treasury)),
{
    if miner.authority != signer {
        return Err(LocalUniverseError::NotAuthorized);
    }
    let amount = miner.claim_luxite(now_ts, treasury);
    if amount > 0 {
        navigator.lifetime_rewards_luxite = navigator.lifetime_rewards_luxite + amount;
    }
    Ok(amount)
}

/// Claims a miner's settled lamport rewards; no fee. Only the miner's
/// own authority may; rejection changes nothing. Returns what the caller
/// transfers to the claimant.
pub fn claim_sol(
    miner: &mut Miner,
    navigator: &mut Navigator,
    signer: AccountId,
    now_ts: i64,
) -> (r: Result<u64, LocalUniverseError>)
    requires
        old(miner).lifetime_rewards_sol + old(miner).rewards_sol <= u64::MAX,
        old(navigator).lifetime_rewards_sol + old(miner).rewards_sol <= u64::MAX,
    ensures
        signer != old(miner).authority ==> r == Err::<u64, LocalUniverseError>(
            LocalUniverseError::NotAuthorized,
        ) && *final(miner) == *old(miner) && *final(navigator) == *old(navigator),
        signer == old(miner).authority ==> {
            &&& r == Ok::<u64, LocalUniverseError>(old(miner).rewards_sol)
            &&& *final(miner) == (Miner {
                rewards_sol: 0,
                last_claim_sol_at: now_ts,
                lifetime_rewards_sol: (old(miner).lifetime_rewards_sol + old(
                    miner,
                ).rewards_sol) as u64,
                ..*old(miner)
            })
            &&& *final(navigator) == (Navigator {
                lifetime_rewards_sol: (old(navigator).lifetime_rewards_sol + old(
                    miner,
                ).rewards_sol) as u64,
                ..*old(navigator)
            })
        },
{
    if miner.authority != signer {
        return Err(LocalUniverseError::NotAuthorized);
    }
    let amount = miner.claim_sol(now_ts);
    navigator.lifetime_rewards_sol = navigator.lifetime_rewards_sol + amount;
    Ok(amount)
}

} // verus!
