//! Buyback settlement: validating the balances around an opaque external
//! swap, then splitting the bought tokens 90/10 between burn and stakers.

use vstd::prelude::*;
use crate::consts::LAMPORTS_PER_SOL;
use crate::error::LocalUniverseError;
use crate::numeric::{Numeric, NUMERIC_SCALE};
use crate::treasury::Treasury;

verus! {

/// The treasury's observable balances around the external swap call.
#[derive(Clone, Copy, Debug, PartialEq, Eq, Structural)]
pub struct SwapObservation {
    /// The treasury's LUXITE token balance before / after the swap.
    pub luxite_before: u64,
    pub luxite_after: u64,
    /// The treasury's wrapped-SOL token balance before / after the swap.
    pub sol_before: u64,
    pub sol_after: u64,
    /// The LUXITE mint supply before / after the swap.
    pub mint_supply_before: u64,
    pub mint_supply_after: u64,
    /// The treasury account's raw lamports before / after the swap.
    pub lamports_before: u64,
    pub lamports_after: u64,
}

impl SwapObservation {
    /// A swap is sound when it consumed the whole wrapped-SOL balance,
    /// did not grow or shrink the mint, left the treasury's lamports in
    /// place, and did not lose LUXITE.
    pub open spec fn sound(self) -> bool {
        self.lamports_after == self.lamports_before && self.mint_supply_after
            == self.mint_supply_before && self.sol_after == 0 && self.luxite_after
            >= self.luxite_before
    }
}

/// What a settled buyback asks of the caller.
#[derive(Clone, Copy, Debug, PartialEq, Eq, Structural)]
pub struct BuybackOutcome {
    /// The LUXITE to burn (90%, plus the rounding remainder).
    pub burned: u64,
    /// The LUXITE shared with stakers by advancing their factor (10%,
    /// floored; zero while nothing is staked).
    pub shared: u64,
}

/// Settles a buyback around an opaque external swap: rejects a swap with
/// no wrapped SOL to spend, aborts on any drifted balance (an invariant
/// violation, since the swap may only trade the treasury's wrapped SOL
/// for LUXITE), then shares a floored 10% of the bought tokens with
/// stakers through the stake factor and burns the rest.
pub fn buyback_settle(treasury: &mut Treasury, obs: SwapObservation) -> (r: Result<
    BuybackOutcome,
    LocalUniverseError,
>)
    requires
        old(treasury).total_burned + obs.luxite_after <= u64::MAX,
        old(treasury).stake_rewards_factor@ + u64::MAX * NUMERIC_SCALE <= u128::MAX,
    ensures
        obs.sol_before == 0 ==> r == Err::<BuybackOutcome, LocalUniverseError>(
            LocalUniverseError::AmountTooSmall,
        ) && *final(treasury) == *old(treasury),
        obs.sol_before > 0 && !obs.sound() ==> r == Err::<BuybackOutcome, LocalUniverseError>(
            LocalUniverseError::InvariantViolation,
        ) && *final(treasury) == *old(treasury),
        obs.sol_before > 0 && obs.sound() ==> ({
            let total = obs.luxite_after - obs.luxite_before;
            let shared = if old(treasury).total_staked > 0 {
                total / 10
            } else {
                0
            };
            let burned = total - shared;
            &&& r == Ok::<BuybackOutcome, LocalUniverseError>(
                BuybackOutcome { burned: burned as u64, shared: shared as u64 },
            )
            &&& *final(treasury) == (Treasury {
                total_burned: (old(treasury).total_burned + burned) as u64,
                stake_rewards_factor: final(treasury).stake_rewards_factor,
                ..*old(treasury)
            })
            &&& final(treasury).stake_rewards_factor@ == old(treasury).stake_rewards_factor@ + (
            if old(treasury).total_staked > 0 {
                shared * NUMERIC_SCALE / old(treasury).total_staked as int
            } else {
                0
            })
        }),
        Treasury::factors_advanced_from(*final(treasury), *old(treasury)),
{
    if obs.sol_before == 0 {
        return Err(LocalUniverseError::AmountTooSmall);
    }
    if !(obs.lamports_after == obs.lamports_before && obs.mint_supply_after
        == obs.mint_supply_before && obs.sol_after == 0 && obs.luxite_after
        >= obs.luxite_before) {
        return Err(LocalUniverseError::InvariantViolation);
    }
    let total = obs.luxite_after - obs.luxite_before;

    // Share 10% with stakers; the factor advance makes it claimable pro
    // rata without touching any stake record now.
    let shared: u64 = if treasury.total_staked > 0 {
        let s = total / 10;
        treasury.stake_rewards_factor = treasury.stake_rewards_factor.add(
            Numeric::from_fraction(s, treasury.total_staked),
        );
        s
    } else {
        0
    };

    // Burn the rest.
    let burned = total - shared;
    treasury.total_burned = treasury.total_burned + burned;
    Ok(BuybackOutcome { burned, shared })
}

/// Wraps treasury lamports for the swap leg of a buyback: at most the
/// requested amount, the tracked buyback balance, and 100 SOL per call.
/// The treasury account must keep its rent minimum; a wrap that would
/// break it is rejected with nothing changed. Returns the lamports the
/// caller moves into the wrapped-SOL account.
pub fn wrap(
    treasury: &mut Treasury,
    amount: u64,
    treasury_lamports: u64,
    rent_minimum: u64,
) -> (r: Result<u64, LocalUniverseError>)
    ensures
        ({
            let capped = vstd::math::min(
                vstd::math::min(100 * LAMPORTS_PER_SOL as int, old(treasury).sol_balance as int),
                amount as int,
            );
            &&& treasury_lamports < capped + rent_minimum ==> r == Err::<
                u64,
                LocalUniverseError,
            >(LocalUniverseError::AmountTooSmall) && *final(treasury) == *old(treasury)
            &&& treasury_lamports >= capped + rent_minimum ==> {
                &&& r == Ok::<u64, LocalUniverseError>(capped as u64)
                &&& *final(treasury) == (Treasury {
                    sol_balance: (old(treasury).sol_balance - capped) as u64,
                    ..*old(treasury)
                })
            }
        }),
        Treasury::factors_advanced_from(*final(treasury), *old(treasury)),
{
    let mut capped = 100 * LAMPORTS_PER_SOL;
    if treasury.sol_balance < capped {
        capped = treasury.sol_balance;
    }
    if amount < capped {
        capped = amount;
    }
    if !(treasury_lamports >= capped && treasury_lamports - capped >= rent_minimum) {
        return Err(LocalUniverseError::AmountTooSmall);
    }
    treasury.sol_balance = treasury.sol_balance - capped;
    Ok(capped)
}

/// Funds the emission pool; the caller has already moved the tokens into
/// the treasury's token account.
pub fn fund_treasury(treasury: &mut Treasury, amount: u64)
    requires
        old(treasury).luxite_balance + amount <= u64::MAX,
    ensures
        *final(treasury) == (Treasury {
            luxite_balance: (old(treasury).luxite_balance + amount) as u64,
            ..*old(treasury)
        }),
        Treasury::factors_advanced_from(*final(treasury), *old(treasury)),
{
    treasury.luxite_balance = treasury.luxite_balance + amount;
}

} // verus!
