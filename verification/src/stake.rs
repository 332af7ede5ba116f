//! The staking ledger: holders of the emitted token earn a share of
//! buyback revenue proportional to their stake, through the same
//! lazy-settlement accrual primitive the mining ledger uses.

use vstd::prelude::*;
use crate::consts::{AccountId, COMPOUND_FEE_PER_TRANSACTION, ONE_DAY};
use crate::error::LocalUniverseError;
use crate::numeric::{Numeric, NUMERIC_SCALE};
use crate::treasury::Treasury;

verus! {

/// One user's stake record. Created on first stake deposit.
#[derive(Clone, Copy, Debug, PartialEq, Eq, Structural)]
pub struct Stake {
    /// The authority of this stake record.
    pub authority: AccountId,
    /// The balance of staked LUXITE.
    pub balance: u64,
    /// The treasury factor last observed when rewards were settled.
    pub rewards_factor: Numeric,
    /// The LUXITE this staker can claim.
    pub rewards: u64,
    /// The total LUXITE this staker has earned over its lifetime.
    pub lifetime_rewards: u64,
    /// The lamport reserve that pays fees for auto-compounding bots.
    pub compound_fee_reserve: u64,
    /// The timestamp of the last claim.
    pub last_claim_at: i64,
    /// The timestamp of the last deposit.
    pub last_deposit_at: i64,
    /// The timestamp of the last withdrawal.
    pub last_withdraw_at: i64,
}

/// The scale units of staking yield owed to `s` since it last observed
/// the global factor: the factor delta times the staked principal, or
/// zero while the global factor is not ahead.
pub open spec fn stake_accrued_units(s: Stake, t: Treasury) -> int {
    if t.stake_rewards_factor@ > s.rewards_factor@ {
        (t.stake_rewards_factor@ - s.rewards_factor@) * s.balance
    } else {
        0
    }
}

/// The whole LUXITE units of that accrual, truncated toward zero.
pub open spec fn stake_accrued(s: Stake, t: Treasury) -> int {
    stake_accrued_units(s, t) / NUMERIC_SCALE as int
}

/// The stake after settling accrued yield against the treasury's factor.
pub open spec fn settled_stake(s: Stake, t: Treasury) -> Stake {
    Stake {
        rewards: (s.rewards + stake_accrued(s, t)) as u64,
        lifetime_rewards: (s.lifetime_rewards + stake_accrued(s, t)) as u64,
        rewards_factor: t.stake_rewards_factor,
        ..s
    }
}

impl Stake {
    /// The record a first stake deposit writes: empty, with the factor
    /// already caught up so no past distribution accrues to it.
    pub fn new(authority: AccountId, treasury: &Treasury) -> (s: Stake)
        ensures
            s == (Stake {
                authority,
                balance: 0,
                rewards_factor: treasury.stake_rewards_factor,
                rewards: 0,
                lifetime_rewards: 0,
                compound_fee_reserve: 0,
                last_claim_at: 0,
                last_deposit_at: 0,
                last_withdraw_at: 0,
            }),
    {
        Stake {
            authority,
            balance: 0,
            rewards_factor: treasury.stake_rewards_factor,
            rewards: 0,
            lifetime_rewards: 0,
            compound_fee_reserve: 0,
            last_claim_at: 0,
            last_deposit_at: 0,
            last_withdraw_at: 0,
        }
    }

    /// Settles accrued staking yield: credits `floor(factor delta x
    /// balance)` to the claimable and lifetime rewards and adopts the
    /// treasury's factor. The delta is never negative because the global
    /// factor never decreases.
    pub fn update_rewards(&mut self, treasury: &Treasury)
        requires
            stake_accrued_units(*old(self), *treasury) <= u128::MAX,
            old(self).rewards + stake_accrued(*old(self), *treasury) <= u64::MAX,
            old(self).lifetime_rewards + stake_accrued(*old(self), *treasury) <= u64::MAX,
        ensures
            *final(self) == settled_stake(*old(self), *treasury),
    {
        if treasury.stake_rewards_factor.le(&self.rewards_factor) {
            self.rewards_factor = treasury.stake_rewards_factor;
            return;
        }
        let accumulated = treasury.stake_rewards_factor.sub(self.rewards_factor);
        let personal = accumulated.mul_u64(self.balance);
        let earned = personal.to_u64();
        self.rewards += earned;
        self.lifetime_rewards += earned;
        self.rewards_factor = treasury.stake_rewards_factor;
    }

    /// Claims up to `amount` of the settled rewards; returns what is owed
    /// to the staker, which the caller transfers.
    pub fn claim(&mut self, amount: u64, now_ts: i64, treasury: &Treasury) -> (claimed: u64)
        requires
            stake_accrued_units(*old(self), *treasury) <= u128::MAX,
            old(self).rewards + stake_accrued(*old(self), *treasury) <= u64::MAX,
            old(self).lifetime_rewards + stake_accrued(*old(self), *treasury) <= u64::MAX,
        ensures
            ({
                let s1 = settled_stake(*old(self), *treasury);
                &&& claimed == (if s1.rewards < amount {
                    s1.rewards
                } else {
                    amount
                })
                &&& *final(self) == (Stake {
                    rewards: (s1.rewards - claimed) as u64,
                    last_claim_at: now_ts,
                    ..s1
                })
            }),
    {
        self.update_rewards(treasury);
        let claimed = if self.rewards < amount {
            self.rewards
        } else {
            amount
        };
        self.rewards -= claimed;
        self.last_claim_at = now_ts;
        claimed
    }

    /// Moves all settled rewards into the staked balance in place.
    pub fn compound(&mut self, treasury: &mut Treasury) -> (amount: u64)
        requires
            stake_accrued_units(*old(self), *old(treasury)) <= u128::MAX,
            old(self).rewards + stake_accrued(*old(self), *old(treasury)) <= u64::MAX,
            old(self).lifetime_rewards + stake_accrued(*old(self), *old(treasury)) <= u64::MAX,
            old(self).balance + old(self).rewards + stake_accrued(*old(self), *old(treasury))
                <= u64::MAX,
            old(treasury).total_staked + old(self).rewards + stake_accrued(
                *old(self),
                *old(treasury),
            ) <= u64::MAX,
        ensures
            ({
                let s1 = settled_stake(*old(self), *old(treasury));
                &&& amount == s1.rewards
                &&& *final(self) == (Stake {
                    rewards: 0,
                    balance: (s1.balance + amount) as u64,
                    ..s1
                })
                &&& *final(treasury) == (Treasury {
                    total_staked: (old(treasury).total_staked + amount) as u64,
                    ..*old(treasury)
                })
            }),
            Treasury::factors_advanced_from(*final(treasury), *old(treasury)),
    {
        self.update_rewards(treasury);
        let amount = self.rewards;
        self.rewards = 0;
        self.balance += amount;
        treasury.total_staked += amount;
        amount
    }

    /// Stakes up to `amount`, capped by what the sender's token account
    /// actually holds; returns the amount staked, which the caller
    /// transfers into the stake's token account.
    pub fn deposit(
        &mut self,
        amount: u64,
        now_ts: i64,
        treasury: &mut Treasury,
        sender_balance: u64,
    ) -> (staked: u64)
        requires
            stake_accrued_units(*old(self), *old(treasury)) <= u128::MAX,
            old(self).rewards + stake_accrued(*old(self), *old(treasury)) <= u64::MAX,
            old(self).lifetime_rewards + stake_accrued(*old(self), *old(treasury)) <= u64::MAX,
            old(self).balance + amount <= u64::MAX,
            old(treasury).total_staked + amount <= u64::MAX,
        ensures
            ({
                let s1 = settled_stake(*old(self), *old(treasury));
                &&& staked == (if sender_balance < amount {
                    sender_balance
                } else {
                    amount
                })
                &&& *final(self) == (Stake {
                    balance: (s1.balance + staked) as u64,
                    last_deposit_at: now_ts,
                    ..s1
                })
                &&& *final(treasury) == (Treasury {
                    total_staked: (old(treasury).total_staked + staked) as u64,
                    ..*old(treasury)
                })
            }),
            Treasury::factors_advanced_from(*final(treasury), *old(treasury)),
    {
        self.update_rewards(treasury);
        let staked = if sender_balance < amount {
            sender_balance
        } else {
            amount
        };
        self.balance += staked;
        self.last_deposit_at = now_ts;
        treasury.total_staked += staked;
        staked
    }

    /// Unstakes up to `amount`, capped by the staked balance; returns the
    /// amount withdrawn, which the caller transfers back out. The
    /// treasury's total stake covers every staker's balance, so the
    /// global counter cannot go negative.
    pub fn withdraw(&mut self, amount: u64, now_ts: i64, treasury: &mut Treasury) -> (w: u64)
        requires
            stake_accrued_units(*old(self), *old(treasury)) <= u128::MAX,
            old(self).rewards + stake_accrued(*old(self), *old(treasury)) <= u64::MAX,
            old(self).lifetime_rewards + stake_accrued(*old(self), *old(treasury)) <= u64::MAX,
            old(treasury).total_staked >= old(self).balance,
        ensures
            ({
                let s1 = settled_stake(*old(self), *old(treasury));
                &&& w == (if s1.balance < amount {
                    s1.balance
                } else {
                    amount
                })
                &&& *final(self) == (Stake {
                    balance: (s1.balance - w) as u64,
                    last_withdraw_at: now_ts,
                    ..s1
                })
                &&& *final(treasury) == (Treasury {
                    total_staked: (old(treasury).total_staked - w) as u64,
                    ..*old(treasury)
                })
            }),
            Treasury::factors_advanced_from(*final(treasury), *old(treasury)),
    {
        self.update_rewards(treasury);
        let withdrawn = if self.balance < amount {
            self.balance
        } else {
            amount
        };
        self.balance -= withdrawn;
        self.last_withdraw_at = now_ts;
        treasury.total_staked -= withdrawn;
        withdrawn
    }
}

/// One staking deposit as the program runs it: only the stake's own
/// authority may; the staked amount is capped by the sender's token
/// balance, and any supplied `compound_fee` lamports are escrowed for
/// future bot compounds. Rejection changes nothing. Returns the staked
/// amount, which the caller transfers into the stake's token account
/// (plus the fee lamports onto the record).
pub fn stake_deposit(
    stake: &mut Stake,
    treasury: &mut Treasury,
    signer: AccountId,
    amount: u64,
    compound_fee: u64,
    sender_balance: u64,
    now_ts: i64,
) -> (r: Result<u64, LocalUniverseError>)
    requires
        stake_accrued_units(*old(stake), *old(treasury)) <= u128::MAX,
        old(stake).rewards + stake_accrued(*old(stake), *old(treasury)) <= u64::MAX,
        old(stake).lifetime_rewards + stake_accrued(*old(stake), *old(treasury)) <= u64::MAX,
        old(stake).balance + amount <= u64::MAX,
        old(stake).compound_fee_reserve + compound_fee <= u64::MAX,
        old(treasury).total_staked + amount <= u64::MAX,
    ensures
        old(stake).authority != signer ==> r == Err::<u64, LocalUniverseError>(
            LocalUniverseError::NotAuthorized,
        ) && *final(stake) == *old(stake) && *final(treasury) == *old(treasury),
        old(stake).authority == signer ==> ({
            let s1 = settled_stake(*old(stake), *old(treasury));
            let staked = if sender_balance < amount {
                sender_balance
            } else {
                amount
            };
            &&& r == Ok::<u64, LocalUniverseError>(staked)
            &&& *final(stake) == (Stake {
                balance: (s1.balance + staked) as u64,
                last_deposit_at: now_ts,
                compound_fee_reserve: (s1.compound_fee_reserve + compound_fee) as u64,
                ..s1
            })
            &&& *final(treasury) == (Treasury {
                total_staked: (old(treasury).total_staked + staked) as u64,
                ..*old(treasury)
            })
        }),
        Treasury::factors_advanced_from(*final(treasury), *old(treasury)),
{
    if stake.authority != signer {
        return Err(LocalUniverseError::NotAuthorized);
    }
    let staked = stake.deposit(amount, now_ts, treasury, sender_balance);
    if compound_fee > 0 {
        stake.compound_fee_reserve = stake.compound_fee_reserve + compound_fee;
    }
    Ok(staked)
}

/// One withdrawal as the program runs it: only the stake's own authority
/// may. Returns the withdrawn amount, which the caller transfers out of
/// the stake's token account.
pub fn stake_withdraw(
    stake: &mut Stake,
    treasury: &mut Treasury,
    signer: AccountId,
    amount: u64,
    now_ts: i64,
) -> (r: Result<u64, LocalUniverseError>)
    requires
        stake_accrued_units(*old(stake), *old(treasury)) <= u128::MAX,
        old(stake).rewards + stake_accrued(*old(stake), *old(treasury)) <= u64::MAX,
        old(stake).lifetime_rewards + stake_accrued(*old(stake), *old(treasury)) <= u64::MAX,
        old(treasury).total_staked >= old(stake).balance,
    ensures
        old(stake).authority != signer ==> r == Err::<u64, LocalUniverseError>(
            LocalUniverseError::NotAuthorized,
        ) && *final(stake) == *old(stake) && *final(treasury) == *old(treasury),
        old(stake).authority == signer ==> ({
            let s1 = settled_stake(*old(stake), *old(treasury));
            let withdrawn = if s1.balance < amount {
                s1.balance
            } else {
                amount
            };
            &&& r == Ok::<u64, LocalUniverseError>(withdrawn)
            &&& *final(stake) == (Stake {
                balance: (s1.balance - withdrawn) as u64,
                last_withdraw_at: now_ts,
                ..s1
            })
            &&& *final(treasury) == (Treasury {
                total_staked: (old(treasury).total_staked - withdrawn) as u64,
                ..*old(treasury)
            })
        }),
        Treasury::factors_advanced_from(*final(treasury), *old(treasury)),
{
    if stake.authority != signer {
        return Err(LocalUniverseError::NotAuthorized);
    }
    Ok(stake.withdraw(amount, now_ts, treasury))
}

/// One yield claim as the program runs it: only the stake's own
/// authority may. Returns the claimed amount, which the caller transfers
/// from the treasury's token account to the claimant.
pub fn claim_yield(
    stake: &mut Stake,
    treasury: &Treasury,
    signer: AccountId,
    amount: u64,
    now_ts: i64,
) -> (r: Result<u64, LocalUniverseError>)
    requires
        stake_accrued_units(*old(stake), *treasury) <= u128::MAX,
        old(stake).rewards + stake_accrued(*old(stake), *treasury) <= u64::MAX,
        old(stake).lifetime_rewards + stake_accrued(*old(stake), *treasury) <= u64::MAX,
    ensures
        old(stake).authority != signer ==> r == Err::<u64, LocalUniverseError>(
            LocalUniverseError::NotAuthorized,
        ) && *final(stake) == *old(stake),
        old(stake).authority == signer ==> ({
            let s1 = settled_stake(*old(stake), *treasury);
            let claimed = if s1.rewards < amount {
                s1.rewards
            } else {
                amount
            };
            &&& r == Ok::<u64, LocalUniverseError>(claimed)
            &&& *final(stake) == (Stake {
                rewards: (s1.rewards - claimed) as u64,
                last_claim_at: now_ts,
                ..s1
            })
        }),
{
    if stake.authority != signer {
        return Err(LocalUniverseError::NotAuthorized);
    }
    Ok(stake.claim(amount, now_ts, treasury))
}

/// One bot-driven auto-compound: claims all settled yield and re-stakes
/// it (capped by what the treasury's token account holds), then charges
/// the flat bot fee to the stake's lamport reserve.
///
/// Rejected, with both records unchanged, while the reserve cannot cover
/// the fee or the last claim is less than a day old — the claim
/// timestamp this operation itself writes is what spaces bots out.
/// Returns the compounded amount; the caller moves that many tokens from
/// the treasury to the stake account and the fee to the bot.
pub fn compound_yield(
    stake: &mut Stake,
    treasury: &mut Treasury,
    treasury_token_balance: u64,
    now_ts: i64,
) -> (r: Result<u64, LocalUniverseError>)
    requires
        old(stake).last_claim_at <= i64::MAX - ONE_DAY,
        stake_accrued_units(*old(stake), *old(treasury)) <= u128::MAX,
        old(stake).rewards + stake_accrued(*old(stake), *old(treasury)) <= u64::MAX,
        old(stake).lifetime_rewards + stake_accrued(*old(stake), *old(treasury)) <= u64::MAX,
        old(stake).balance + old(stake).rewards + stake_accrued(*old(stake), *old(treasury))
            <= u64::MAX,
        old(treasury).total_staked + old(stake).rewards + stake_accrued(
            *old(stake),
            *old(treasury),
        ) <= u64::MAX,
    ensures
        old(stake).compound_fee_reserve < COMPOUND_FEE_PER_TRANSACTION ==> r == Err::<
            u64,
            LocalUniverseError,
        >(LocalUniverseError::AmountTooSmall) && *final(stake) == *old(stake) && *final(treasury)
            == *old(treasury),
        old(stake).compound_fee_reserve >= COMPOUND_FEE_PER_TRANSACTION && old(
            stake,
        ).last_claim_at + ONE_DAY >= now_ts ==> r == Err::<u64, LocalUniverseError>(
            LocalUniverseError::CompoundTooSoon,
        ) && *final(stake) == *old(stake) && *final(treasury) == *old(treasury),
        old(stake).compound_fee_reserve >= COMPOUND_FEE_PER_TRANSACTION && old(
            stake,
        ).last_claim_at + ONE_DAY < now_ts ==> ({
            let s1 = settled_stake(*old(stake), *old(treasury));
            let compounded = if treasury_token_balance < s1.rewards {
                treasury_token_balance
            } else {
                s1.rewards
            };
            &&& r == Ok::<u64, LocalUniverseError>(compounded)
            &&& *final(stake) == (Stake {
                rewards: 0,
                balance: (s1.balance + compounded) as u64,
                last_claim_at: now_ts,
                last_deposit_at: now_ts,
                compound_fee_reserve: (s1.compound_fee_reserve
                    - COMPOUND_FEE_PER_TRANSACTION) as u64,
                ..s1
            })
            &&& *final(treasury) == (Treasury {
                total_staked: (old(treasury).total_staked + compounded) as u64,
                ..*old(treasury)
            })
        }),
        Treasury::factors_advanced_from(*final(treasury), *old(treasury)),
{
    if stake.compound_fee_reserve < COMPOUND_FEE_PER_TRANSACTION {
        return Err(LocalUniverseError::AmountTooSmall);
    }
    if stake.last_claim_at + ONE_DAY >= now_ts {
        return Err(LocalUniverseError::CompoundTooSoon);
    }

    // Claim all settled yield, then re-stake what the treasury's token
    // account can actually cover.
    let amount = stake.claim(u64::MAX, now_ts, treasury);
    let compounded = stake.deposit(amount, now_ts, treasury, treasury_token_balance);

    // Pay the bot from the stake's lamport reserve.
    stake.compound_fee_reserve -= COMPOUND_FEE_PER_TRANSACTION;
    Ok(compounded)
}

} // verus!
