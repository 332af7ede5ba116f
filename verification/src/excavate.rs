//! Round resolution: folding the slot hash into a draw, damping the hit
//! rate for thin rounds, and paying out or sweeping the escrowed capital.

use vstd::prelude::*;
use crate::consts::{
    DENOMINATOR_BPS, MIN_DEPLOYED_FOR_FULL_RATE, ONE_DAY_SLOTS, RICHNESS_CEILING, RICHNESS_SCALE,
    TICK_EMISSION_BPS,
};
use crate::dimension::Dimension;
use crate::drill::Drill;
use crate::excavation::{Excavation, SlotHash};
use crate::grid::Grid;
use crate::treasury::Treasury;

verus! {

/// What one resolution call did.
#[derive(Clone, Copy, Debug, PartialEq, Eq, Structural)]
pub enum ExcavateOutcome {
    /// The excavation was already resolved; nothing changed.
    AlreadyProcessed,
    /// Nothing was deposited this round; nothing changed.
    NoDeposits,
    /// The supplied hash was a sentinel (all-zero or all-ones); nothing
    /// changed, and the caller retries once a valid hash is available.
    InvalidHash,
    /// The round was resolved. On a hit, `emission` LUXITE left the
    /// treasury pool for this excavation; on a miss, `swept` escrowed
    /// lamports moved to the treasury, which the caller must transfer.
    Resolved { hit: bool, emission: u64, swept: u64 },
}

/// The miss threshold a round actually rolls against: the dimension's
/// nominal richness at full participation, scaled up (and capped just
/// below certainty) when less than the full-rate minimum was deployed.
pub open spec fn effective_richness(richness: u32, total_deployed: u64) -> int
    recommends
        total_deployed > 0,
{
    if total_deployed >= MIN_DEPLOYED_FOR_FULL_RATE {
        richness as int
    } else {
        let scaled = richness * (MIN_DEPLOYED_FOR_FULL_RATE as int / total_deployed as int);
        if scaled > RICHNESS_CEILING {
            RICHNESS_CEILING as int
        } else {
            scaled
        }
    }
}

/// Whether a draw value hits: the roll must clear the miss threshold.
pub open spec fn draw_hits(richness: u32, total_deployed: u64, rng: u64) -> bool {
    rng % RICHNESS_SCALE > effective_richness(richness, total_deployed)
}

/// The LUXITE emission a hit pays from a pool of `luxite_balance`:
/// `TICK_EMISSION_BPS` basis points, floored, and zero if the basis-point
/// product would not even fit a `u64`.
pub open spec fn emission_amount(luxite_balance: u64) -> int {
    if luxite_balance * TICK_EMISSION_BPS > u64::MAX {
        0
    } else {
        luxite_balance * TICK_EMISSION_BPS / DENOMINATOR_BPS as int
    }
}

/// The full effect of one `excavate` call on the drill, excavation and
/// treasury, given the grid, the dimension's richness, the supplied hash
/// and the slot of the call. Stating the transition as one relation lets
/// idempotence be proved about it directly.
pub open spec fn excavate_transition(
    richness: u32,
    d0: Drill,
    e0: Excavation,
    t0: Treasury,
    d1: Drill,
    e1: Excavation,
    t1: Treasury,
    hash: SlotHash,
    now_slot: u64,
    r: ExcavateOutcome,
) -> bool {
    if e0.processed() {
        d1 == d0 && e1 == e0 && t1 == t0 && r == ExcavateOutcome::AlreadyProcessed
    } else if e0.total_deployed == 0 {
        d1 == d0 && e1 == e0 && t1 == t0 && r == ExcavateOutcome::NoDeposits
    } else if hash.is_zero() || hash.is_ones() {
        d1 == d0 && e1 == e0 && t1 == t0 && r == ExcavateOutcome::InvalidHash
    } else {
        let hit = draw_hits(richness, e0.total_deployed, hash.fold());
        let emission = emission_amount(t0.luxite_balance);
        &&& e1 == (Excavation {
            slot_hash: hash,
            expires_at: (now_slot + ONE_DAY_SLOTS) as u64,
            did_hit: if hit {
                1u64
            } else {
                0u64
            },
            luxite_distributed: if hit && emission > 0 {
                emission as u64
            } else {
                e0.luxite_distributed
            },
            ..e0
        })
        &&& d1 == (Drill {
            depth: (d0.depth + 1) as u64,
            lifetime_rewards_luxite: if hit {
                (d0.lifetime_rewards_luxite + emission) as u64
            } else {
                d0.lifetime_rewards_luxite
            },
            ..d0
        })
        &&& t1 == (if hit {
            Treasury {
                luxite_balance: (t0.luxite_balance - emission) as u64,
                total_emitted: (t0.total_emitted + emission) as u64,
                ..t0
            }
        } else {
            Treasury { sol_balance: (t0.sol_balance + e0.total_deployed) as u64, ..t0 }
        })
        &&& r == (ExcavateOutcome::Resolved {
            hit,
            emission: if hit {
                emission as u64
            } else {
                0u64
            },
            swept: if hit {
                0u64
            } else {
                e0.total_deployed
            },
        })
    }
}

/// Resolves the previous tick's excavation for one dimension: exactly once,
/// any time after the tick ended, and a no-op when there is nothing to do
/// (already resolved, no deposits, or no valid hash yet).
///
/// On a hit the escrowed lamports stay with the excavation for
/// proportional refunds at checkpoint and the emission is earmarked on it;
/// on a miss the whole escrow is swept to the treasury at once.
pub fn excavate(
    grid: &Grid,
    dimension: &Dimension,
    drill: &mut Drill,
    excavation: &mut Excavation,
    treasury: &mut Treasury,
    hash: SlotHash,
    now_slot: u64,
) -> (r: ExcavateOutcome)
    requires
        old(excavation).id + 1 == grid.tick_id,
        old(excavation).dimension_id == dimension.id,
        old(drill).dimension_id == dimension.id,
        now_slot + ONE_DAY_SLOTS <= u64::MAX,
        old(drill).depth < u64::MAX,
        old(treasury).total_emitted + old(treasury).luxite_balance <= u64::MAX,
        old(drill).lifetime_rewards_luxite + old(treasury).luxite_balance <= u64::MAX,
        old(treasury).sol_balance + old(excavation).total_deployed <= u64::MAX,
    ensures
        excavate_transition(
            dimension.richness,
            *old(drill),
            *old(excavation),
            *old(treasury),
            *final(drill),
            *final(excavation),
            *final(treasury),
            hash,
            now_slot,
            r,
        ),
        Treasury::factors_advanced_from(*final(treasury), *old(treasury)),
{
    if excavation.is_processed() {
        return ExcavateOutcome::AlreadyProcessed;
    }
    let total_deployed = excavation.total_deployed;
    if total_deployed == 0 {
        return ExcavateOutcome::NoDeposits;
    }
    let rng = match hash.entropy() {
        Some(v) => v,
        None => {
            return ExcavateOutcome::InvalidHash;
        },
    };

    // Thin participation makes hitting proportionally harder, down to a
    // floor hit chance of one part per billion.
    let effective: u64 = if total_deployed >= MIN_DEPLOYED_FOR_FULL_RATE {
        dimension.richness as u64
    } else {
        let scale = MIN_DEPLOYED_FOR_FULL_RATE / total_deployed;
        assert(richness_scale_bound(dimension.richness, scale)) by (nonlinear_arith)
            requires
                dimension.richness <= u32::MAX,
                0 <= scale <= MIN_DEPLOYED_FOR_FULL_RATE,
        ;
        let scaled = (dimension.richness as u64) * scale;
        if scaled > RICHNESS_CEILING {
            RICHNESS_CEILING
        } else {
            scaled
        }
    };

    let roll = rng % RICHNESS_SCALE;
    let hit = roll > effective;

    excavation.slot_hash = hash;
    excavation.expires_at = now_slot + ONE_DAY_SLOTS;

    if hit {
        excavation.did_hit = 1;
        let emission = match treasury.luxite_balance.checked_mul(TICK_EMISSION_BPS) {
            Some(product) => {
                proof {
                    lemma_bps_share_le_whole(treasury.luxite_balance as int, product as int);
                }
                product / DENOMINATOR_BPS
            },
            None => 0,
        };
        if emission > 0 && treasury.luxite_balance >= emission {
            excavation.luxite_distributed = emission;
            treasury.luxite_balance = treasury.luxite_balance - emission;
            treasury.total_emitted = treasury.total_emitted + emission;
            drill.lifetime_rewards_luxite = drill.lifetime_rewards_luxite + emission;
        }
        drill.depth = drill.depth + 1;
        ExcavateOutcome::Resolved { hit: true, emission, swept: 0 }
    } else {
        excavation.did_hit = 0;
        // The entire escrow is forfeited to the treasury; no refund path
        // exists for a miss.
        treasury.sol_balance = treasury.sol_balance + total_deployed;
        drill.depth = drill.depth + 1;
        ExcavateOutcome::Resolved { hit: false, emission: 0, swept: total_deployed }
    }
}

/// The scaled-richness product stays far inside the `u64` range.
pub open spec fn richness_scale_bound(richness: u32, scale: u64) -> bool {
    richness * scale <= u32::MAX * MIN_DEPLOYED_FOR_FULL_RATE
}

/// A basis-point share of a whole, floored, never exceeds the whole.
proof fn lemma_bps_share_le_whole(balance: int, product: int)
    requires
        0 <= balance,
        product == balance * TICK_EMISSION_BPS,
    ensures
        product / DENOMINATOR_BPS as int <= balance,
{
    assert(product <= balance * DENOMINATOR_BPS) by (nonlinear_arith)
        requires
            0 <= balance,
            product == balance * TICK_EMISSION_BPS,
    ;
    vstd::arithmetic::div_mod::lemma_div_is_ordered(
        product,
        balance * DENOMINATOR_BPS as int,
        DENOMINATOR_BPS as int,
    );
    vstd::arithmetic::div_mod::lemma_div_multiples_vanish(balance, DENOMINATOR_BPS as int);
}

} // verus!
