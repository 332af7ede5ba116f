//! Global laws of the ledger, proved from the operation contracts.

use vstd::prelude::*;
use vstd::arithmetic::div_mod::{
    lemma_div_is_ordered, lemma_div_is_ordered_by_denominator, lemma_div_multiples_vanish,
    lemma_fundamental_div_mod, lemma_mod_division_less_than_divisor,
};
use vstd::arithmetic::mul::lemma_mul_is_distributive_add;
use crate::checkpoint::{settle_luxite, settle_sol};
use crate::consts::{MIN_DEPLOYED_FOR_FULL_RATE, RICHNESS_CEILING};
use crate::deploy::{
    deploy_transition, lemma_deploy_fee_le_amount, rolled_miner, DeployReceipt,
};
use crate::error::LocalUniverseError;
use crate::excavate::{draw_hits, effective_richness, excavate_transition, ExcavateOutcome};
use crate::excavation::{Excavation, SlotHash};
use crate::drill::Drill;
use crate::grid::Grid;
use crate::miner::Miner;
use crate::treasury::Treasury;

verus! {

/// The sum of a sequence of stakes.
pub open spec fn sum_seq(s: Seq<u64>) -> int
    decreases s.len(),
{
    if s.len() == 0 {
        0
    } else {
        s[0] + sum_seq(s.subrange(1, s.len() as int))
    }
}

/// The lamports checkpoint settlements refund across a round's
/// participants.
pub open spec fn refund_sum(e: Excavation, stakes: Seq<u64>) -> int
    decreases stakes.len(),
{
    if stakes.len() == 0 {
        0
    } else {
        settle_sol(e, stakes[0]) + refund_sum(e, stakes.subrange(1, stakes.len() as int))
    }
}

/// The LUXITE checkpoint settlements credit across a round's
/// participants.
pub open spec fn share_sum(e: Excavation, stakes: Seq<u64>) -> int
    decreases stakes.len(),
{
    if stakes.len() == 0 {
        0
    } else {
        settle_luxite(e, stakes[0]) + share_sum(e, stakes.subrange(1, stakes.len() as int))
    }
}

/// Conservation of the escrow: over any split of a round's deposits into
/// per-miner stakes, the checkpoint refunds pay out exactly the whole
/// escrow on a hit and nothing on a miss — never more than was deployed.
pub proof fn lemma_refund_conservation(e: Excavation, stakes: Seq<u64>)
    requires
        sum_seq(stakes) == e.total_deployed,
    ensures
        refund_sum(e, stakes) == if e.spec_hit() {
            e.total_deployed as int
        } else {
            0
        },
    decreases stakes.len(),
{
    if stakes.len() > 0 {
        let rest = stakes.subrange(1, stakes.len() as int);
        lemma_refund_sum_linear(e, rest);
    }
}

/// Helper: the refund sum is the stake sum on a hit and zero on a miss,
/// for any stake sequence.
proof fn lemma_refund_sum_linear(e: Excavation, stakes: Seq<u64>)
    ensures
        refund_sum(e, stakes) == if e.spec_hit() {
            sum_seq(stakes)
        } else {
            0
        },
    decreases stakes.len(),
{
    if stakes.len() > 0 {
        lemma_refund_sum_linear(e, stakes.subrange(1, stakes.len() as int));
    }
}

/// Floored division distributes sub-additively over a sum.
proof fn lemma_floor_div_subadditive(a: int, b: int, t: int)
    requires
        0 <= a,
        0 <= b,
        0 < t,
    ensures
        a / t + b / t <= (a + b) / t,
{
    lemma_fundamental_div_mod(a, t);
    lemma_fundamental_div_mod(b, t);
    lemma_mod_division_less_than_divisor(a, t);
    lemma_mod_division_less_than_divisor(b, t);
    lemma_mul_is_distributive_add(t, a / t, b / t);
    assert(t * (a / t + b / t) <= a + b);
    lemma_div_is_ordered(t * (a / t + b / t), a + b, t);
    lemma_div_multiples_vanish(a / t + b / t, t);
}

/// Conservation of the emission: over any split of a round's deposits
/// into per-miner stakes, the floored proportional LUXITE shares sum to
/// at most what the round distributed; the rounding remainder stays
/// unclaimed forever.
pub proof fn lemma_share_conservation(e: Excavation, stakes: Seq<u64>)
    requires
        sum_seq(stakes) == e.total_deployed,
    ensures
        share_sum(e, stakes) <= e.luxite_distributed,
    decreases stakes.len(),
{
    if e.spec_hit() && e.luxite_distributed > 0 && e.total_deployed > 0 {
        lemma_sum_seq_nonneg(stakes);
        lemma_share_sum_bound(e, stakes);
        assert(e.luxite_distributed * sum_seq(stakes) / e.total_deployed as int
            == e.luxite_distributed) by {
            lemma_div_multiples_vanish(e.luxite_distributed as int, e.total_deployed as int);
        }
    } else {
        lemma_share_sum_zero(e, stakes);
    }
}

/// Helper: every stake sum is non-negative.
proof fn lemma_sum_seq_nonneg(stakes: Seq<u64>)
    ensures
        sum_seq(stakes) >= 0,
    decreases stakes.len(),
{
    if stakes.len() > 0 {
        lemma_sum_seq_nonneg(stakes.subrange(1, stakes.len() as int));
    }
}

/// Helper: when a round pays shares at all, their sum is bounded by the
/// floored share of the total stake.
proof fn lemma_share_sum_bound(e: Excavation, stakes: Seq<u64>)
    requires
        e.spec_hit(),
        e.luxite_distributed > 0,
        e.total_deployed > 0,
        sum_seq(stakes) >= 0,
    ensures
        share_sum(e, stakes) <= e.luxite_distributed * sum_seq(stakes) / e.total_deployed as int,
    decreases stakes.len(),
{
    let d = e.luxite_distributed as int;
    let t = e.total_deployed as int;
    if stakes.len() == 0 {
        assert(0int / t == 0) by {
            lemma_div_multiples_vanish(0, t);
        }
    } else {
        let c = stakes[0] as int;
        let rest = stakes.subrange(1, stakes.len() as int);
        lemma_sum_seq_nonneg(rest);
        lemma_share_sum_bound(e, rest);
        assert(settle_luxite(e, stakes[0]) <= d * c / t) by {
            if stakes[0] == 0 {
                lemma_div_multiples_vanish(0, t);
                assert(d * 0 == 0) by (nonlinear_arith);
            }
        }
        assert(d * c >= 0) by (nonlinear_arith)
            requires
                d >= 0,
                c >= 0,
        ;
        assert(d * sum_seq(rest) >= 0) by (nonlinear_arith)
            requires
                d >= 0,
                sum_seq(rest) >= 0,
        ;
        lemma_floor_div_subadditive(d * c, d * sum_seq(rest), t);
        lemma_mul_is_distributive_add(d, c, sum_seq(rest));
    }
}

/// Helper: a round that missed or distributed nothing pays no shares.
proof fn lemma_share_sum_zero(e: Excavation, stakes: Seq<u64>)
    requires
        !(e.spec_hit() && e.luxite_distributed > 0 && e.total_deployed > 0),
    ensures
        share_sum(e, stakes) == 0,
    decreases stakes.len(),
{
    if stakes.len() > 0 {
        lemma_share_sum_zero(e, stakes.subrange(1, stakes.len() as int));
    }
}

/// Helper: updating one element changes a stake sum by exactly the
/// difference.
proof fn lemma_sum_seq_update(s: Seq<u64>, i: int, v: u64)
    requires
        0 <= i < s.len(),
    ensures
        sum_seq(s.update(i, v)) == sum_seq(s) - s[i] + v,
    decreases s.len(),
{
    let su = s.update(i, v);
    if i == 0 {
        assert(su.subrange(1, su.len() as int) =~= s.subrange(1, s.len() as int));
    } else {
        assert(su.subrange(1, su.len() as int) =~= s.subrange(1, s.len() as int).update(
            i - 1,
            v,
        ));
        lemma_sum_seq_update(s.subrange(1, s.len() as int), i - 1, v);
    }
}

/// Conservation at deposit time: when the per-miner stakes of a round sum
/// to the excavation's escrow, an accepted deposit keeps them in step —
/// the depositing miner's stake and the escrow grow by the same after-fee
/// amount. (Slot `i` holds the depositor's stake in this round: zero if
/// the record is only now rolling into the round.)
pub proof fn lemma_deploy_conserves_escrow(
    grid: Grid,
    m0: Miner,
    d0: Drill,
    e0: Excavation,
    t0: Treasury,
    m1: Miner,
    d1: Drill,
    e1: Excavation,
    t1: Treasury,
    amount: u64,
    now_slot: u64,
    r: Result<DeployReceipt, LocalUniverseError>,
    stakes: Seq<u64>,
    i: int,
)
    requires
        deploy_transition(grid, m0, d0, e0, t0, m1, d1, e1, t1, amount, now_slot, r),
        r is Ok,
        rolled_miner(m0, grid.tick_id).deployed + amount <= u64::MAX,
        e0.total_deployed + amount <= u64::MAX,
        0 <= i < stakes.len(),
        stakes[i] == rolled_miner(m0, grid.tick_id).deployed,
        sum_seq(stakes) == e0.total_deployed,
    ensures
        sum_seq(stakes.update(i, m1.deployed)) == e1.total_deployed,
{
    lemma_deploy_fee_le_amount(amount as int);
    lemma_sum_seq_update(stakes, i, m1.deployed);
}

/// Monotonic factors: across any chain of treasury states in which each
/// step keeps both global reward factors from decreasing — which every
/// operation of this crate guarantees — no later state's factor is below
/// an earlier one's.
pub proof fn lemma_factors_monotonic_chain(chain: Seq<Treasury>, i: int, j: int)
    requires
        forall|k: int|
            0 <= k < chain.len() - 1 ==> #[trigger] Treasury::factors_advanced_from(
                chain[k + 1],
                chain[k],
            ),
        0 <= i <= j < chain.len(),
    ensures
        Treasury::factors_advanced_from(chain[j], chain[i]),
    decreases j - i,
{
    if i < j {
        lemma_factors_monotonic_chain(chain, i, j - 1);
        assert(Treasury::factors_advanced_from(chain[(j - 1) + 1], chain[j - 1]));
    }
}

/// Idempotent resolution: once an excavate call has run — resolving the
/// round, or finding nothing to do — running it again (with the same
/// hash, in the retry-later case of an invalid hash) changes nothing.
pub proof fn lemma_excavate_idempotent(
    richness: u32,
    d0: Drill,
    e0: Excavation,
    t0: Treasury,
    d1: Drill,
    e1: Excavation,
    t1: Treasury,
    d2: Drill,
    e2: Excavation,
    t2: Treasury,
    hash1: SlotHash,
    hash2: SlotHash,
    now1: u64,
    now2: u64,
    r1: ExcavateOutcome,
    r2: ExcavateOutcome,
)
    requires
        excavate_transition(richness, d0, e0, t0, d1, e1, t1, hash1, now1, r1),
        excavate_transition(richness, d1, e1, t1, d2, e2, t2, hash2, now2, r2),
        r1 is InvalidHash ==> hash2 == hash1,
    ensures
        d2 == d1 && e2 == e1 && t2 == t1,
{
    if !e0.processed() && e0.total_deployed > 0 && !(hash1.is_zero() || hash1.is_ones()) {
        assert(e1.slot_hash == hash1);
        assert(e1.processed());
    }
}

/// Damping monotonicity: for a fixed richness, shrinking a round's
/// deployment below the full-rate minimum never lowers the miss
/// threshold, so no draw that misses at the larger deployment can hit at
/// the smaller one.
///
/// A richness above the damping ceiling is excluded: there the ceiling
/// itself caps a damped round just below the nominal threshold.
pub proof fn lemma_damping_monotonic(richness: u32, lower: u64, higher: u64)
    requires
        0 < lower <= higher,
        richness <= RICHNESS_CEILING,
    ensures
        effective_richness(richness, lower) >= effective_richness(richness, higher),
        forall|rng: u64| draw_hits(richness, lower, rng) ==> draw_hits(richness, higher, rng),
{
    let r = richness as int;
    if lower < MIN_DEPLOYED_FOR_FULL_RATE {
        let scale_lo = MIN_DEPLOYED_FOR_FULL_RATE as int / lower as int;
        assert(scale_lo >= 1) by {
            lemma_div_is_ordered_by_denominator(
                MIN_DEPLOYED_FOR_FULL_RATE as int,
                lower as int,
                MIN_DEPLOYED_FOR_FULL_RATE as int,
            );
            assert(MIN_DEPLOYED_FOR_FULL_RATE as int / MIN_DEPLOYED_FOR_FULL_RATE as int == 1)
                by {
                lemma_div_multiples_vanish(1, MIN_DEPLOYED_FOR_FULL_RATE as int);
            }
        }
        assert(r * scale_lo >= r * 1) by (nonlinear_arith)
            requires
                r >= 0,
                scale_lo >= 1,
        ;
        if higher < MIN_DEPLOYED_FOR_FULL_RATE {
            let scale_hi = MIN_DEPLOYED_FOR_FULL_RATE as int / higher as int;
            lemma_div_is_ordered_by_denominator(
                MIN_DEPLOYED_FOR_FULL_RATE as int,
                lower as int,
                higher as int,
            );
            assert(r * scale_lo >= r * scale_hi) by (nonlinear_arith)
                requires
                    r >= 0,
                    scale_lo >= scale_hi,
            ;
        }
    }
}

} // verus!
