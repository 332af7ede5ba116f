//! The fixed-point accrual type and the claim-fee redistribution ledger.

use localuniverse::claims::{claim_luxite, claim_sol};
use localuniverse::error::LocalUniverseError;
use localuniverse::miner::Miner;
use localuniverse::navigator::Navigator;
use localuniverse::numeric::Numeric;
use localuniverse::treasury::Treasury;

const ALICE: u64 = 11;
const BOB: u64 = 12;
const DIM: u64 = 7;

#[test]
fn numeric_represents_integers_exactly() {
    assert_eq!(Numeric::zero().to_u64(), 0);
    assert_eq!(Numeric::from_u64(12345).to_u64(), 12345);
    assert_eq!(Numeric::from_u64(u64::MAX).to_u64(), u64::MAX);
    assert_eq!(Numeric::from_u64(7), Numeric::from_fraction(14, 2));
}

#[test]
fn numeric_addition_and_subtraction_are_exact() {
    let a = Numeric::from_u64(10);
    let b = Numeric::from_fraction(1, 2);
    let sum = a.add(b);
    assert_eq!(sum.to_u64(), 10);
    assert_eq!(sum.sub(b), a);
    assert!(b.lt(&a));
    assert!(b.le(&b));
    assert!(!a.le(&b));
}

#[test]
fn numeric_keeps_tiny_fractions_from_vanishing() {
    // One indivisible unit over a supply of 10^15 must survive.
    let tiny = Numeric::from_fraction(1, 1_000_000_000_000_000);
    assert!(Numeric::zero().lt(&tiny));
    // Multiplying back by the denominator recovers the unit, with the
    // fixed-point remainder truncated toward zero.
    assert_eq!(tiny.mul_u64(1_000_000_000_000_000).to_u64(), 1);
}

#[test]
fn numeric_multiplication_floors_toward_zero() {
    // 1/3 of 1000, at full precision, floors to 333.
    let third = Numeric::from_fraction(1, 3);
    assert_eq!(third.mul_u64(1000).to_u64(), 333);
    // The remainder is retained inside the fraction, not rounded up.
    assert_eq!(third.mul_u64(3).to_u64(), 0);
}

#[test]
fn claim_charges_ten_percent_and_redistributes_it() {
    let mut treasury = Treasury::new();
    treasury.total_unclaimed = 300;

    let mut alice = Miner::new(ALICE, DIM, 0);
    alice.rewards_luxite = 100;
    let mut bob = Miner::new(BOB, DIM, 0);
    bob.rewards_luxite = 200;

    let mut nav = Navigator::new(ALICE, 0);
    let paid = claim_luxite(&mut alice, &mut nav, &mut treasury, ALICE, 777).unwrap();

    // 10% fee on the unrefined 100; 90 reach the claimant.
    assert_eq!(paid, 90);
    assert_eq!(alice.rewards_luxite, 0);
    assert_eq!(alice.lifetime_rewards_luxite, 90);
    assert_eq!(alice.last_claim_luxite_at, 777);
    assert_eq!(nav.lifetime_rewards_luxite, 90);
    assert_eq!(treasury.total_unclaimed, 200);
    assert_eq!(treasury.total_refined, 10);
    assert_eq!(treasury.miner_rewards_factor, Numeric::from_fraction(10, 200));

    // The fee accrues to whoever has not claimed yet: Bob's 200 unclaimed
    // earn him the whole 10 as refined rewards on his next settlement.
    bob.update_rewards(&treasury);
    assert_eq!(bob.refined_luxite, 10);
    assert_eq!(bob.rewards_factor, treasury.miner_rewards_factor);

    // Bob's own claim pays refined plus unrefined, with the fee charged
    // on the unrefined part only — and with nobody left unclaimed, no
    // fee at all.
    let mut bob_nav = Navigator::new(BOB, 0);
    let paid = claim_luxite(&mut bob, &mut bob_nav, &mut treasury, BOB, 778).unwrap();
    assert_eq!(paid, 210);
    assert_eq!(treasury.total_unclaimed, 0);
}

#[test]
fn tiny_claims_floor_the_fee_to_zero() {
    let mut treasury = Treasury::new();
    treasury.total_unclaimed = 500;
    let mut alice = Miner::new(ALICE, DIM, 0);
    alice.rewards_luxite = 9;
    let mut nav = Navigator::new(ALICE, 0);
    // 10% of 9 floors to 0: the whole amount reaches the claimant and
    // the factor does not move.
    let paid = claim_luxite(&mut alice, &mut nav, &mut treasury, ALICE, 777).unwrap();
    assert_eq!(paid, 9);
    assert_eq!(treasury.total_refined, 0);
    assert_eq!(treasury.miner_rewards_factor, Numeric::zero());
}

#[test]
fn claim_with_nothing_pending_pays_zero_and_leaves_the_treasury_alone() {
    let mut treasury = Treasury::new();
    treasury.total_unclaimed = 55;
    let before = treasury;
    let mut alice = Miner::new(ALICE, DIM, 0);
    let mut nav = Navigator::new(ALICE, 0);
    let paid = claim_luxite(&mut alice, &mut nav, &mut treasury, ALICE, 777).unwrap();
    assert_eq!(paid, 0);
    assert_eq!(treasury, before);
    assert_eq!(alice.last_claim_luxite_at, 0);
}

#[test]
fn claims_require_the_authority() {
    let mut treasury = Treasury::new();
    let mut alice = Miner::new(ALICE, DIM, 0);
    alice.rewards_luxite = 100;
    alice.rewards_sol = 40;
    let mut nav = Navigator::new(ALICE, 0);
    let before = alice;

    let r = claim_luxite(&mut alice, &mut nav, &mut treasury, BOB, 777);
    assert_eq!(r, Err(LocalUniverseError::NotAuthorized));
    let r = claim_sol(&mut alice, &mut nav, BOB, 777);
    assert_eq!(r, Err(LocalUniverseError::NotAuthorized));
    assert_eq!(alice, before);
}

#[test]
fn claim_sol_moves_the_settled_balance_without_a_fee() {
    let mut alice = Miner::new(ALICE, DIM, 0);
    alice.rewards_sol = 4321;
    let mut nav = Navigator::new(ALICE, 0);
    let paid = claim_sol(&mut alice, &mut nav, ALICE, 900).unwrap();
    assert_eq!(paid, 4321);
    assert_eq!(alice.rewards_sol, 0);
    assert_eq!(alice.lifetime_rewards_sol, 4321);
    assert_eq!(alice.last_claim_sol_at, 900);
    assert_eq!(nav.lifetime_rewards_sol, 4321);
}

#[test]
fn update_rewards_is_settled_lazily_and_never_twice() {
    let mut treasury = Treasury::new();
    treasury.miner_rewards_factor = Numeric::from_fraction(50, 1000);

    let mut alice = Miner::new(ALICE, DIM, 0);
    alice.rewards_luxite = 1000;
    alice.update_rewards(&treasury);
    // floor(50/1000 x 1000) = 50 refined.
    assert_eq!(alice.refined_luxite, 50);

    // Settling again against the same factor accrues nothing more.
    alice.update_rewards(&treasury);
    assert_eq!(alice.refined_luxite, 50);
}
