//! The staking ledger, buyback settlement, automation and admin paths.

use localuniverse::automation::{
    automate, deploy_automated, reload_sol, AutomateOutcome, Automation,
};
use localuniverse::buyback::{buyback_settle, fund_treasury, wrap, BuybackOutcome, SwapObservation};
use localuniverse::config::{set_admin, set_scan_fee, Config};
use localuniverse::consts::{
    CHECKPOINT_FEE, COMPOUND_FEE_PER_TRANSACTION, DIMENSION_SCAN_FEE, LAMPORTS_PER_SOL,
    NULL_ACCOUNT, ONE_DAY, TICK_DURATION_SLOTS,
};
use localuniverse::drill::Drill;
use localuniverse::error::LocalUniverseError;
use localuniverse::excavation::Excavation;
use localuniverse::grid::Grid;
use localuniverse::initialize::initialize;
use localuniverse::miner::Miner;
use localuniverse::navigator::Navigator;
use localuniverse::numeric::Numeric;
use localuniverse::scan::{richness_from_entropy, scan};
use localuniverse::stake::{
    claim_yield, compound_yield, stake_deposit, stake_withdraw, Stake,
};
use localuniverse::treasury::Treasury;

const ADMIN: u64 = 1;
const COLLECTOR: u64 = 2;
const ALICE: u64 = 11;
const BOT: u64 = 21;
const DIM: u64 = 7;

fn sound_swap(sol_in: u64, luxite_out: u64) -> SwapObservation {
    SwapObservation {
        luxite_before: 500,
        luxite_after: 500 + luxite_out,
        sol_before: sol_in,
        sol_after: 0,
        mint_supply_before: 9_000_000,
        mint_supply_after: 9_000_000,
        lamports_before: 80_000,
        lamports_after: 80_000,
    }
}

#[test]
fn initialize_writes_the_three_singletons() {
    let (config, grid, treasury) = initialize(ADMIN, COLLECTOR, 100);
    assert_eq!(config, Config { admin: ADMIN, fee_collector: COLLECTOR, scan_fee: DIMENSION_SCAN_FEE });
    assert_eq!(grid.tick_id, 0);
    assert_eq!(grid.start_slot, 101);
    assert_eq!(grid.end_slot, 101 + TICK_DURATION_SLOTS);
    assert_eq!(treasury, Treasury::new());
}

#[test]
fn admin_settings_are_gated_on_the_admin() {
    let mut config = Config::new(ADMIN, COLLECTOR, DIMENSION_SCAN_FEE);
    assert_eq!(set_scan_fee(&mut config, ALICE, 5), Err(LocalUniverseError::NotAuthorized));
    assert_eq!(config.scan_fee, DIMENSION_SCAN_FEE);
    assert_eq!(set_scan_fee(&mut config, ADMIN, 5), Ok(()));
    assert_eq!(config.scan_fee, 5);

    assert_eq!(set_admin(&mut config, ALICE, ALICE), Err(LocalUniverseError::NotAuthorized));
    assert_eq!(set_admin(&mut config, ADMIN, ALICE), Ok(()));
    assert_eq!(config.admin, ALICE);
    assert_eq!(set_admin(&mut config, ALICE, ADMIN), Ok(()));
}

#[test]
fn scan_buckets_cover_the_richness_scale() {
    // A roll of 0 per ten thousand lands in the common bucket.
    assert_eq!(richness_from_entropy(0), 750_000_000);
    // A roll of 9999 is the rarest bucket: richness below 20 million.
    assert_eq!(richness_from_entropy(9999), 9999);
    assert!(richness_from_entropy(4_009_999) < 20_000_001);
    // Rolls 9990..9998 land in the 20..100 million band.
    assert_eq!(richness_from_entropy(19_990), 20_000_000 + 19_990 % 80_000_001);
    // Rolls 9900..9989 land in the 100..250 million band.
    assert_eq!(richness_from_entropy(9989), 100_000_000 + 9989 % 150_000_001);
}

#[test]
fn scan_writes_the_dimension_and_credits_the_navigator() {
    let config = Config::new(ADMIN, COLLECTOR, 4242);
    let mut navigator = Navigator::new(ALICE, 50);
    let (dimension, drill, fee) = scan(&config, &mut navigator, DIM, ALICE, 12345, 60);
    assert_eq!(dimension.id, DIM);
    assert_eq!(dimension.discoverer, ALICE);
    assert_eq!(dimension.authority, ALICE);
    assert_eq!(dimension.scanned_at, 60);
    assert_eq!(dimension.richness, richness_from_entropy(12345));
    assert_eq!(drill, Drill::new(DIM));
    assert_eq!(fee, 4242);
    assert_eq!(navigator.lifetime_dimensions_discovered, 1);
}

#[test]
fn stake_deposit_and_withdraw_cap_at_the_real_balances() {
    let mut treasury = Treasury::new();
    let mut stake = Stake::new(ALICE, &treasury);

    // The sender only holds 800, so a deposit of 1000 stakes 800.
    let staked = stake.deposit(1000, 10, &mut treasury, 800);
    assert_eq!(staked, 800);
    assert_eq!(stake.balance, 800);
    assert_eq!(stake.last_deposit_at, 10);
    assert_eq!(treasury.total_staked, 800);

    // A withdrawal of 1000 caps at the staked 800.
    let withdrawn = stake.withdraw(1000, 20, &mut treasury);
    assert_eq!(withdrawn, 800);
    assert_eq!(stake.balance, 0);
    assert_eq!(stake.last_withdraw_at, 20);
    assert_eq!(treasury.total_staked, 0);
}

#[test]
fn stake_operations_are_gated_on_the_authority() {
    let mut treasury = Treasury::new();
    let mut stake = Stake::new(ALICE, &treasury);
    let before = stake;

    let r = stake_deposit(&mut stake, &mut treasury, BOT, 1000, 0, 1000, 10);
    assert_eq!(r, Err(LocalUniverseError::NotAuthorized));
    let r = stake_withdraw(&mut stake, &mut treasury, BOT, 1000, 10);
    assert_eq!(r, Err(LocalUniverseError::NotAuthorized));
    let r = claim_yield(&mut stake, &treasury, BOT, 1000, 10);
    assert_eq!(r, Err(LocalUniverseError::NotAuthorized));
    assert_eq!(stake, before);
    assert_eq!(treasury, Treasury::new());
}

#[test]
fn stake_deposit_escrows_the_compound_fee() {
    let mut treasury = Treasury::new();
    let mut stake = Stake::new(ALICE, &treasury);

    let r = stake_deposit(&mut stake, &mut treasury, ALICE, 1000, 7_000, 5000, 10);
    assert_eq!(r, Ok(1000));
    assert_eq!(stake.balance, 1000);
    assert_eq!(stake.compound_fee_reserve, 7_000);
    assert_eq!(treasury.total_staked, 1000);

    // Yield arrives, then the owner claims part of it directly.
    buyback_settle(&mut treasury, sound_swap(70_000, 100)).unwrap();
    let r = claim_yield(&mut stake, &treasury, ALICE, 4, 20);
    assert_eq!(r, Ok(4));
    assert_eq!(stake.rewards, 6);

    let r = stake_withdraw(&mut stake, &mut treasury, ALICE, 300, 30);
    assert_eq!(r, Ok(300));
    assert_eq!(stake.balance, 700);
    assert_eq!(treasury.total_staked, 700);
}

#[test]
fn buyback_shares_a_tenth_with_stakers_and_burns_the_rest() {
    let mut treasury = Treasury::new();
    let mut stake = Stake::new(ALICE, &treasury);
    stake.deposit(1000, 10, &mut treasury, 1000);

    let r = buyback_settle(&mut treasury, sound_swap(70_000, 100));
    assert_eq!(r, Ok(BuybackOutcome { burned: 90, shared: 10 }));
    assert_eq!(treasury.total_burned, 90);
    assert_eq!(treasury.stake_rewards_factor, Numeric::from_fraction(10, 1000));

    // The staker's yield appears on the next settlement: the whole
    // shared 10, since Alice is the only staker.
    let claimed = stake.claim(u64::MAX, 30, &treasury);
    assert_eq!(claimed, 10);
    assert_eq!(stake.lifetime_rewards, 10);
}

#[test]
fn compound_moves_rewards_into_the_staked_balance() {
    let mut treasury = Treasury::new();
    let mut stake = Stake::new(ALICE, &treasury);
    stake.deposit(1000, 10, &mut treasury, 1000);
    buyback_settle(&mut treasury, sound_swap(70_000, 100)).unwrap();

    let amount = stake.compound(&mut treasury);
    assert_eq!(amount, 10);
    assert_eq!(stake.balance, 1010);
    assert_eq!(stake.rewards, 0);
    assert_eq!(stake.lifetime_rewards, 10);
    assert_eq!(treasury.total_staked, 1010);
}

#[test]
fn buyback_with_no_stakers_burns_everything() {
    let mut treasury = Treasury::new();
    let r = buyback_settle(&mut treasury, sound_swap(70_000, 100));
    assert_eq!(r, Ok(BuybackOutcome { burned: 100, shared: 0 }));
    assert_eq!(treasury.stake_rewards_factor, Numeric::zero());
}

#[test]
fn buyback_rejects_empty_or_drifted_swaps() {
    let mut treasury = Treasury::new();
    let before = treasury;

    let r = buyback_settle(&mut treasury, sound_swap(0, 100));
    assert_eq!(r, Err(LocalUniverseError::AmountTooSmall));

    let mut drifted = sound_swap(70_000, 100);
    drifted.mint_supply_after = 8_999_999;
    let r = buyback_settle(&mut treasury, drifted);
    assert_eq!(r, Err(LocalUniverseError::InvariantViolation));

    let mut leftover = sound_swap(70_000, 100);
    leftover.sol_after = 3;
    let r = buyback_settle(&mut treasury, leftover);
    assert_eq!(r, Err(LocalUniverseError::InvariantViolation));

    let mut drained = sound_swap(70_000, 100);
    drained.lamports_after = 79_999;
    let r = buyback_settle(&mut treasury, drained);
    assert_eq!(r, Err(LocalUniverseError::InvariantViolation));

    assert_eq!(treasury, before);
}

#[test]
fn wrap_caps_and_keeps_the_rent_minimum() {
    let mut treasury = Treasury::new();
    treasury.sol_balance = 250 * LAMPORTS_PER_SOL;

    // Capped at 100 SOL per wrap.
    let r = wrap(&mut treasury, u64::MAX, 300 * LAMPORTS_PER_SOL, 2000);
    assert_eq!(r, Ok(100 * LAMPORTS_PER_SOL));
    assert_eq!(treasury.sol_balance, 150 * LAMPORTS_PER_SOL);

    // Capped at the tracked balance and the request.
    let r = wrap(&mut treasury, 5, 300 * LAMPORTS_PER_SOL, 2000);
    assert_eq!(r, Ok(5));

    // Never below the account's rent minimum.
    let r = wrap(&mut treasury, 100, 90, 2000);
    assert_eq!(r, Err(LocalUniverseError::AmountTooSmall));
}

#[test]
fn fund_treasury_grows_the_emission_pool() {
    let mut treasury = Treasury::new();
    fund_treasury(&mut treasury, 123_456);
    assert_eq!(treasury.luxite_balance, 123_456);
}

#[test]
fn compound_yield_restakes_and_charges_the_bot_fee() {
    let mut treasury = Treasury::new();
    let mut stake = Stake::new(ALICE, &treasury);
    stake.deposit(1000, 10, &mut treasury, 1000);
    stake.compound_fee_reserve = COMPOUND_FEE_PER_TRANSACTION * 2;

    // Yield arrives through a buyback.
    buyback_settle(&mut treasury, sound_swap(70_000, 100)).unwrap();

    let r = compound_yield(&mut stake, &mut treasury, 1_000_000, ONE_DAY + 11);
    assert_eq!(r, Ok(10));
    assert_eq!(stake.balance, 1010);
    assert_eq!(stake.rewards, 0);
    assert_eq!(stake.compound_fee_reserve, COMPOUND_FEE_PER_TRANSACTION);
    assert_eq!(stake.last_claim_at, ONE_DAY + 11);
    assert_eq!(treasury.total_staked, 1010);

    // Too soon to compound again.
    let r = compound_yield(&mut stake, &mut treasury, 1_000_000, ONE_DAY + 12);
    assert_eq!(r, Err(LocalUniverseError::CompoundTooSoon));

    // And never without a funded fee reserve.
    stake.compound_fee_reserve = COMPOUND_FEE_PER_TRANSACTION - 1;
    let r = compound_yield(&mut stake, &mut treasury, 1_000_000, ONE_DAY * 3);
    assert_eq!(r, Err(LocalUniverseError::AmountTooSmall));
}

#[test]
fn automate_creates_updates_and_closes() {
    let mut miner = Miner::new(ALICE, DIM, 0);

    // First call creates the automation and funds the checkpoint escrow.
    let r = automate(None, &mut miner, ALICE, DIM, 600, 5000, 40, 1, BOT).unwrap();
    let automation = match r {
        AutomateOutcome::Updated { automation, deposit_collected, checkpoint_topup } => {
            assert_eq!(deposit_collected, 5000);
            assert_eq!(checkpoint_topup, CHECKPOINT_FEE);
            automation
        },
        other => panic!("expected an update, got {:?}", other),
    };
    assert_eq!(automation.authority, ALICE);
    assert_eq!(automation.executor, BOT);
    assert_eq!(automation.amount, 600);
    assert_eq!(automation.fee, 40);
    assert_eq!(automation.reload, 1);
    assert_eq!(automation.balance, 5000);
    assert_eq!(miner.checkpoint_fee, CHECKPOINT_FEE);

    // A signer who does not own the miner record cannot touch it.
    let r = automate(None, &mut miner, BOT, DIM, 1, 1, 1, 1, BOT);
    assert_eq!(r, Err(LocalUniverseError::NotAuthorized));

    // The null executor closes it and refunds the balance.
    let r = automate(Some(automation), &mut miner, ALICE, DIM, 0, 0, 0, 0, NULL_ACCOUNT).unwrap();
    assert_eq!(r, AutomateOutcome::Closed { refund: 5000, checkpoint_topup: 0 });
}

#[test]
fn automated_deploys_spend_the_escrow_and_self_close() {
    let grid = Grid { tick_id: 5, start_slot: 1000, end_slot: 1000 + TICK_DURATION_SLOTS, epoch_id: 0 };
    let mut drill = Drill::new(DIM);
    let mut excavation = Excavation::new(5, DIM, ALICE);
    let mut miner = Miner::new(ALICE, DIM, 0);
    let mut treasury = Treasury::new();
    let automation = Automation {
        amount: 600,
        authority: ALICE,
        balance: 1300,
        dimension_id: DIM,
        executor: BOT,
        fee: 40,
        strategy: 0,
        reload: 1,
    };

    // Only the executor may run it.
    let r = deploy_automated(
        &grid, &mut drill, &mut excavation, &mut miner, &mut treasury, automation, ALICE, 1000,
    );
    assert_eq!(r, Err(LocalUniverseError::NotAuthorized));

    // First run: 640 leaves the escrow; 660 remain, enough for one more.
    let (after, receipt, charge) = deploy_automated(
        &grid, &mut drill, &mut excavation, &mut miner, &mut treasury, automation, BOT, 1000,
    )
    .unwrap();
    let automation = after.expect("should stay open");
    assert_eq!(automation.balance, 660);
    assert_eq!(receipt.fee_to_treasury + receipt.escrowed, 600);
    assert_eq!(receipt.escrowed, 594);
    assert_eq!(charge.executor_fee, 40);
    assert_eq!(charge.closed_refund, 0);
    assert_eq!(miner.deployed, 594);

    // Second run drains it below one more round: it self-closes and
    // refunds the residue.
    let (after, _, charge) = deploy_automated(
        &grid, &mut drill, &mut excavation, &mut miner, &mut treasury, automation, BOT, 1001,
    )
    .unwrap();
    assert!(after.is_none());
    assert_eq!(charge.closed_refund, 20);
    assert_eq!(miner.deployed, 1188);

    // An empty escrow rejects the run before anything moves.
    let broke = Automation { balance: 639, ..automation };
    let before = miner;
    let r = deploy_automated(
        &grid, &mut drill, &mut excavation, &mut miner, &mut treasury, broke, BOT, 1002,
    );
    assert_eq!(r, Err(LocalUniverseError::AmountTooSmall));
    assert_eq!(miner, before);

    // A funded run outside the mining window propagates the deposit's
    // own rejection, with every record unchanged.
    let funded = Automation { balance: 10_000, ..automation };
    let r = deploy_automated(
        &grid,
        &mut drill,
        &mut excavation,
        &mut miner,
        &mut treasury,
        funded,
        BOT,
        grid.end_slot,
    );
    assert_eq!(r, Err(LocalUniverseError::OutsideTickWindow));
    assert_eq!(miner, before);
}

#[test]
fn reload_sol_recycles_winnings_into_the_escrow() {
    let mut automation = Automation {
        amount: 600,
        authority: ALICE,
        balance: 100,
        dimension_id: DIM,
        executor: BOT,
        fee: 40,
        strategy: 0,
        reload: 1,
    };
    let mut miner = Miner::new(ALICE, DIM, 0);
    miner.rewards_sol = 900;

    // Gated on the executor and the opt-in flag.
    let r = reload_sol(&mut automation, &mut miner, ALICE, DIM, 50);
    assert_eq!(r, Err(LocalUniverseError::NotAuthorized));
    automation.reload = 0;
    let r = reload_sol(&mut automation, &mut miner, BOT, DIM, 50);
    assert_eq!(r, Err(LocalUniverseError::NotAuthorized));
    automation.reload = 1;

    let r = reload_sol(&mut automation, &mut miner, BOT, DIM, 50);
    assert_eq!(r, Ok(900));
    assert_eq!(automation.balance, 1000);
    assert_eq!(miner.rewards_sol, 0);
    assert_eq!(miner.lifetime_rewards_sol, 900);
    assert_eq!(miner.last_claim_sol_at, 50);
}
