//! One-time protocol initialization.

use vstd::prelude::*;
use crate::config::Config;
use crate::consts::{AccountId, DIMENSION_SCAN_FEE, TICK_DURATION_SLOTS};
use crate::grid::Grid;
use crate::treasury::Treasury;

verus! {

/// The three singletons initialization writes: the admin's config at the
/// default scan fee, the clock at tick zero starting next slot, and an
/// empty treasury.
pub fn initialize(admin: AccountId, fee_collector: AccountId, now_slot: u64) -> (r: (
    Config,
    Grid,
    Treasury,
))
    requires
        now_slot + 1 + TICK_DURATION_SLOTS <= u64::MAX,
    ensures
        r.0 == (Config { admin, fee_collector, scan_fee: DIMENSION_SCAN_FEE }),
        r.1.tick_id == 0 && r.1.start_slot == now_slot + 1 && r.1.end_slot == now_slot + 1
            + TICK_DURATION_SLOTS && r.1.epoch_id == 0,
        r.2.sol_balance == 0 && r.2.luxite_balance == 0 && r.2.miner_rewards_factor@ == 0
            && r.2.stake_rewards_factor@ == 0 && r.2.total_refined == 0 && r.2.total_staked == 0
            && r.2.total_unclaimed == 0 && r.2.total_emitted == 0 && r.2.total_burned == 0,
{
    (Config::new(admin, fee_collector, DIMENSION_SCAN_FEE), Grid::new(now_slot), Treasury::new())
}

} // verus!
