//! Protocol parameters shared by the core ledger operations.

use vstd::prelude::*;

verus! {

/// One LUXITE token, denominated in indivisible units (six decimals).
pub const ONE_LUXITE: u64 = 1_000_000;

/// The maximum token supply (one billion tokens).
pub const MAX_SUPPLY: u64 = 1_000_000_000 * ONE_LUXITE;

/// The duration of one day, in seconds.
pub const ONE_DAY: i64 = 24 * 60 * 60;

/// The number of slots in one minute.
pub const ONE_MINUTE_SLOTS: u64 = 150;

/// The number of slots in one hour.
pub const ONE_HOUR_SLOTS: u64 = 60 * ONE_MINUTE_SLOTS;

/// The number of slots in twelve hours.
pub const TWELVE_HOURS_SLOTS: u64 = 12 * ONE_HOUR_SLOTS;

/// The number of slots in one day.
pub const ONE_DAY_SLOTS: u64 = 24 * ONE_HOUR_SLOTS;

/// The number of slots in one tick.
pub const TICK_DURATION_SLOTS: u64 = ONE_MINUTE_SLOTS;

/// The number of slots of breather between rounds.
pub const INTERMISSION_SLOTS: u64 = 35;

/// Emission rate per tick, in basis points of the treasury emission pool.
pub const TICK_EMISSION_BPS: u64 = 14;

/// Minimum lamports deployed in a round for the full hit rate.
pub const MIN_DEPLOYED_FOR_FULL_RATE: u64 = 100_000_000;

/// The fee paid to bots when they checkpoint a miner, in lamports.
pub const CHECKPOINT_FEE: u64 = 10_000;

/// Denominator for basis-point calculations (100% = 10,000 bps).
pub const DENOMINATOR_BPS: u64 = 10_000;

/// Fee charged on lamport deployment, in basis points (1% = 100 bps).
pub const DEPLOY_FEE_BPS: u64 = 100;

/// Lamports paid to bots per transaction for auto-compounding staking yield.
pub const COMPOUND_FEE_PER_TRANSACTION: u64 = 7_000;

/// The default fee for scanning a new dimension, in lamports.
pub const DIMENSION_SCAN_FEE: u64 = 1_000_000_000;

/// Lamports in one SOL.
pub const LAMPORTS_PER_SOL: u64 = 1_000_000_000;

/// Hit rolls and richness values live on a scale of one billion.
pub const RICHNESS_SCALE: u64 = 1_000_000_000;

/// The largest effective richness a damped round can reach, leaving a
/// floor hit chance of one part per billion.
pub const RICHNESS_CEILING: u64 = 999_999_999;

/// The model of an account address: records keep only the identity tests the
/// ledger logic performs, so an address is an opaque integer key.
pub type AccountId = u64;

/// The null address; closing an automation targets this executor.
pub const NULL_ACCOUNT: AccountId = 0;

} // verus!
