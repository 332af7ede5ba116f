//! Verified core of a tick-synchronized, probabilistic resource-extraction
//! and reward-accrual ledger.
//!
//! Miners commit lamports to a shared resource ("dimension") once per discrete
//! time period ("tick"); each period resolves through a random draw into a hit
//! or a miss that either returns capital plus a token emission or forfeits the
//! capital to a shared treasury. A parallel staking ledger shares protocol
//! revenue with token holders through the same lazy-settlement accrual
//! primitive.
//!
//! The crate holds only the bookkeeping: entity records made of plain
//! integers, and the state transitions on them, each with a contract. Account
//! storage, signature checks, address derivation and token transfers live
//! outside; callers hand in pre-validated records and plain values (slots,
//! timestamps, balances, a 32-byte slot hash folded to four words) and apply
//! the returned lamport movements themselves.

pub mod automation;
pub mod buyback;
pub mod checkpoint;
pub mod claims;
pub mod close;
pub mod config;
pub mod consts;
pub mod deploy;
pub mod dimension;
pub mod drill;
pub mod error;
pub mod excavate;
pub mod excavation;
pub mod grid;
pub mod initialize;
pub mod laws;
pub mod miner;
pub mod navigator;
pub mod numeric;
pub mod scan;
pub mod stake;
pub mod tick;
pub mod treasury;
