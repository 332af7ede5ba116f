//! Errors of the core ledger.
//!
//! Two classes: precondition violations (the retryable, expected failure
//! mode; the operation leaves every record unchanged) and
//! `InvariantViolation`, a bookkeeping fault that must abort the whole
//! operation with no partial write surviving.

use vstd::prelude::*;

verus! {

#[derive(Clone, Copy, Debug, PartialEq, Eq, Structural)]
pub enum LocalUniverseError {
    /// The supplied or remaining amount cannot cover the operation.
    AmountTooSmall,
    /// The signer is not the record's authority or delegated executor.
    NotAuthorized,
    /// The current slot is outside the window the operation requires.
    OutsideTickWindow,
    /// The current tick plus its intermission has not fully elapsed yet.
    TickNotEnded,
    /// A prior round's outcome is still unclaimed; checkpoint it first.
    UncheckpointedRound,
    /// The excavation is not yet closeable (not expired nor stale).
    NotCloseable,
    /// The stake was claimed too recently for a bot compound.
    CompoundTooSoon,
    /// A ledger invariant would be broken (drifted external balances or an
    /// out-of-range sum); the whole operation is aborted.
    InvariantViolation,
}

} // verus!
