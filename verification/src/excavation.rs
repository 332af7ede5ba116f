//! The excavation: the per-dimension-per-tick ledger that escrows deposited
//! capital, resolves the random draw, and records the outcome.

use vstd::prelude::*;
use crate::consts::AccountId;

verus! {

/// A 32-byte recent-slot hash, held as its four 64-bit little-endian words.
/// The core treats it as opaque entropy: it only folds the words together
/// and rejects the all-zero / all-ones sentinels as invalid.
#[derive(Clone, Copy, Debug, PartialEq, Eq, Structural)]
pub struct SlotHash {
    pub w0: u64,
    pub w1: u64,
    pub w2: u64,
    pub w3: u64,
}

/// The little-endian value of the eight bytes of `s` starting at `off`.
pub open spec fn le_bytes_word(s: Seq<u8>, off: int) -> int {
    s[off] + s[off + 1] * 0x100 + s[off + 2] * 0x1_0000 + s[off + 3] * 0x100_0000
        + s[off + 4] * 0x1_0000_0000 + s[off + 5] * 0x100_0000_0000
        + s[off + 6] * 0x1_0000_0000_0000 + s[off + 7] * 0x100_0000_0000_0000
}

/// The little-endian 64-bit word of `bytes` starting at `off`.
fn word_at(bytes: &[u8; 32], off: usize) -> (r: u64)
    requires
        off + 8 <= 32,
    ensures
        r == le_bytes_word(bytes@, off as int),
{
    (bytes[off] as u64) + (bytes[off + 1] as u64) * 0x100 + (bytes[off + 2] as u64) * 0x1_0000
        + (bytes[off + 3] as u64) * 0x100_0000 + (bytes[off + 4] as u64) * 0x1_0000_0000
        + (bytes[off + 5] as u64) * 0x100_0000_0000 + (bytes[off + 6] as u64)
        * 0x1_0000_0000_0000 + (bytes[off + 7] as u64) * 0x100_0000_0000_0000
}

impl SlotHash {
    /// The unresolved sentinel: every word zero.
    pub open spec fn is_zero(self) -> bool {
        self.w0 == 0 && self.w1 == 0 && self.w2 == 0 && self.w3 == 0
    }

    /// The invalid sentinel: every byte `0xff`.
    pub open spec fn is_ones(self) -> bool {
        self.w0 == u64::MAX && self.w1 == u64::MAX && self.w2 == u64::MAX && self.w3 == u64::MAX
    }

    /// The 64-bit entropy fold: the XOR of the four words.
    pub open spec fn fold(self) -> u64 {
        self.w0 ^ self.w1 ^ self.w2 ^ self.w3
    }

    /// The all-zero hash an unresolved excavation carries.
    pub fn zeroed() -> (h: SlotHash)
        ensures
            h.is_zero(),
            h == (SlotHash { w0: 0, w1: 0, w2: 0, w3: 0 }),
    {
        SlotHash { w0: 0, w1: 0, w2: 0, w3: 0 }
    }

    /// The draw value this hash yields, or `None` for the two sentinels
    /// (all-zero: unresolved; all-ones: invalid fill).
    pub fn entropy(&self) -> (r: Option<u64>)
        ensures
            r == (if self.is_zero() || self.is_ones() {
                None::<u64>
            } else {
                Some(self.fold())
            }),
    {
        if (self.w0 == 0 && self.w1 == 0 && self.w2 == 0 && self.w3 == 0) || (self.w0 == u64::MAX
            && self.w1 == u64::MAX && self.w2 == u64::MAX && self.w3 == u64::MAX) {
            return None;
        }
        Some(self.w0 ^ self.w1 ^ self.w2 ^ self.w3)
    }

    /// Reads the four little-endian words out of a raw 32-byte hash.
    pub fn from_bytes(bytes: &[u8; 32]) -> (h: SlotHash)
        ensures
            h.w0 == le_bytes_word(bytes@, 0),
            h.w1 == le_bytes_word(bytes@, 8),
            h.w2 == le_bytes_word(bytes@, 16),
            h.w3 == le_bytes_word(bytes@, 24),
    {
        SlotHash {
            w0: word_at(bytes, 0),
            w1: word_at(bytes, 8),
            w2: word_at(bytes, 16),
            w3: word_at(bytes, 24),
        }
    }
}

/// Per-tick mining state for a dimension. Created lazily by the first
/// deposit targeting `(dimension, tick)`, resolved exactly once, and
/// closeable after expiry so the rent can be reclaimed.
#[derive(Clone, Copy, Debug, PartialEq, Eq, Structural)]
pub struct Excavation {
    /// The tick number this excavation is for.
    pub id: u64,
    /// The dimension this excavation is on.
    pub dimension_id: u64,
    /// The hash of the end slot, used for the draw; all-zero until resolved.
    pub slot_hash: SlotHash,
    /// The slot at which claims for this excavation expire.
    pub expires_at: u64,
    /// The account to receive rent when this record is closed.
    pub rent_payer: AccountId,
    /// The total lamports deployed in this excavation (after fees).
    pub total_deployed: u64,
    /// The total number of unique miners in this excavation.
    pub total_miners: u64,
    /// Whether this excavation hit (1) or missed (0).
    pub did_hit: u64,
    /// The amount of LUXITE distributed by this excavation.
    pub luxite_distributed: u64,
}

impl Excavation {
    /// Whether this excavation has been resolved.
    pub open spec fn processed(self) -> bool {
        !self.slot_hash.is_zero()
    }

    /// Whether this excavation was resolved as a hit.
    pub open spec fn spec_hit(self) -> bool {
        self.did_hit == 1
    }

    /// The record the first deposit into `(dimension, tick)` writes.
    pub fn new(id: u64, dimension_id: u64, rent_payer: AccountId) -> (e: Excavation)
        ensures
            e.id == id,
            e.dimension_id == dimension_id,
            e.rent_payer == rent_payer,
            !e.processed(),
            e.expires_at == 0,
            e.total_deployed == 0,
            e.total_miners == 0,
            e.did_hit == 0,
            e.luxite_distributed == 0,
    {
        Excavation {
            id,
            dimension_id,
            slot_hash: SlotHash::zeroed(),
            expires_at: 0,
            rent_payer,
            total_deployed: 0,
            total_miners: 0,
            did_hit: 0,
            luxite_distributed: 0,
        }
    }

    /// The draw value from the slot hash, or `None` while the hash is a
    /// sentinel (unresolved, or an invalid all-ones fill).
    pub fn rng(&self) -> (r: Option<u64>)
        ensures
            r == (if self.slot_hash.is_zero() || self.slot_hash.is_ones() {
                None::<u64>
            } else {
                Some(self.slot_hash.fold())
            }),
    {
        self.slot_hash.entropy()
    }

    /// Whether this excavation was a hit.
    pub fn hit(&self) -> (r: bool)
        ensures
            r == self.spec_hit(),
    {
        self.did_hit == 1
    }

    /// Whether this excavation has been resolved.
    pub fn is_processed(&self) -> (r: bool)
        ensures
            r == self.processed(),
    {
        let h = self.slot_hash;
        !(h.w0 == 0 && h.w1 == 0 && h.w2 == 0 && h.w3 == 0)
    }
}

} // verus!
