//! A dimension: a static per-resource hit-probability descriptor.

use vstd::prelude::*;
use crate::consts::AccountId;

verus! {

/// Created once by a discovery scan; immutable thereafter except for
/// authority transfer. `richness` is a miss threshold on a scale of one
/// billion: lower means an easier hit.
#[derive(Clone, Copy, Debug, PartialEq, Eq, Structural)]
pub struct Dimension {
    /// The authority of this dimension record.
    pub authority: AccountId,
    /// The wallet that originally discovered this dimension.
    pub discoverer: AccountId,
    /// The dimension id.
    pub id: u64,
    /// Unix timestamp when scanned.
    pub scanned_at: i64,
    /// Richness score (nine decimals, lower = better hit rate).
    pub richness: u32,
}

impl Dimension {
    /// The record a discovery scan writes.
    pub fn new(id: u64, discoverer: AccountId, richness: u32, now_ts: i64) -> (d: Dimension)
        ensures
            d.authority == discoverer,
            d.discoverer == discoverer,
            d.id == id,
            d.scanned_at == now_ts,
            d.richness == richness,
    {
        Dimension { authority: discoverer, discoverer, id, scanned_at: now_ts, richness }
    }
}

} // verus!
