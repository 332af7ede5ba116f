//! Discovery scans: drawing a dimension's richness from entropy and
//! writing its records.

use vstd::prelude::*;
use crate::config::Config;
use crate::consts::AccountId;
use crate::dimension::Dimension;
use crate::drill::Drill;
use crate::navigator::Navigator;

verus! {

/// The one-shot richness draw: a bucket by permille of the entropy, then
/// a uniform offset inside the bucket. Lower richness is rarer and hits
/// more easily.
pub open spec fn richness_of_entropy(entropy: u32) -> int {
    let roll = entropy % 10000;
    if roll < 8000 {
        750_000_000 + entropy % 250_000_001
    } else if roll < 9500 {
        500_000_000 + entropy % 250_000_001
    } else if roll < 9900 {
        250_000_000 + entropy % 250_000_001
    } else if roll < 9990 {
        100_000_000 + entropy % 150_000_001
    } else if roll < 9999 {
        20_000_000 + entropy % 80_000_001
    } else {
        (entropy % 20_000_001) as int
    }
}

/// Draws a richness score from 32 bits of slot-hash entropy.
pub fn richness_from_entropy(entropy: u32) -> (richness: u32)
    ensures
        richness == richness_of_entropy(entropy),
{
    let roll = entropy % 10000;
    if roll < 8000 {
        750_000_000 + entropy % 250_000_001
    } else if roll < 9500 {
        500_000_000 + entropy % 250_000_001
    } else if roll < 9900 {
        250_000_000 + entropy % 250_000_001
    } else if roll < 9990 {
        100_000_000 + entropy % 150_000_001
    } else if roll < 9999 {
        20_000_000 + entropy % 80_000_001
    } else {
        entropy % 20_000_001
    }
}

/// Scans a new dimension: draws its richness from the supplied entropy
/// and writes the dimension and drill records, crediting the discovery
/// on the scanner's navigator. Returns the records and the scan fee the
/// caller owes the fee collector.
pub fn scan(
    config: &Config,
    navigator: &mut Navigator,
    dimension_id: u64,
    signer: AccountId,
    entropy: u32,
    now_ts: i64,
) -> (r: (Dimension, Drill, u64))
    requires
        old(navigator).lifetime_dimensions_discovered < u64::MAX,
    ensures
        r.0 == (Dimension {
            authority: signer,
            discoverer: signer,
            id: dimension_id,
            scanned_at: now_ts,
            richness: richness_of_entropy(entropy) as u32,
        }),
        r.1.dimension_id == dimension_id && r.1.tick_id == 0 && r.1.total_deployed == 0
            && r.1.miner_count == 0 && r.1.depth == 0 && r.1.lifetime_deployed == 0
            && r.1.lifetime_rewards_luxite == 0,
        r.2 == config.scan_fee,
        *final(navigator) == (Navigator {
            lifetime_dimensions_discovered: (old(navigator).lifetime_dimensions_discovered
                + 1) as u64,
            ..*old(navigator)
        }),
{
    let richness = richness_from_entropy(entropy);
    let dimension = Dimension::new(dimension_id, signer, richness, now_ts);
    let drill = Drill::new(dimension_id);
    navigator.lifetime_dimensions_discovered = navigator.lifetime_dimensions_discovered + 1;
    (dimension, drill, config.scan_fee)
}

} // verus!
