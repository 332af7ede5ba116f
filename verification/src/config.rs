//! The config: the administrative settings singleton.

use vstd::prelude::*;
use crate::consts::AccountId;
use crate::error::LocalUniverseError;

verus! {

/// Admin address and scan-fee schedule.
#[derive(Clone, Copy, Debug, PartialEq, Eq, Structural)]
pub struct Config {
    /// The address that can update the config.
    pub admin: AccountId,
    /// The address that receives scan fees.
    pub fee_collector: AccountId,
    /// The fee for scanning a new dimension, in lamports.
    pub scan_fee: u64,
}

impl Config {
    /// The record initialization writes.
    pub fn new(admin: AccountId, fee_collector: AccountId, scan_fee: u64) -> (c: Config)
        ensures
            c == (Config { admin, fee_collector, scan_fee }),
    {
        Config { admin, fee_collector, scan_fee }
    }
}

/// Hands the admin role over; only the current admin may.
pub fn set_admin(config: &mut Config, signer: AccountId, new_admin: AccountId) -> (r: Result<
    (),
    LocalUniverseError,
>)
    ensures
        signer != old(config).admin ==> r == Err::<(), LocalUniverseError>(
            LocalUniverseError::NotAuthorized,
        ) && *final(config) == *old(config),
        signer == old(config).admin ==> r == Ok::<(), LocalUniverseError>(()) && *final(config)
            == (Config { admin: new_admin, ..*old(config) }),
{
    if config.admin != signer {
        return Err(LocalUniverseError::NotAuthorized);
    }
    config.admin = new_admin;
    Ok(())
}

/// Reprices dimension scans; only the current admin may.
pub fn set_scan_fee(config: &mut Config, signer: AccountId, new_fee: u64) -> (r: Result<
    (),
    LocalUniverseError,
>)
    ensures
        signer != old(config).admin ==> r == Err::<(), LocalUniverseError>(
            LocalUniverseError::NotAuthorized,
        ) && *final(config) == *old(config),
        signer == old(config).admin ==> r == Ok::<(), LocalUniverseError>(()) && *final(config)
            == (Config { scan_fee: new_fee, ..*old(config) }),
{
    if config.admin != signer {
        return Err(LocalUniverseError::NotAuthorized);
    }
    config.scan_fee = new_fee;
    Ok(())
}

} // verus!
