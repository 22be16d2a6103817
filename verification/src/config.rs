//! The limits that a pool is run with.

use vstd::prelude::*;

verus! {

/// The limits of one pool.  They are chosen when the pool is made and are
/// handed to every operation that enforces one of them.
#[derive(Debug, Clone, Copy, PartialEq, Eq, Structural)]
pub struct Limits {
    /// The requests that one key may serve within a minute.
    pub rpm_limit: u32,
    /// The requests that one key may serve within a day.
    pub rpd_limit: u32,
    /// The requests that the whole pool may serve within a minute.
    pub tpm_limit: u32,
    /// The seconds that a deactivated key rests before it is reinstated.
    pub key_cooldown_seconds: i64,
}

impl Limits {
    pub fn new(rpm_limit: u32, rpd_limit: u32, tpm_limit: u32, key_cooldown_seconds: i64) -> (limits:
        Limits)
        ensures
            limits.rpm_limit == rpm_limit,
            limits.rpd_limit == rpd_limit,
            limits.tpm_limit == tpm_limit,
            limits.key_cooldown_seconds == key_cooldown_seconds,
    {
        Limits { rpm_limit, rpd_limit, tpm_limit, key_cooldown_seconds }
    }
}

} // verus!
