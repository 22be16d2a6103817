//! How long a deactivated key still rests.

use crate::models::{ApiKey, KeyRecord};
use crate::timestamp::{cooldown_left, Timestamp};
use vstd::prelude::*;

verus! {

/// The whole seconds that a key still rests at `now` under a cooldown of
/// `cooldown_seconds`, counted up to `i64::MAX`: zero for a key that was not
/// deactivated, and zero once less than a second of the cooldown is left.
pub open spec fn expiry(record: KeyRecord, now: Timestamp, cooldown_seconds: i64) -> int {
    match record.deactivated_at {
        Some(since) => {
            let left = cooldown_left(since, now@, cooldown_seconds as int);
            if left <= i64::MAX {
                left
            } else {
                i64::MAX as int
            }
        },
        None => 0,
    }
}

/// The whole seconds that `key` still rests at `now`.
pub fn api_key_expiry_at(key: &ApiKey, now: &Timestamp, cooldown_seconds: i64) -> (seconds: i64)
    ensures
        seconds == expiry(key@, *now, cooldown_seconds),
{
    match &key.deactivated_at {
        Some(since) => since.cooldown_left_at(now, cooldown_seconds),
        None => 0,
    }
}

/// The whole seconds that `key` still rests now, by the system clock.
pub fn get_api_key_expiry(key: &ApiKey, cooldown_seconds: i64) -> (seconds: i64)
    ensures
        exists|now: Timestamp| seconds == #[trigger] expiry(key@, now, cooldown_seconds),
        seconds >= 0,
        key.deactivated_at is None ==> seconds == 0,
{
    let now = Timestamp::now();
    let seconds = api_key_expiry_at(key, &now, cooldown_seconds);
    assert(seconds == expiry(key@, now, cooldown_seconds));
    seconds
}

} // verus!
