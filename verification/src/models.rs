//! The record that the pool keeps of each key, and its mathematical model.

use crate::config::Limits;
use crate::timestamp::{cooldown_over, Timestamp};
use vstd::prelude::*;

verus! {

/// Whether a key is in rotation.
#[derive(Debug, Clone, Copy, PartialEq, Eq, Structural)]
pub enum ApiKeyStatus {
    Active,
    Inactive,
}

/// How often a key was handed out in the current minute and the current day.
#[derive(Debug, Clone, Copy, PartialEq, Eq, Structural)]
pub struct ApiKeyUsage {
    pub requests_this_minute: u32,
    pub requests_this_day: u32,
}

impl Default for ApiKeyUsage {
    fn default() -> (usage: Self)
        ensures
            usage.requests_this_minute == 0,
            usage.requests_this_day == 0,
    {
        Self { requests_this_minute: 0, requests_this_day: 0 }
    }
}

/// One key of the pool with its state.
#[derive(Debug)]
pub struct ApiKey {
    pub key: String,
    pub status: ApiKeyStatus,
    pub usage: ApiKeyUsage,
    pub last_used: Timestamp,
    pub created_at: Timestamp,
    pub deactivated_at: Option<Timestamp>,
}

/// The model of an [`ApiKey`]: counters as natural numbers, instants as
/// nanoseconds since the Unix epoch.
pub struct KeyRecord {
    pub identifier: Seq<char>,
    pub status: ApiKeyStatus,
    pub usage_minute: nat,
    pub usage_day: nat,
    pub last_used: int,
    pub created_at: int,
    pub deactivated_at: Option<int>,
}

impl KeyRecord {
    /// The record of a key that was added at `now`.
    pub open spec fn fresh(identifier: Seq<char>, now: int) -> KeyRecord {
        KeyRecord {
            identifier,
            status: ApiKeyStatus::Active,
            usage_minute: 0,
            usage_day: 0,
            last_used: now,
            created_at: now,
            deactivated_at: None,
        }
    }

    /// The key may be handed out: it is active and under both of its limits.
    pub open spec fn eligible(self, limits: Limits) -> bool {
        &&& self.status == ApiKeyStatus::Active
        &&& self.usage_minute < limits.rpm_limit
        &&& self.usage_day < limits.rpd_limit
    }

    /// The record after the key was handed out at `now`.
    pub open spec fn used(self, now: int) -> KeyRecord {
        KeyRecord {
            usage_minute: self.usage_minute + 1,
            usage_day: self.usage_day + 1,
            last_used: now,
            ..self
        }
    }

    /// The record after the key was taken out of rotation at `now`.
    pub open spec fn deactivated(self, now: int) -> KeyRecord {
        KeyRecord { status: ApiKeyStatus::Inactive, deactivated_at: Some(now), ..self }
    }

    /// The record after the key was put back into rotation.
    pub open spec fn reactivated(self) -> KeyRecord {
        KeyRecord { status: ApiKeyStatus::Active, deactivated_at: None, ..self }
    }

    /// The record at the start of a new minute.
    pub open spec fn minute_reset(self) -> KeyRecord {
        KeyRecord { usage_minute: 0, ..self }
    }

    /// The record at the start of a new day.
    pub open spec fn day_reset(self) -> KeyRecord {
        KeyRecord { usage_day: 0, ..self }
    }

    /// The status and the time of deactivation go together: the key carries
    /// a time of deactivation exactly while it is inactive.
    pub open spec fn coherent(self) -> bool {
        (self.status == ApiKeyStatus::Inactive) == (self.deactivated_at is Some)
    }

    /// The key rests, and has rested for longer than the cooldown at `now`.
    pub open spec fn cooled_down(self, now: int, cooldown_seconds: int) -> bool {
        &&& self.status == ApiKeyStatus::Inactive
        &&& self.deactivated_at is Some
        &&& cooldown_over(self.deactivated_at.unwrap(), now, cooldown_seconds)
    }

    /// The record after the cooldown job looked at it at `now`.
    pub open spec fn reinstated(self, now: int, cooldown_seconds: int) -> KeyRecord {
        if self.cooled_down(now, cooldown_seconds) {
            self.reactivated()
        } else {
            self
        }
    }
}

/// A change to one record.
#[derive(Debug, Clone, Copy, PartialEq, Eq, Structural)]
pub enum RecordUpdate {
    /// The key was handed out at `now`.
    Use { now: Timestamp },
    /// The key is taken out of rotation at `now`.
    Deactivate { now: Timestamp },
    /// The key is put back into rotation.
    Reactivate,
    /// A new minute starts.
    ResetMinute,
    /// A new day starts.
    ResetDay,
    /// The key is put back into rotation if its cooldown is over at `now`.
    Reinstate { now: Timestamp, cooldown_seconds: i64 },
}

impl RecordUpdate {
    /// The record after the change.
    pub open spec fn apply(self, record: KeyRecord) -> KeyRecord {
        match self {
            RecordUpdate::Use { now } => record.used(now@),
            RecordUpdate::Deactivate { now } => record.deactivated(now@),
            RecordUpdate::Reactivate => record.reactivated(),
            RecordUpdate::ResetMinute => record.minute_reset(),
            RecordUpdate::ResetDay => record.day_reset(),
            RecordUpdate::Reinstate { now, cooldown_seconds } => record.reinstated(
                now@,
                cooldown_seconds as int,
            ),
        }
    }

    /// The change can be made to `record`: a use needs room in both counters.
    pub open spec fn fits(self, record: KeyRecord) -> bool {
        self is Use ==> record.usage_minute < u32::MAX && record.usage_day < u32::MAX
    }
}

/// The instant that an optional timestamp stands for.
pub open spec fn instant_of(stamp: Option<Timestamp>) -> Option<int> {
    match stamp {
        Some(t) => Some(t@),
        None => None,
    }
}

impl View for ApiKey {
    type V = KeyRecord;

    open spec fn view(&self) -> KeyRecord {
        KeyRecord {
            identifier: self.key@,
            status: self.status,
            usage_minute: self.usage.requests_this_minute as nat,
            usage_day: self.usage.requests_this_day as nat,
            last_used: self.last_used@,
            created_at: self.created_at@,
            deactivated_at: instant_of(self.deactivated_at),
        }
    }
}

impl Clone for ApiKey {
    fn clone(&self) -> (copy: Self)
        ensures
            copy == *self,
    {
        ApiKey {
            key: self.key.clone(),
            status: self.status,
            usage: self.usage,
            last_used: self.last_used,
            created_at: self.created_at,
            deactivated_at: self.deactivated_at,
        }
    }
}

impl ApiKey {
    /// A key that is added now, by the system clock.
    pub fn new(key: String) -> (record: Self)
        ensures
            record.key == key,
            record@ == KeyRecord::fresh(key@, record.created_at@),
    {
        ApiKey::new_at(key, Timestamp::now())
    }

    /// A key that is added at `now`: active, unused, last used at `now`.
    pub fn new_at(key: String, now: Timestamp) -> (record: Self)
        ensures
            record.key == key,
            record.created_at == now,
            record.last_used == now,
            record@ == KeyRecord::fresh(key@, now@),
    {
        ApiKey {
            key,
            status: ApiKeyStatus::Active,
            usage: ApiKeyUsage::default(),
            last_used: now,
            created_at: now,
            deactivated_at: None,
        }
    }

    /// Whether the key may be handed out under `limits`.
    pub fn is_eligible(&self, limits: &Limits) -> (eligible: bool)
        ensures
            eligible == self@.eligible(*limits),
    {
        self.status == ApiKeyStatus::Active && self.usage.requests_this_minute < limits.rpm_limit
            && self.usage.requests_this_day < limits.rpd_limit
    }

    /// Counts one use at `now`.
    pub fn record_use(&mut self, now: Timestamp)
        requires
            old(self).usage.requests_this_minute < u32::MAX,
            old(self).usage.requests_this_day < u32::MAX,
        ensures
            final(self)@ == old(self)@.used(now@),
            final(self).key == old(self).key,
            final(self).last_used == now,
    {
        self.usage.requests_this_minute = self.usage.requests_this_minute + 1;
        self.usage.requests_this_day = self.usage.requests_this_day + 1;
        self.last_used = now;
    }

    /// Takes the key out of rotation at `now`.
    pub fn deactivate(&mut self, now: Timestamp)
        ensures
            final(self)@ == old(self)@.deactivated(now@),
            final(self).key == old(self).key,
            final(self).deactivated_at == Some(now),
    {
        self.status = ApiKeyStatus::Inactive;
        self.deactivated_at = Some(now);
    }

    /// Puts the key back into rotation.
    pub fn reactivate(&mut self)
        ensures
            final(self)@ == old(self)@.reactivated(),
            final(self).key == old(self).key,
    {
        self.status = ApiKeyStatus::Active;
        self.deactivated_at = None;
    }

    /// Starts a new minute: the count of the minute goes back to zero.
    pub fn reset_minute_usage(&mut self)
        ensures
            final(self)@ == old(self)@.minute_reset(),
            final(self).key == old(self).key,
    {
        self.usage.requests_this_minute = 0;
    }

    /// Starts a new day: the count of the day goes back to zero.
    pub fn reset_day_usage(&mut self)
        ensures
            final(self)@ == old(self)@.day_reset(),
            final(self).key == old(self).key,
    {
        self.usage.requests_this_day = 0;
    }

    /// Makes the change `update` to the record.
    pub fn apply(&mut self, update: &RecordUpdate)
        requires
            update.fits(old(self)@),
        ensures
            final(self)@ == update.apply(old(self)@),
            final(self).key == old(self).key,
    {
        match update {
            RecordUpdate::Use { now } => self.record_use(*now),
            RecordUpdate::Deactivate { now } => self.deactivate(*now),
            RecordUpdate::Reactivate => self.reactivate(),
            RecordUpdate::ResetMinute => self.reset_minute_usage(),
            RecordUpdate::ResetDay => self.reset_day_usage(),
            RecordUpdate::Reinstate { now, cooldown_seconds } => {
                self.reinstate_if_cooled(*now, *cooldown_seconds);
            },
        }
    }

    /// Puts the key back into rotation if it rests and its cooldown is over
    /// at `now`; says whether it did.
    pub fn reinstate_if_cooled(&mut self, now: Timestamp, cooldown_seconds: i64) -> (reinstated:
        bool)
        ensures
            reinstated == old(self)@.cooled_down(now@, cooldown_seconds as int),
            final(self)@ == old(self)@.reinstated(now@, cooldown_seconds as int),
            final(self).key == old(self).key,
    {
        if self.status == ApiKeyStatus::Inactive {
            if let Some(since) = self.deactivated_at {
                if since.cooldown_over_at(&now, cooldown_seconds) {
                    self.status = ApiKeyStatus::Active;
                    self.deactivated_at = None;
                    return true;
                }
            }
        }
        false
    }
}

} // verus!
