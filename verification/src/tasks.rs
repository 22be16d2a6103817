//! The periodic jobs that keep a pool in order.
//!
//! Each job runs on its own timer for as long as the pool lives.  What a job
//! does when its timer fires is decided here; waiting for the timer and
//! writing the saved records to disk is left to the caller.

use crate::models::{ApiKey, ApiKeyStatus, RecordUpdate};
use crate::state::{AppState, Pool};
use crate::store::{enumerates, updated_all};
use crate::timestamp::Timestamp;
use vstd::prelude::*;

verus! {

/// A periodic job.
#[derive(Debug, Clone, Copy, PartialEq, Eq, Structural)]
pub enum Job {
    /// Saves the records of all keys.
    PersistSnapshot,
    /// Starts a new minute for every key.
    ResetMinuteUsage,
    /// Starts a new day for every key.
    ResetDayUsage,
    /// Puts the keys back into rotation whose cooldown is over.
    ReinstateKeys,
    /// Starts a new minute for the pool-wide request counter.
    ResetTotalRequests,
}

impl Job {
    /// The seconds between two runs of the job.
    pub open spec fn interval(self) -> nat {
        match self {
            Job::PersistSnapshot => 15,
            Job::ResetMinuteUsage => 60,
            Job::ResetDayUsage => 86_400,
            Job::ReinstateKeys => 60,
            Job::ResetTotalRequests => 60,
        }
    }

    /// The seconds between two runs of the job.
    pub fn interval_seconds(&self) -> (seconds: u64)
        ensures
            seconds == self.interval(),
    {
        match self {
            Job::PersistSnapshot => 15,
            Job::ResetMinuteUsage => 60,
            Job::ResetDayUsage => 24 * 60 * 60,
            Job::ReinstateKeys => 60,
            Job::ResetTotalRequests => 60,
        }
    }
}

/// The pool after `job` ran on it at `now`.
pub open spec fn ticked(before: Pool, job: Job, now: Timestamp) -> Pool {
    match job {
        Job::PersistSnapshot => before,
        Job::ResetMinuteUsage => Pool {
            keys: updated_all(before.keys, RecordUpdate::ResetMinute),
            ..before
        },
        Job::ResetDayUsage => Pool {
            keys: updated_all(before.keys, RecordUpdate::ResetDay),
            ..before
        },
        Job::ReinstateKeys => Pool {
            keys: updated_all(
                before.keys,
                RecordUpdate::Reinstate {
                    now,
                    cooldown_seconds: before.limits.key_cooldown_seconds,
                },
            ),
            ..before
        },
        Job::ResetTotalRequests => Pool { total_requests: 0, ..before },
    }
}

/// All jobs, each once.
pub fn all_jobs() -> (jobs: Vec<Job>)
    ensures
        jobs@ == seq![
            Job::PersistSnapshot,
            Job::ResetMinuteUsage,
            Job::ResetDayUsage,
            Job::ReinstateKeys,
            Job::ResetTotalRequests,
        ],
{
    let mut jobs: Vec<Job> = Vec::new();
    jobs.push(Job::PersistSnapshot);
    jobs.push(Job::ResetMinuteUsage);
    jobs.push(Job::ResetDayUsage);
    jobs.push(Job::ReinstateKeys);
    jobs.push(Job::ResetTotalRequests);
    jobs
}

/// Runs `job` on the pool at `now`.  The job that saves hands back the
/// records to write, a copy of each record once; the others hand back
/// nothing.
///
/// After the reset of the minute every key has served no request this
/// minute, after the reset of the day none this day, whatever the counts
/// were.  After the reinstatement every key that rested for longer than the
/// cooldown is active again and carries no time of deactivation.
pub fn run_job(state: &mut AppState, job: Job, now: Timestamp) -> (to_save: Option<Vec<ApiKey>>)
    ensures
        final(state)@ == ticked(old(state)@, job, now),
        to_save is Some <==> job == Job::PersistSnapshot,
        to_save is Some ==> enumerates(to_save.unwrap()@, old(state)@.keys),
        final(state)@.keys.dom() == old(state)@.keys.dom(),
        job == Job::ResetMinuteUsage ==> forall|id: Seq<char>| #[trigger]
            final(state)@.keys.dom().contains(id) ==> final(state)@.keys[id].usage_minute == 0,
        job == Job::ResetDayUsage ==> forall|id: Seq<char>| #[trigger]
            final(state)@.keys.dom().contains(id) ==> final(state)@.keys[id].usage_day == 0,
        job == Job::ReinstateKeys ==> forall|id: Seq<char>| #[trigger]
            old(state)@.keys.dom().contains(id) && old(state)@.keys[id].cooled_down(
                now@,
                old(state)@.limits.key_cooldown_seconds as int,
            ) ==> final(state)@.keys[id].status == ApiKeyStatus::Active
                && final(state)@.keys[id].deactivated_at is None,
{
    match job {
        Job::PersistSnapshot => Some(state.save()),
        Job::ResetMinuteUsage => {
            state.keys.mutate_all(&RecordUpdate::ResetMinute);
            None
        },
        Job::ResetDayUsage => {
            state.keys.mutate_all(&RecordUpdate::ResetDay);
            None
        },
        Job::ReinstateKeys => {
            let cooldown_seconds = state.limits.key_cooldown_seconds;
            state.keys.mutate_all(&RecordUpdate::Reinstate { now, cooldown_seconds });
            None
        },
        Job::ResetTotalRequests => {
            state.total_requests_this_minute.reset();
            None
        },
    }
}

} // verus!
