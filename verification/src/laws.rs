//! Laws of the pool, stated over its model and proved from the contracts of
//! its operations.

use crate::error::RotatorError;
use crate::models::{ApiKeyStatus, KeyRecord, RecordUpdate};
use crate::routes::next::{eligible_ids, least_recently_used, selected, SelectionMode};
use crate::state::Pool;
use crate::store::updated;
use crate::tasks::{ticked, Job};
use crate::timestamp::Timestamp;
use vstd::prelude::*;

verus! {

/// One step in the life of a key store.
pub enum StoreOp {
    /// `KeyStore::insert` of `record`.
    Add { record: KeyRecord },
    /// `KeyStore::remove` of the key `id`.
    Delete { id: Seq<char> },
}

impl StoreOp {
    /// The identifier that the step is about.
    pub open spec fn id(self) -> Seq<char> {
        match self {
            StoreOp::Add { record } => record.identifier,
            StoreOp::Delete { id } => id,
        }
    }
}

/// The records of a store that began as `start` and went through `ops`.
pub open spec fn after_ops(start: Map<Seq<char>, KeyRecord>, ops: Seq<StoreOp>) -> Map<
    Seq<char>,
    KeyRecord,
>
    decreases ops.len(),
{
    if ops.len() == 0 {
        start
    } else {
        let earlier = after_ops(start, ops.drop_last());
        match ops.last() {
            StoreOp::Add { record } => earlier.insert(record.identifier, record),
            StoreOp::Delete { id } => earlier.remove(id),
        }
    }
}

/// `id` is live after `ops`: it was added, and not deleted since.
pub open spec fn live(ops: Seq<StoreOp>, id: Seq<char>) -> bool {
    exists|i: int|
        {
            &&& 0 <= i < ops.len()
            &&& #[trigger] ops[i] is Add
            &&& ops[i].id() == id
            &&& forall|j: int| i < j < ops.len() ==> !(#[trigger] ops[j] is Delete && ops[j].id() == id)
        }
}

/// The identifiers that are live after `ops`.
pub open spec fn live_ids(ops: Seq<StoreOp>) -> Set<Seq<char>> {
    Set::new(|id: Seq<char>| live(ops, id))
}

/// After any sequence of additions and removals, a store that began empty
/// holds exactly the live identifiers, so its length is their number.
pub proof fn lemma_len_counts_live_identifiers(ops: Seq<StoreOp>)
    ensures
        after_ops(Map::empty(), ops).dom() == live_ids(ops),
        live_ids(ops).finite(),
        after_ops(Map::empty(), ops).dom().len() == live_ids(ops).len(),
    decreases ops.len(),
{
    let start = Map::<Seq<char>, KeyRecord>::empty();
    if ops.len() == 0 {
        assert(after_ops(start, ops).dom() =~= live_ids(ops));
    } else {
        let earlier = ops.drop_last();
        let last = ops.last();
        lemma_len_counts_live_identifiers(earlier);
        assert forall|id: Seq<char>| live(ops, id) == (if last.id() == id {
            last is Add
        } else {
            live(earlier, id)
        }) by {
            if live(earlier, id) && last.id() != id {
                let i = choose|i: int|
                    {
                        &&& 0 <= i < earlier.len()
                        &&& #[trigger] earlier[i] is Add
                        &&& earlier[i].id() == id
                        &&& forall|j: int|
                            i < j < earlier.len() ==> !(#[trigger] earlier[j] is Delete
                                && earlier[j].id() == id)
                    };
                assert(ops[i] is Add && ops[i].id() == id);
                assert forall|j: int| i < j < ops.len() implies !(#[trigger] ops[j] is Delete
                    && ops[j].id() == id) by {
                    if j < earlier.len() {
                        assert(ops[j] == earlier[j]);
                    }
                }
            }
            if live(ops, id) {
                let i = choose|i: int|
                    {
                        &&& 0 <= i < ops.len()
                        &&& #[trigger] ops[i] is Add
                        &&& ops[i].id() == id
                        &&& forall|j: int|
                            i < j < ops.len() ==> !(#[trigger] ops[j] is Delete && ops[j].id()
                                == id)
                    };
                if i < earlier.len() {
                    assert(!(ops[earlier.len() as int] is Delete && ops[earlier.len() as int].id()
                        == id));
                    assert(earlier[i] is Add && earlier[i].id() == id);
                    assert forall|j: int| i < j < earlier.len() implies !(
                    #[trigger] earlier[j] is Delete && earlier[j].id() == id) by {
                        assert(ops[j] == earlier[j]);
                    }
                }
            }
            if last.id() == id && last is Add {
                assert(ops[ops.len() - 1] is Add);
            }
        }
        assert(after_ops(start, ops).dom() =~= live_ids(ops));
    }
}

/// A new key carries no time of deactivation, and no change to a record
/// parts its status from its time of deactivation.  No change touches the
/// identifier or the time of creation, and a counter goes down only at the
/// reset of its window, where it goes to zero.
pub proof fn lemma_changes_keep_records_in_order(
    record: KeyRecord,
    update: RecordUpdate,
    identifier: Seq<char>,
    now: int,
)
    ensures
        KeyRecord::fresh(identifier, now).coherent(),
        record.coherent() ==> update.apply(record).coherent(),
        update.apply(record).identifier == record.identifier,
        update.apply(record).created_at == record.created_at,
        update is ResetMinute || update.apply(record).usage_minute >= record.usage_minute,
        update is ResetDay || update.apply(record).usage_day >= record.usage_day,
        update is ResetMinute ==> update.apply(record).usage_minute == 0,
        update is ResetDay ==> update.apply(record).usage_day == 0,
{
}

/// Deactivating a key and then reactivating it leaves it active and without
/// a time of deactivation, and changes nothing else: the pool is as if the
/// key had only been reactivated.
pub proof fn lemma_deactivate_then_reactivate(
    keys: Map<Seq<char>, KeyRecord>,
    id: Seq<char>,
    now: Timestamp,
)
    requires
        keys.dom().contains(id),
    ensures
        ({
            let rested = updated(keys, id, RecordUpdate::Deactivate { now });
            let back = updated(rested, id, RecordUpdate::Reactivate);
            &&& rested[id].status == ApiKeyStatus::Inactive
            &&& rested[id].deactivated_at == Some(now@)
            &&& back[id].status == ApiKeyStatus::Active
            &&& back[id].deactivated_at is None
            &&& back == updated(keys, id, RecordUpdate::Reactivate)
        }),
{
    let rested = updated(keys, id, RecordUpdate::Deactivate { now });
    let back = updated(rested, id, RecordUpdate::Reactivate);
    assert(back =~= updated(keys, id, RecordUpdate::Reactivate));
}

/// Where no key is eligible and the pool is under its ceiling, a selection
/// fails because no key is available.
pub proof fn lemma_no_eligible_key_fails(
    before: Pool,
    after: Pool,
    mode: SelectionMode,
    outcome: Result<Seq<char>, RotatorError>,
)
    requires
        selected(before, after, mode, outcome),
        before.total_requests < before.limits.tpm_limit,
        forall|id: Seq<char>| !#[trigger] eligible_ids(before.keys, before.limits).contains(id),
    ensures
        outcome == Err::<Seq<char>, RotatorError>(RotatorError::NoAvailableKey),
        after.keys == before.keys,
{
}

/// At the ceiling of requests per minute a selection fails because the rate
/// limit is exceeded; no record changes, and neither does the count.
pub proof fn lemma_at_ceiling_fails(
    before: Pool,
    after: Pool,
    mode: SelectionMode,
    outcome: Result<Seq<char>, RotatorError>,
)
    requires
        selected(before, after, mode, outcome),
        before.total_requests >= before.limits.tpm_limit,
    ensures
        outcome == Err::<Seq<char>, RotatorError>(RotatorError::RateLimitExceeded),
        after.keys == before.keys,
        after.total_requests == before.total_requests,
{
}

/// A selection that succeeds raises both counters of the key it hands out by
/// one and those of no other key, leaves every other record as it was, and
/// raises the count of the pool by one.
pub proof fn lemma_success_counts_once(
    before: Pool,
    after: Pool,
    mode: SelectionMode,
    chosen: Seq<char>,
)
    requires
        selected(before, after, mode, Ok(chosen)),
    ensures
        before.keys.dom().contains(chosen),
        after.keys.dom() == before.keys.dom(),
        after.keys[chosen].usage_minute == before.keys[chosen].usage_minute + 1,
        after.keys[chosen].usage_day == before.keys[chosen].usage_day + 1,
        forall|id: Seq<char>|
            id != chosen && #[trigger] before.keys.dom().contains(id) ==> after.keys[id]
                == before.keys[id],
        after.total_requests == before.total_requests + 1,
{
    assert(after.keys.dom() =~= before.keys.dom());
}

/// In the mode `Auto` the key that is handed out is eligible, and no
/// eligible key was last used before it.
pub proof fn lemma_auto_picks_least_recently_used(
    before: Pool,
    after: Pool,
    chosen: Seq<char>,
    other: Seq<char>,
)
    requires
        selected(before, after, SelectionMode::Auto, Ok(chosen)),
        before.keys.dom().contains(other),
        before.keys[other].eligible(before.limits),
    ensures
        least_recently_used(before.keys, before.limits, chosen),
        before.keys[chosen].eligible(before.limits),
        before.keys[chosen].last_used <= before.keys[other].last_used,
{
    assert(eligible_ids(before.keys, before.limits).contains(other));
}

/// No key has served more requests than its limits allow, and the pool has
/// not served more than its ceiling allows.
pub open spec fn within_limits(pool: Pool) -> bool {
    &&& pool.total_requests <= pool.limits.tpm_limit
    &&& forall|id: Seq<char>| #[trigger]
        pool.keys.dom().contains(id) ==> pool.keys[id].usage_minute <= pool.limits.rpm_limit
            && pool.keys[id].usage_day <= pool.limits.rpd_limit
}

/// A selection never takes a pool beyond its limits, however it ends.
pub proof fn lemma_selection_stays_within_limits(
    before: Pool,
    after: Pool,
    mode: SelectionMode,
    outcome: Result<Seq<char>, RotatorError>,
)
    requires
        selected(before, after, mode, outcome),
        within_limits(before),
    ensures
        within_limits(after),
{
    assert forall|id: Seq<char>| #[trigger] after.keys.dom().contains(id) implies after.keys[id].usage_minute
        <= after.limits.rpm_limit && after.keys[id].usage_day <= after.limits.rpd_limit by {
        if outcome is Ok && id == outcome->Ok_0 {
            assert(eligible_ids(before.keys, before.limits).contains(id));
        } else {
            assert(before.keys.dom().contains(id));
        }
    }
}

/// No periodic job takes a pool beyond its limits.
pub proof fn lemma_jobs_stay_within_limits(before: Pool, job: Job, now: Timestamp)
    requires
        within_limits(before),
    ensures
        within_limits(ticked(before, job, now)),
{
    let after = ticked(before, job, now);
    assert forall|id: Seq<char>| #[trigger] after.keys.dom().contains(id) implies after.keys[id].usage_minute
        <= after.limits.rpm_limit && after.keys[id].usage_day <= after.limits.rpd_limit by {
        assert(before.keys.dom().contains(id));
    }
}

} // verus!
