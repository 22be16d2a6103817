//! Adding, removing, retiring and listing keys.

use crate::error::{RotatorError, CREATED, NOT_FOUND, OK};
use crate::models::{ApiKey, KeyRecord, RecordUpdate};
use crate::state::{AppState, Pool};
use crate::store::{consistent, enumerates, updated};
use crate::timestamp::Timestamp;
use vstd::prelude::*;

verus! {

/// The request to add one key.
#[derive(Debug)]
pub struct AddKeyPayload {
    pub key: String,
}

/// The request to add several keys.
#[derive(Debug)]
pub struct BulkAddKeysPayload {
    pub keys: Vec<String>,
}

/// The records of all keys of the pool.
#[derive(Debug)]
pub struct AllKeysResponse {
    pub keys: Vec<ApiKey>,
}

/// `id` is one of the identifiers `added`.
pub open spec fn names(added: Seq<String>, id: Seq<char>) -> bool {
    exists|i: int| 0 <= i < added.len() && #[trigger] added[i]@ == id
}

/// `after` holds a fresh record for every identifier of `added`, and for
/// every other identifier what `before` holds.
pub open spec fn bulk_added(
    before: Map<Seq<char>, KeyRecord>,
    after: Map<Seq<char>, KeyRecord>,
    added: Seq<String>,
) -> bool {
    forall|id: Seq<char>|
        #![trigger after.dom().contains(id)]
        if names(added, id) {
            &&& after.dom().contains(id)
            &&& after[id] == KeyRecord::fresh(id, after[id].created_at)
        } else {
            &&& after.dom().contains(id) == before.dom().contains(id)
            &&& before.dom().contains(id) ==> after[id] == before[id]
        }
}

/// Adds the key of `payload` to the pool, as a key that is new now.  A key
/// with the same identifier gives way to it.
pub fn add_key(state: &mut AppState, payload: AddKeyPayload) -> (status: u16)
    ensures
        status == CREATED,
        final(state)@.keys.dom().contains(payload.key@),
        final(state)@ == (Pool {
            keys: old(state)@.keys.insert(
                payload.key@,
                KeyRecord::fresh(payload.key@, final(state)@.keys[payload.key@].created_at),
            ),
            ..old(state)@
        }),
{
    let new_key = ApiKey::new(payload.key);
    state.keys.insert(new_key);
    CREATED
}

/// Adds every key of `payload` to the pool, each as a key that is new at the
/// moment it is added.
pub fn add_bulk_keys(state: &mut AppState, payload: BulkAddKeysPayload) -> (status: u16)
    ensures
        status == CREATED,
        bulk_added(old(state)@.keys, final(state)@.keys, payload.keys@),
        final(state)@.total_requests == old(state)@.total_requests,
        final(state)@.limits == old(state)@.limits,
{
    let ghost before = state@.keys;
    let mut i: usize = 0;
    while i < payload.keys.len()
        invariant
            0 <= i <= payload.keys.len(),
            bulk_added(before, state@.keys, payload.keys@.take(i as int)),
            state@.total_requests == old(state)@.total_requests,
            state@.limits == old(state)@.limits,
        decreases payload.keys.len() - i,
    {
        let new_key = ApiKey::new(payload.keys[i].clone());
        state.keys.insert(new_key);
        proof {
            let done = payload.keys@.take(i as int);
            let more = payload.keys@.take(i + 1);
            let new_id = payload.keys@[i as int]@;
            assert(more[i as int]@ == new_id);
            assert forall|id: Seq<char>| #[trigger] names(more, id) == (id == new_id || names(done, id)) by {
                if names(more, id) {
                    let j = choose|j: int| 0 <= j < more.len() && #[trigger] more[j]@ == id;
                    if j < i {
                        assert(done[j]@ == id);
                    }
                }
                if names(done, id) {
                    let j = choose|j: int| 0 <= j < done.len() && #[trigger] done[j]@ == id;
                    assert(more[j]@ == id);
                }
            }
            assert forall|id: Seq<char>| #![trigger state@.keys.dom().contains(id)]
                if names(more, id) {
                    &&& state@.keys.dom().contains(id)
                    &&& state@.keys[id] == KeyRecord::fresh(id, state@.keys[id].created_at)
                } else {
                    &&& state@.keys.dom().contains(id) == before.dom().contains(id)
                    &&& before.dom().contains(id) ==> state@.keys[id] == before[id]
                } by {
                assert(names(more, id) == (id == new_id || names(done, id)));
            }
        }
        i = i + 1;
    }
    assert(payload.keys@.take(i as int) == payload.keys@);
    CREATED
}

/// Removes the key `key` from the pool.
pub fn delete_key(state: &mut AppState, key: &str) -> (status: u16)
    ensures
        status == if old(state)@.keys.dom().contains(key@) {
            OK
        } else {
            NOT_FOUND
        },
        final(state)@ == (Pool { keys: old(state)@.keys.remove(key@), ..old(state)@ }),
{
    if state.keys.remove(key) {
        OK
    } else {
        RotatorError::NotFound.status_code()
    }
}

/// Takes the key `key` out of rotation, as of now.
pub fn deactivate_key(state: &mut AppState, key: &str) -> (status: u16)
    ensures
        status == if old(state)@.keys.dom().contains(key@) {
            OK
        } else {
            NOT_FOUND
        },
        final(state)@.total_requests == old(state)@.total_requests,
        final(state)@.limits == old(state)@.limits,
        !old(state)@.keys.dom().contains(key@) ==> final(state)@.keys == old(state)@.keys,
        old(state)@.keys.dom().contains(key@) ==> {
            &&& final(state)@.keys.dom().contains(key@)
            &&& final(state)@.keys[key@].deactivated_at is Some
            &&& final(state)@.keys == old(state)@.keys.insert(
                key@,
                old(state)@.keys[key@].deactivated(
                    final(state)@.keys[key@].deactivated_at.unwrap(),
                ),
            )
        },
{
    let now = Timestamp::now();
    if state.keys.mutate(key, &RecordUpdate::Deactivate { now }) {
        OK
    } else {
        RotatorError::NotFound.status_code()
    }
}

/// Puts the key `key` back into rotation.
pub fn reactivate_key(state: &mut AppState, key: &str) -> (status: u16)
    ensures
        status == if old(state)@.keys.dom().contains(key@) {
            OK
        } else {
            NOT_FOUND
        },
        final(state)@ == (Pool {
            keys: updated(old(state)@.keys, key@, RecordUpdate::Reactivate),
            ..old(state)@
        }),
{
    if state.keys.mutate(key, &RecordUpdate::Reactivate) {
        OK
    } else {
        RotatorError::NotFound.status_code()
    }
}

/// Lists the records of all keys, each once, in an order that is not fixed.
pub fn get_all_keys(state: &AppState) -> (response: AllKeysResponse)
    ensures
        enumerates(response.keys@, state@.keys),
        consistent(state@.keys),
        response.keys@.len() == state@.keys.dom().len(),
{
    AllKeysResponse { keys: state.keys.snapshot() }
}

} // verus!
