//! Counting the keys of the pool.

use crate::models::ApiKeyStatus;
use crate::state::AppState;
use crate::store::with_status;
use vstd::prelude::*;
use vstd::set_lib::lemma_set_disjoint_lens;

verus! {

/// How many keys the pool holds, and how many of them are active and
/// inactive.
#[derive(Debug, Clone, Copy, PartialEq, Eq, Structural)]
pub struct StatsResponse {
    pub total_keys: usize,
    pub active_keys: usize,
    pub inactive_keys: usize,
}

/// Counts the keys of the pool by their status.
pub fn get_stats(state: &AppState) -> (stats: StatsResponse)
    ensures
        stats.total_keys == state@.keys.dom().len(),
        stats.active_keys == with_status(state@.keys, ApiKeyStatus::Active).len(),
        stats.inactive_keys == with_status(state@.keys, ApiKeyStatus::Inactive).len(),
        stats.total_keys == stats.active_keys + stats.inactive_keys,
{
    let total_keys = state.keys.len();
    let active_keys = state.keys.count_by_status(ApiKeyStatus::Active);
    proof {
        lemma_status_partition(state@.keys);
    }
    let inactive_keys = total_keys - active_keys;
    StatsResponse { total_keys, active_keys, inactive_keys }
}

/// Every key is active or inactive and not both, so the two counts add up
/// to the number of keys.
pub proof fn lemma_status_partition(keys: Map<Seq<char>, crate::models::KeyRecord>)
    requires
        keys.dom().finite(),
    ensures
        with_status(keys, ApiKeyStatus::Active).finite(),
        with_status(keys, ApiKeyStatus::Inactive).finite(),
        with_status(keys, ApiKeyStatus::Active).len() + with_status(
            keys,
            ApiKeyStatus::Inactive,
        ).len() == keys.dom().len(),
{
    let active = with_status(keys, ApiKeyStatus::Active);
    let inactive = with_status(keys, ApiKeyStatus::Inactive);
    keys.dom().lemma_len_filter(|id: Seq<char>| keys[id].status == ApiKeyStatus::Active);
    keys.dom().lemma_len_filter(|id: Seq<char>| keys[id].status == ApiKeyStatus::Inactive);
    lemma_set_disjoint_lens(active, inactive);
    assert(active.disjoint(inactive));
    assert(active + inactive =~= keys.dom());
}

} // verus!
