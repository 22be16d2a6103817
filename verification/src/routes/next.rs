//! Choosing the key that serves the next request.

use crate::config::Limits;
use crate::error::{RotatorError, SERVICE_UNAVAILABLE, TOO_MANY_REQUESTS};
use crate::models::{ApiKey, KeyRecord, RecordUpdate};
use crate::state::{AppState, Pool};
use crate::store::{enumerates, KeyStore};
use crate::timestamp::Timestamp;
use rand::seq::SliceRandom;
use vstd::prelude::*;

verus! {

/// The request for the next key.  The mode `random` asks for a key picked at
/// random; any other mode, or none, asks for the key that has rested longest.
#[derive(Debug)]
pub struct NextQuery {
    pub mode: Option<String>,
}

/// The key that serves the request.
#[derive(Debug)]
pub struct ApiKeyResponse {
    pub api_key: String,
}

/// How the next key is chosen among the eligible keys.
#[derive(Debug, Clone, Copy, PartialEq, Eq, Structural)]
pub enum SelectionMode {
    /// The key whose last use lies furthest back.
    Auto,
    /// Any key, by a fair draw.
    Random,
}

/// The mode that a query asks for.
pub open spec fn mode_of(mode: Option<String>) -> SelectionMode {
    if mode is Some && mode.unwrap()@ == "random"@ {
        SelectionMode::Random
    } else {
        SelectionMode::Auto
    }
}

/// The identifiers of the keys that may be handed out.
pub open spec fn eligible_ids(keys: Map<Seq<char>, KeyRecord>, limits: Limits) -> Set<Seq<char>> {
    keys.dom().filter(|id: Seq<char>| keys[id].eligible(limits))
}

/// `id` is an eligible key, and no eligible key was last used before it.
pub open spec fn least_recently_used(
    keys: Map<Seq<char>, KeyRecord>,
    limits: Limits,
    id: Seq<char>,
) -> bool {
    &&& eligible_ids(keys, limits).contains(id)
    &&& forall|other: Seq<char>| #[trigger]
        eligible_ids(keys, limits).contains(other) ==> keys[id].last_used <= keys[other].last_used
}

/// What choosing the next key does to a pool, for each way it can end.
///
/// At the ceiling of requests per minute the request is turned away and
/// nothing changes.  Under it the request is counted, whatever follows.
/// Without an eligible key the request then fails and no record changes.
/// Otherwise one eligible key is handed out, in the mode `Auto` one that no
/// eligible key has rested longer than, and its use is counted in its record:
/// both of its counters go up by one and its last use is set; every other
/// record stays as it is.
pub open spec fn selected(
    before: Pool,
    after: Pool,
    mode: SelectionMode,
    outcome: Result<Seq<char>, RotatorError>,
) -> bool {
    &&& after.limits == before.limits
    &&& match outcome {
        Err(RotatorError::RateLimitExceeded) => {
            &&& before.total_requests >= before.limits.tpm_limit
            &&& after.total_requests == before.total_requests
            &&& after.keys == before.keys
        },
        Err(RotatorError::NoAvailableKey) => {
            &&& before.total_requests < before.limits.tpm_limit
            &&& forall|id: Seq<char>| !#[trigger] eligible_ids(before.keys, before.limits).contains(id)
            &&& after.total_requests == before.total_requests + 1
            &&& after.keys == before.keys
        },
        Err(_) => false,
        Ok(id) => {
            &&& before.total_requests < before.limits.tpm_limit
            &&& eligible_ids(before.keys, before.limits).contains(id)
            &&& mode == SelectionMode::Auto ==> least_recently_used(before.keys, before.limits, id)
            &&& after.total_requests == before.total_requests + 1
            &&& after.keys.dom().contains(id)
            &&& after.keys == before.keys.insert(
                id,
                before.keys[id].used(after.keys[id].last_used),
            )
        },
    }
}

/// The outcome of a selection, by the view of the key it hands out.
pub open spec fn outcome_view(outcome: Result<String, RotatorError>) -> Result<
    Seq<char>,
    RotatorError,
> {
    match outcome {
        Ok(key) => Ok(key@),
        Err(error) => Err(error),
    }
}

/// `rand::seq::SliceRandom::choose` with `rand::thread_rng`: one of `ids`,
/// drawn at random, or nothing where there is none to draw from.  Nothing is
/// claimed of which one is drawn.  `thread_rng` panics where the system
/// gives it nothing to seed its generator with.
#[verifier::external_body]
fn choose_random(ids: &Vec<String>) -> (drawn: Option<String>)
    ensures
        drawn is None <==> ids@.len() == 0,
        drawn is Some ==> exists|i: int| 0 <= i < ids@.len() && #[trigger] ids@[i]@ == drawn.unwrap()@,
{
    ids.choose(&mut rand::thread_rng()).cloned()
}

/// The mode that `query` asks for.
pub fn selection_mode(query: &NextQuery) -> (mode: SelectionMode)
    ensures
        mode == mode_of(query.mode),
{
    match &query.mode {
        Some(mode) => {
            let random = "random".to_string();
            if *mode == random {
                SelectionMode::Random
            } else {
                SelectionMode::Auto
            }
        },
        None => SelectionMode::Auto,
    }
}

/// Copies of the records of all keys that may be handed out under `limits`,
/// each once, in an order that is not fixed.
pub fn eligible_keys(keys: &KeyStore, limits: &Limits) -> (candidates: Vec<ApiKey>)
    ensures
        enumerates(candidates@, keys@.restrict(eligible_ids(keys@, *limits))),
{
    let snapshot = keys.snapshot();
    let mut candidates: Vec<ApiKey> = Vec::new();
    let ghost mut origin: Seq<int> = Seq::empty();
    let mut i: usize = 0;
    while i < snapshot.len()
        invariant
            0 <= i <= snapshot.len(),
            enumerates(snapshot@, keys@),
            origin.len() == candidates@.len(),
            forall|c: int|
                0 <= c < origin.len() ==> 0 <= #[trigger] origin[c] < i && candidates@[c]@
                    == snapshot@[origin[c]]@,
            forall|c: int, d: int|
                0 <= c < d < origin.len() ==> #[trigger] origin[c] < #[trigger] origin[d],
            forall|c: int| 0 <= c < candidates@.len() ==> (#[trigger] candidates@[c]@).eligible(*limits),
            forall|j: int|
                0 <= j < i && (#[trigger] snapshot@[j]@).eligible(*limits) ==> exists|c: int|
                    0 <= c < origin.len() && #[trigger] origin[c] == j,
        decreases snapshot.len() - i,
    {
        if snapshot[i].is_eligible(limits) {
            candidates.push(snapshot[i].clone());
            proof {
                let ghost before = origin;
                origin = origin.push(i as int);
                assert forall|j: int|
                    0 <= j < i + 1 && (#[trigger] snapshot@[j]@).eligible(*limits) implies exists|
                    c: int,
                | 0 <= c < origin.len() && #[trigger] origin[c] == j by {
                    if j < i {
                        let c = choose|c: int| 0 <= c < before.len() && #[trigger] before[c] == j;
                        assert(origin[c] == j);
                    } else {
                        assert(origin[before.len() as int] == j);
                    }
                }
            }
        }
        i = i + 1;
    }
    proof {
        let eligible = keys@.restrict(eligible_ids(keys@, *limits));
        assert forall|c: int| 0 <= c < candidates@.len() implies eligible.dom().contains(
            #[trigger] candidates@[c]@.identifier,
        ) && eligible[candidates@[c]@.identifier] == candidates@[c]@ by {
            assert(candidates@[c]@ == snapshot@[origin[c]]@);
            assert(keys@.dom().contains(snapshot@[origin[c]]@.identifier));
        }
        assert forall|c: int, d: int| 0 <= c < d < candidates@.len() implies #[trigger] candidates@[c]@.identifier
            != #[trigger] candidates@[d]@.identifier by {
            assert(origin[c] < origin[d]);
            assert(snapshot@[origin[c]]@.identifier != snapshot@[origin[d]]@.identifier);
        }
        assert forall|id: Seq<char>| #[trigger] eligible.dom().contains(id) implies exists|c: int|
            0 <= c < candidates@.len() && #[trigger] candidates@[c]@.identifier == id by {
            let j = choose|j: int| 0 <= j < snapshot@.len() && #[trigger] snapshot@[j]@.identifier == id;
            assert(snapshot@[j]@ == keys@[id]);
            let c = choose|c: int| 0 <= c < origin.len() && #[trigger] origin[c] == j;
            assert(candidates@[c]@.identifier == id);
        }
    }
    candidates
}

/// The position of the candidate whose last use lies furthest back; among
/// several such, the first.  Nothing where there is no candidate.
pub fn oldest(candidates: &Vec<ApiKey>) -> (position: Option<usize>)
    ensures
        position is None <==> candidates@.len() == 0,
        position is Some ==> {
            let best = position.unwrap() as int;
            &&& 0 <= best < candidates@.len()
            &&& forall|j: int|
                0 <= j < candidates@.len() ==> candidates@[best]@.last_used <= (
                #[trigger] candidates@[j]@).last_used
            &&& forall|j: int|
                0 <= j < best ==> candidates@[best]@.last_used < (#[trigger] candidates@[j]@).last_used
        },
{
    if candidates.len() == 0 {
        return None;
    }
    let mut best: usize = 0;
    let mut i: usize = 1;
    while i < candidates.len()
        invariant
            0 <= best < i <= candidates.len(),
            forall|j: int|
                0 <= j < i ==> candidates@[best as int]@.last_used <= (#[trigger] candidates@[j]@).last_used,
            forall|j: int|
                0 <= j < best ==> candidates@[best as int]@.last_used < (
                #[trigger] candidates@[j]@).last_used,
        decreases candidates.len() - i,
    {
        if candidates[i].last_used.is_before(&candidates[best].last_used) {
            best = i;
        }
        i = i + 1;
    }
    Some(best)
}

/// The identifiers of `candidates`, in their order.
fn identifiers(candidates: &Vec<ApiKey>) -> (ids: Vec<String>)
    ensures
        ids@.len() == candidates@.len(),
        forall|i: int| 0 <= i < ids@.len() ==> #[trigger] ids@[i]@ == candidates@[i]@.identifier,
{
    let mut ids: Vec<String> = Vec::new();
    let mut i: usize = 0;
    while i < candidates.len()
        invariant
            0 <= i <= candidates.len(),
            ids@.len() == i,
            forall|j: int| 0 <= j < i ==> #[trigger] ids@[j]@ == candidates@[j]@.identifier,
        decreases candidates.len() - i,
    {
        ids.push(candidates[i].key.clone());
        i = i + 1;
    }
    ids
}

/// Counts the use of the chosen key at `now` and hands the key out.  Fails
/// with `InternalError`, and changes nothing, where no key was chosen or the
/// chosen key is not in the pool.
pub fn commit(state: &mut AppState, chosen: Option<String>, now: Timestamp) -> (outcome: Result<
    String,
    RotatorError,
>)
    requires
        chosen is Some && old(state)@.keys.dom().contains(chosen.unwrap()@) ==> (
        RecordUpdate::Use { now }).fits(old(state)@.keys[chosen.unwrap()@]),
    ensures
        match outcome {
            Ok(key) => {
                &&& chosen is Some
                &&& key@ == chosen.unwrap()@
                &&& old(state)@.keys.dom().contains(key@)
                &&& final(state)@ == (Pool {
                    keys: old(state)@.keys.insert(key@, old(state)@.keys[key@].used(now@)),
                    ..old(state)@
                })
            },
            Err(error) => {
                &&& error == RotatorError::InternalError
                &&& chosen is None || !old(state)@.keys.dom().contains(chosen.unwrap()@)
                &&& final(state)@ == old(state)@
            },
        },
{
    match chosen {
        Some(key) => {
            if state.keys.mutate(key.as_str(), &RecordUpdate::Use { now }) {
                Ok(key)
            } else {
                Err(RotatorError::InternalError)
            }
        },
        None => Err(RotatorError::InternalError),
    }
}

/// Chooses the key that serves the next request, in the mode `mode`, and
/// counts the request and the use of the key.
pub fn select_next(state: &mut AppState, mode: SelectionMode) -> (outcome: Result<
    String,
    RotatorError,
>)
    ensures
        selected(old(state)@, final(state)@, mode, outcome_view(outcome)),
{
    let limits = state.limits;
    if !state.total_requests_this_minute.try_reserve(limits.tpm_limit) {
        return Err(RotatorError::RateLimitExceeded);
    }
    let candidates = eligible_keys(&state.keys, &limits);
    let ghost eligible = state@.keys.restrict(eligible_ids(state@.keys, limits));
    if candidates.len() == 0 {
        proof {
            assert forall|id: Seq<char>| !#[trigger] eligible_ids(state@.keys, limits).contains(
                id,
            ) by {
                if eligible_ids(state@.keys, limits).contains(id) {
                    assert(eligible.dom().contains(id));
                }
            }
        }
        return Err(RotatorError::NoAvailableKey);
    }
    let chosen = match mode {
        SelectionMode::Random => {
            let ids = identifiers(&candidates);
            let drawn = choose_random(&ids);
            proof {
                let i = choose|i: int| 0 <= i < ids@.len() && #[trigger] ids@[i]@ == drawn.unwrap()@;
                assert(eligible.dom().contains(candidates@[i]@.identifier));
            }
            drawn
        },
        SelectionMode::Auto => {
            match oldest(&candidates) {
                Some(best) => {
                    proof {
                        assert(eligible.dom().contains(candidates@[best as int]@.identifier));
                        assert forall|other: Seq<char>| #[trigger]
                            eligible_ids(state@.keys, limits).contains(
                                other,
                            ) implies candidates@[best as int]@.last_used
                            <= state@.keys[other].last_used by {
                            assert(eligible.dom().contains(other));
                            let j = choose|j: int|
                                0 <= j < candidates@.len() && #[trigger] candidates@[j]@.identifier
                                    == other;
                            assert(candidates@[j]@ == eligible[other]);
                        }
                    }
                    Some(candidates[best].key.clone())
                },
                None => None,
            }
        },
    };
    let now = Timestamp::now();
    commit(state, chosen, now)
}

/// Answers the request for the next key: the key that was chosen, or the
/// status code that says why none was.
pub fn get_next_key(state: &mut AppState, query: &NextQuery) -> (response: Result<
    ApiKeyResponse,
    u16,
>)
    ensures
        match response {
            Ok(chosen) => selected(
                old(state)@,
                final(state)@,
                mode_of(query.mode),
                Ok(chosen.api_key@),
            ),
            Err(status) => {
                ||| status == TOO_MANY_REQUESTS && selected(
                    old(state)@,
                    final(state)@,
                    mode_of(query.mode),
                    Err(RotatorError::RateLimitExceeded),
                )
                ||| status == SERVICE_UNAVAILABLE && selected(
                    old(state)@,
                    final(state)@,
                    mode_of(query.mode),
                    Err(RotatorError::NoAvailableKey),
                )
            },
        },
{
    let mode = selection_mode(query);
    match select_next(state, mode) {
        Ok(api_key) => Ok(ApiKeyResponse { api_key }),
        Err(error) => Err(error.status_code()),
    }
}

} // verus!
