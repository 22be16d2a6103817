//! The state of a pool: its keys, its request counter and its limits.

use crate::config::Limits;
use crate::limiter::RateLimiter;
use crate::models::{ApiKey, KeyRecord};
use crate::store::{consistent, enumerates, KeyStore};
use vstd::prelude::*;

verus! {

/// The model of a pool.
pub struct Pool {
    /// The record of each key, under its identifier.
    pub keys: Map<Seq<char>, KeyRecord>,
    /// The requests served by the whole pool in the current minute.
    pub total_requests: nat,
    /// The limits that the pool is run with.
    pub limits: Limits,
}

/// `keys[at]` is the last of `keys` with the identifier `id`.
pub open spec fn last_with(keys: Seq<ApiKey>, id: Seq<char>, at: int) -> bool {
    &&& 0 <= at < keys.len()
    &&& keys[at]@.identifier == id
    &&& forall|later: int| at < later < keys.len() ==> (#[trigger] keys[later]@).identifier != id
}

/// `records` holds the records `keys`, each under its identifier and nothing
/// else; where an identifier occurs more than once in `keys`, the last
/// record with it stands.
pub open spec fn holds_latest(records: Map<Seq<char>, KeyRecord>, keys: Seq<ApiKey>) -> bool {
    &&& forall|id: Seq<char>| #[trigger]
        records.dom().contains(id) ==> exists|at: int| last_with(keys, id, at)
    &&& forall|id: Seq<char>, at: int| #[trigger]
        last_with(keys, id, at) ==> records.dom().contains(id) && records[id] == keys[at]@
}

/// The state of a pool.
pub struct AppState {
    pub keys: KeyStore,
    pub total_requests_this_minute: RateLimiter,
    pub limits: Limits,
}

impl View for AppState {
    type V = Pool;

    open spec fn view(&self) -> Pool {
        Pool {
            keys: self.keys@,
            total_requests: self.total_requests_this_minute@,
            limits: self.limits,
        }
    }
}

impl AppState {
    /// A pool without keys that has served no request.
    pub fn new(limits: Limits) -> (state: AppState)
        ensures
            state@.keys == Map::<Seq<char>, KeyRecord>::empty(),
            state@.total_requests == 0,
            state@.limits == limits,
    {
        AppState { keys: KeyStore::new(), total_requests_this_minute: RateLimiter::new(), limits }
    }

    /// The pool that holds the records `keys`, as they were once saved, and
    /// has served no request in the current minute.
    pub fn load(limits: Limits, keys: Vec<ApiKey>) -> (state: AppState)
        ensures
            holds_latest(state@.keys, keys@),
            state@.total_requests == 0,
            state@.limits == limits,
    {
        let mut store = KeyStore::new();
        let mut i: usize = 0;
        while i < keys.len()
            invariant
                0 <= i <= keys.len(),
                holds_latest(store@, keys@.take(i as int)),
            decreases keys.len() - i,
        {
            let ghost earlier = store@;
            let ghost done = keys@.take(i as int);
            let ghost more = keys@.take(i + 1);
            let ghost added = keys@[i as int]@.identifier;
            store.insert(keys[i].clone());
            proof {
                assert(last_with(more, added, i as int));
                assert forall|id: Seq<char>, at: int| id != added implies last_with(more, id, at)
                    == last_with(done, id, at) by {
                    if last_with(more, id, at) {
                        assert forall|later: int| at < later < done.len() implies (
                        #[trigger] done[later]@).identifier != id by {
                            assert(more[later]@.identifier != id);
                        }
                    }
                    if last_with(done, id, at) {
                        assert forall|later: int| at < later < more.len() implies (
                        #[trigger] more[later]@).identifier != id by {
                            if later < i {
                                assert(done[later]@.identifier != id);
                            }
                        }
                    }
                }
                assert forall|id: Seq<char>| #[trigger] store@.dom().contains(id) implies exists|
                    at: int,
                | last_with(more, id, at) by {
                    if id != added {
                        assert(earlier.dom().contains(id));
                        let at = choose|at: int| last_with(done, id, at);
                        assert(last_with(more, id, at));
                    }
                }
                assert forall|id: Seq<char>, at: int| #[trigger]
                    last_with(more, id, at) implies store@.dom().contains(id) && store@[id]
                    == more[at]@ by {
                    if id != added {
                        assert(last_with(done, id, at));
                    } else {
                        if at < i {
                            assert(more[i as int]@.identifier != id);
                        }
                    }
                }
            }
            i = i + 1;
        }
        assert(keys@.take(i as int) == keys@);
        AppState { keys: store, total_requests_this_minute: RateLimiter::new(), limits }
    }

    /// The records to save: a copy of each record of the pool, once, in an
    /// order that is not fixed.
    pub fn save(&self) -> (keys: Vec<ApiKey>)
        ensures
            enumerates(keys@, self@.keys),
            consistent(self@.keys),
            keys@.len() == self@.keys.dom().len(),
    {
        self.keys.snapshot()
    }
}

} // verus!
