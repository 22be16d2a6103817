//! The key store: the records of the pool, each under its identifier.
//!
//! The records are kept in a `DashMap`.  The store owns the map and every
//! change goes through `&mut self`, so an operation of the store runs alone,
//! from its beginning to its end; callers that share a store guard it.  No
//! reference into the map outlives the call that took it, so no call waits
//! for a lock that the store itself holds.

use crate::models::{ApiKey, ApiKeyStatus, KeyRecord, RecordUpdate};
use dashmap::DashMap;
use vstd::prelude::*;

verus! {

/// The concurrent hash map of the `dashmap` crate.  Nothing inside it is
/// visible to the verifier; what it holds is named by [`stored_records`].
#[verifier::external_type_specification]
#[verifier::external_body]
#[verifier::reject_recursive_types(K)]
#[verifier::reject_recursive_types(V)]
#[verifier::reject_recursive_types(S)]
pub struct ExDashMap<K, V, S>(dashmap::DashMap<K, V, S>);

/// The map that the store keeps its records in.
pub type RecordMap = DashMap<String, ApiKey>;

/// What a `DashMap` of keys holds: for each identifier in it, the model of
/// the record that is stored under that identifier.
pub uninterp spec fn stored_records(map: RecordMap) -> Map<Seq<char>, KeyRecord>;

/// `DashMap::new`: the new map holds nothing.
#[verifier::external_body]
fn map_new() -> (created: RecordMap)
    ensures
        stored_records(created) =~= Map::empty(),
{
    DashMap::new()
}

/// `DashMap::insert`: afterwards the map holds `record` under `key` and is
/// otherwise unchanged; the record that `key` had before is handed back.
/// The call is taken not to unwind: hashing and comparing strings does not
/// panic, and the lock of a shard is not poisoned.
#[verifier::external_body]
fn map_insert(map: &mut RecordMap, key: String, record: ApiKey) -> (previous: Option<
    ApiKey,
>)
    ensures
        stored_records(*final(map)) == stored_records(*old(map)).insert(key@, record@),
        previous is Some <==> stored_records(*old(map)).dom().contains(key@),
        previous is Some ==> previous.unwrap()@ == stored_records(*old(map))[key@],
    no_unwind
{
    map.insert(key, record)
}

/// `DashMap::remove`: afterwards the map holds nothing under `key` and is
/// otherwise unchanged; the record that `key` had before is handed back.
/// The call is taken not to unwind, as for `map_insert`.
#[verifier::external_body]
fn map_remove(map: &mut RecordMap, key: &str) -> (removed: Option<ApiKey>)
    ensures
        stored_records(*final(map)) == stored_records(*old(map)).remove(key@),
        removed is Some <==> stored_records(*old(map)).dom().contains(key@),
        removed is Some ==> removed.unwrap()@ == stored_records(*old(map))[key@],
    no_unwind
{
    map.remove(key).map(|entry| entry.1)
}

/// `DashMap::get`: a copy of the record that the map holds under `key`, if
/// it holds one.
#[verifier::external_body]
fn map_get(map: &RecordMap, key: &str) -> (found: Option<ApiKey>)
    ensures
        found is Some <==> stored_records(*map).dom().contains(key@),
        found is Some ==> found.unwrap()@ == stored_records(*map)[key@],
{
    map.get(key).map(|entry| entry.value().clone())
}

/// `DashMap::len`: the number of identifiers that the map holds a record for.
#[verifier::external_body]
fn map_len(map: &RecordMap) -> (len: usize)
    ensures
        len == stored_records(*map).dom().len(),
{
    map.len()
}

/// `DashMap::iter`: copies of all entries of the map, each identifier once,
/// in an order that is not fixed.
#[verifier::external_body]
fn map_entries(map: &RecordMap) -> (entries: Vec<(String, ApiKey)>)
    ensures
        lists(entries@, stored_records(*map)),
{
    map.iter().map(|entry| (entry.key().clone(), entry.value().clone())).collect()
}

/// `entries` holds each entry of `records` once: every identifier of
/// `records` stands at exactly one position, with its record.
pub open spec fn lists(entries: Seq<(String, ApiKey)>, records: Map<Seq<char>, KeyRecord>) -> bool {
    &&& forall|i: int|
        0 <= i < entries.len() ==> records.dom().contains(#[trigger] entries[i].0@)
            && records[entries[i].0@] == entries[i].1@
    &&& forall|i: int, j: int|
        0 <= i < j < entries.len() ==> #[trigger] entries[i].0@ != #[trigger] entries[j].0@
    &&& forall|id: Seq<char>| #[trigger]
        records.dom().contains(id) ==> exists|i: int|
            0 <= i < entries.len() && #[trigger] entries[i].0@ == id
}

/// Every record stands under its own identifier, and there are finitely many.
pub open spec fn consistent(records: Map<Seq<char>, KeyRecord>) -> bool {
    &&& records.dom().finite()
    &&& forall|id: Seq<char>| #[trigger] records.dom().contains(id) ==> records[id].identifier == id
}

/// `snapshot` holds each record of `records` once, in some order.
pub open spec fn enumerates(snapshot: Seq<ApiKey>, records: Map<Seq<char>, KeyRecord>) -> bool {
    &&& forall|i: int|
        0 <= i < snapshot.len() ==> records.dom().contains(#[trigger] snapshot[i]@.identifier)
            && records[snapshot[i]@.identifier] == snapshot[i]@
    &&& forall|i: int, j: int|
        0 <= i < j < snapshot.len() ==> #[trigger] snapshot[i]@.identifier
            != #[trigger] snapshot[j]@.identifier
    &&& forall|id: Seq<char>| #[trigger]
        records.dom().contains(id) ==> exists|i: int|
            0 <= i < snapshot.len() && #[trigger] snapshot[i]@.identifier == id
}

/// The identifiers of `records` whose key has the status `status`.
pub open spec fn with_status(records: Map<Seq<char>, KeyRecord>, status: ApiKeyStatus) -> Set<
    Seq<char>,
> {
    records.dom().filter(|id: Seq<char>| records[id].status == status)
}

/// `records` after `update` was made to the record of `id`, if there is one.
pub open spec fn updated(records: Map<Seq<char>, KeyRecord>, id: Seq<char>, update: RecordUpdate)
    -> Map<Seq<char>, KeyRecord> {
    if records.dom().contains(id) {
        records.insert(id, update.apply(records[id]))
    } else {
        records
    }
}

/// `records` after `update` was made to every record.
pub open spec fn updated_all(records: Map<Seq<char>, KeyRecord>, update: RecordUpdate) -> Map<
    Seq<char>,
    KeyRecord,
> {
    records.map_values(|record: KeyRecord| update.apply(record))
}

/// The records of the pool.  Each record is stored under its own identifier,
/// so an identifier stands for at most one record.
pub struct KeyStore {
    map: RecordMap,
}

impl View for KeyStore {
    type V = Map<Seq<char>, KeyRecord>;

    closed spec fn view(&self) -> Map<Seq<char>, KeyRecord> {
        stored_records(self.map)
    }
}

impl KeyStore {
    #[verifier::type_invariant]
    spec fn well_formed(self) -> bool {
        consistent(stored_records(self.map))
    }

    /// A store without records.
    pub fn new() -> (store: KeyStore)
        ensures
            store@ == Map::<Seq<char>, KeyRecord>::empty(),
    {
        KeyStore { map: map_new() }
    }

    /// Stores `record` under its identifier, in place of the record that the
    /// identifier had before, if any.
    pub fn insert(&mut self, record: ApiKey)
        ensures
            final(self)@ == old(self)@.insert(record@.identifier, record@),
            consistent(final(self)@),
    {
        proof {
            use_type_invariant(&*self);
        }
        let key = record.key.clone();
        map_insert(&mut self.map, key, record);
    }

    /// Removes the record of `key`; says whether there was one.
    pub fn remove(&mut self, key: &str) -> (removed: bool)
        ensures
            removed == old(self)@.dom().contains(key@),
            final(self)@ == old(self)@.remove(key@),
            consistent(final(self)@),
    {
        proof {
            use_type_invariant(&*self);
        }
        let removed = map_remove(&mut self.map, key);
        removed.is_some()
    }

    /// A copy of the record of `key`.
    pub fn get(&self, key: &str) -> (found: Option<ApiKey>)
        ensures
            found is Some <==> self@.dom().contains(key@),
            found is Some ==> found.unwrap()@ == self@[key@] && found.unwrap().key@ == key@,
    {
        proof {
            use_type_invariant(self);
        }
        map_get(&self.map, key)
    }

    /// Whether the store holds a record for `key`.
    pub fn contains_key(&self, key: &str) -> (held: bool)
        ensures
            held == self@.dom().contains(key@),
    {
        map_get(&self.map, key).is_some()
    }

    /// Makes the change `update` to the record of `key`; says whether there
    /// is such a record.  Without one the store stays as it is.
    pub fn mutate(&mut self, key: &str, update: &RecordUpdate) -> (found: bool)
        requires
            old(self)@.dom().contains(key@) ==> update.fits(old(self)@[key@]),
        ensures
            found == old(self)@.dom().contains(key@),
            final(self)@ == updated(old(self)@, key@, *update),
            consistent(final(self)@),
    {
        proof {
            use_type_invariant(&*self);
        }
        match map_get(&self.map, key) {
            Some(record) => {
                let mut record = record;
                record.apply(update);
                let id = record.key.clone();
                map_insert(&mut self.map, id, record);
                true
            },
            None => false,
        }
    }

    /// Makes the change `update` to every record.
    pub fn mutate_all(&mut self, update: &RecordUpdate)
        requires
            forall|id: Seq<char>| #[trigger]
                old(self)@.dom().contains(id) ==> update.fits(old(self)@[id]),
        ensures
            final(self)@ == updated_all(old(self)@, *update),
            consistent(final(self)@),
    {
        proof {
            use_type_invariant(&*self);
        }
        let ghost before = self@;
        let entries = map_entries(&self.map);
        let mut i: usize = 0;
        while i < entries.len()
            invariant
                0 <= i <= entries.len(),
                lists(entries@, before),
                consistent(before),
                consistent(self@),
                self@.dom() == before.dom(),
                forall|id: Seq<char>| #[trigger] before.dom().contains(id) ==> update.fits(before[id]),
                forall|j: int|
                    0 <= j < i ==> self@[#[trigger] entries@[j].0@] == update.apply(
                        before[entries@[j].0@],
                    ),
                forall|j: int|
                    i <= j < entries.len() ==> self@[#[trigger] entries@[j].0@]
                        == before[entries@[j].0@],
            decreases entries.len() - i,
        {
            let ghost id = entries@[i as int].0@;
            assert(before.dom().contains(id) && before[id] == entries@[i as int].1@);
            let mut record = entries[i].1.clone();
            record.apply(update);
            let key = record.key.clone();
            map_insert(&mut self.map, key, record);
            assert(self@.dom() =~= before.dom());
            i = i + 1;
        }
        assert forall|id: Seq<char>| #[trigger] before.dom().contains(id) implies self@[id]
            == update.apply(before[id]) by {
            let j = choose|j: int| 0 <= j < entries@.len() && #[trigger] entries@[j].0@ == id;
            assert(self@[entries@[j].0@] == update.apply(before[entries@[j].0@]));
        }
        assert(self@ =~= updated_all(before, *update));
    }

    /// Copies of all records, each once, in an order that is not fixed.
    pub fn snapshot(&self) -> (snapshot: Vec<ApiKey>)
        ensures
            enumerates(snapshot@, self@),
            consistent(self@),
            snapshot@.len() == self@.dom().len(),
    {
        proof {
            use_type_invariant(self);
        }
        let entries = map_entries(&self.map);
        let mut snapshot: Vec<ApiKey> = Vec::new();
        let mut i: usize = 0;
        while i < entries.len()
            invariant
                0 <= i <= entries.len(),
                snapshot@.len() == i,
                lists(entries@, self@),
                consistent(self@),
                forall|j: int| 0 <= j < i ==> #[trigger] snapshot@[j]@ == entries@[j].1@,
            decreases entries.len() - i,
        {
            snapshot.push(entries[i].1.clone());
            i = i + 1;
        }
        proof {
            assert forall|j: int| 0 <= j < snapshot@.len() implies #[trigger] snapshot@[j]@.identifier
                == entries@[j].0@ && self@.dom().contains(snapshot@[j]@.identifier)
                && self@[snapshot@[j]@.identifier] == snapshot@[j]@ by {
                assert(self@.dom().contains(entries@[j].0@));
                assert(snapshot@[j]@ == entries@[j].1@);
            }
            assert forall|id: Seq<char>| #[trigger] self@.dom().contains(id) implies exists|j: int|
                0 <= j < snapshot@.len() && #[trigger] snapshot@[j]@.identifier == id by {
                let j = choose|j: int| 0 <= j < entries@.len() && #[trigger] entries@[j].0@ == id;
                assert(snapshot@[j]@.identifier == id);
            }
            assert forall|j: int, k: int| 0 <= j < k < snapshot@.len() implies #[trigger] snapshot@[j]@.identifier
                != #[trigger] snapshot@[k]@.identifier by {
                assert(entries@[j].0@ != entries@[k].0@);
            }
            lemma_enumeration_len(snapshot@, self@);
        }
        snapshot
    }

    /// The number of records whose key has the status `status`.
    pub fn count_by_status(&self, status: ApiKeyStatus) -> (count: usize)
        ensures
            with_status(self@, status).finite(),
            count == with_status(self@, status).len(),
    {
        let snapshot = self.snapshot();
        let ghost records = self@;
        let ghost mut seen: Set<Seq<char>> = Set::empty();
        let mut count: usize = 0;
        let mut i: usize = 0;
        while i < snapshot.len()
            invariant
                0 <= i <= snapshot.len(),
                enumerates(snapshot@, records),
                seen.finite(),
                seen.len() == count,
                count <= i,
                forall|id: Seq<char>|
                    seen.contains(id) <==> exists|j: int|
                        0 <= j < i && #[trigger] snapshot@[j]@.identifier == id
                            && snapshot@[j]@.status == status,
            decreases snapshot.len() - i,
        {
            if snapshot[i].status == status {
                proof {
                    seen = seen.insert(snapshot@[i as int]@.identifier);
                }
                count = count + 1;
            }
            i = i + 1;
        }
        assert(seen =~= with_status(records, status));
        count
    }

    /// The number of records.
    pub fn len(&self) -> (len: usize)
        ensures
            self@.dom().finite(),
            len == self@.dom().len(),
    {
        proof {
            use_type_invariant(self);
        }
        map_len(&self.map)
    }
}

/// A snapshot that holds each record once is as long as there are records.
pub proof fn lemma_enumeration_len(snapshot: Seq<ApiKey>, records: Map<Seq<char>, KeyRecord>)
    requires
        enumerates(snapshot, records),
        records.dom().finite(),
    ensures
        snapshot.len() == records.dom().len(),
    decreases snapshot.len(),
{
    if snapshot.len() == 0 {
        assert(records.dom() =~= Set::empty());
    } else {
        let last = snapshot.last();
        let rest = snapshot.drop_last();
        let fewer = records.remove(last@.identifier);
        assert(enumerates(rest, fewer)) by {
            assert forall|id: Seq<char>| #[trigger] fewer.dom().contains(id) implies exists|i: int|
                0 <= i < rest.len() && #[trigger] rest[i]@.identifier == id by {
                let i = choose|i: int|
                    0 <= i < snapshot.len() && #[trigger] snapshot[i]@.identifier == id;
                assert(rest[i]@.identifier == id);
            }
        }
        lemma_enumeration_len(rest, fewer);
    }
}

} // verus!
