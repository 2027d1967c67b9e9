//! The read-through cache core: a keyed store of presence markers with
//! differentiated expiry, plus the single-flight protocol that coalesces
//! concurrent loads for one key.
//!
//! Time is explicit: every operation takes the current instant as a
//! millisecond count, so the expiry rules are stated and proved exactly.
//! The caller that drives the cache performs the actual backing-store load
//! between [`RowCache::get_or_begin_load`] and [`RowCache::complete_load`];
//! this module decides, for every state and outcome, what is stored and what
//! each caller observes.

use std::collections::HashMap;
use std::collections::HashSet;
use std::sync::Arc;
use vstd::prelude::*;

use crate::expiry::DefaultExpiry;
use crate::query::QueryBuilder;
use crate::query::spec_point_query;

verus! {

broadcast use vstd::std_specs::hash::group_hash_axioms;

/// A duplicable, immutable snapshot of a backing-store failure, handed to
/// every caller that waited on the same in-flight load. A failure is never
/// stored as a cache entry.
#[derive(Debug)]
pub struct SharedError {
    /// Human-readable description of the backing-store failure.
    pub detail: String,
}

impl SharedError {
    /// Wraps a failure description.
    pub fn new(detail: String) -> (r: Self)
        ensures
            r.detail == detail,
    {
        SharedError { detail }
    }

    /// The failure description.
    pub fn message(&self) -> (r: &str)
        ensures
            r@ == self.detail@,
    {
        self.detail.as_str()
    }
}

impl Clone for SharedError {
    fn clone(&self) -> (r: Self)
        ensures
            r.detail@ == self.detail@,
    {
        SharedError { detail: self.detail.clone() }
    }
}

/// One cache entry: the presence marker together with the instants that the
/// expiry rules are measured from.
///
/// The marker is `Some` for "row found" (holding the shared handle) and
/// `None` for "row confirmed absent" — a cached outcome in its own right,
/// distinct from the key having no entry at all.
pub struct Entry<V> {
    /// The presence marker produced by a completed load.
    pub value: Option<Arc<V>>,
    /// Creation instant, in milliseconds; time-to-live rules count from here.
    pub created: u64,
    /// Last access instant, in milliseconds; time-to-idle counts from here.
    pub last_access: u64,
}

/// What a lookup decides: a valid entry was observed, or the caller has been
/// elected to perform the backing-store load, or another caller's load for
/// the same key is already in flight and its outcome should be awaited.
pub enum LookupOutcome<V> {
    /// A valid entry exists; its marker, with no backing-store access.
    Hit(Option<Arc<V>>),
    /// No valid entry and no load in flight: the caller must load and then
    /// report the outcome through [`RowCache::complete_load`].
    MustLoad,
    /// A load for this key is already in flight; the caller shares its
    /// outcome instead of loading again.
    InFlight,
}

/// The read-through cache: configuration, the entry store, and the set of
/// keys whose load is currently in flight.
pub struct RowCache<V> {
    /// The point-lookup query handed to the backing-store loader.
    pub query: String,
    /// Capacity bound, enforced by the storage engine's eviction; recorded
    /// here as configuration.
    pub max_capacity: u64,
    /// Time-to-idle for present entries, in milliseconds; `None` disables it.
    pub time_to_idle: Option<u64>,
    /// Time-to-live for present entries, in milliseconds; `None` disables it.
    pub time_to_live: Option<u64>,
    /// The per-entry policy giving absent entries their own lifetime.
    pub expiry: DefaultExpiry,
    /// The entry store, one presence marker per key.
    pub entries: HashMap<i64, Entry<V>>,
    /// Keys with a backing-store load in flight.
    pub in_flight: HashSet<i64>,
}

impl<V> RowCache<V> {
    /// Builds a cache for a table whose key column is named `id`, in the
    /// dialect `DB`, with default lifetimes.
    pub fn new<DB: QueryBuilder>(max_capacity: u64, table: &str) -> (r: Self)
        ensures
            r.query@ == spec_point_query(
                DB::spec_quote(),
                DB::spec_placeholder(),
                table@,
                "id"@,
            ),
            r.max_capacity == max_capacity,
            r.time_to_idle is None,
            r.time_to_live is None,
            r.expiry.ttl_for_none == crate::expiry::DEFAULT_TTL_FOR_NONE,
            r.entries@ == Map::<i64, Entry<V>>::empty(),
            r.in_flight@ == Set::<i64>::empty(),
    {
        crate::builder::RowCacheBuilder::new::<DB>(max_capacity, table).build()
    }

    /// Builds a cache for `table`, keyed by the column `id`, in the dialect
    /// `DB`, with default lifetimes.
    pub fn for_table<DB: QueryBuilder>(max_capacity: u64, table: &str, id: &str) -> (r: Self)
        ensures
            r.query@ == spec_point_query(DB::spec_quote(), DB::spec_placeholder(), table@, id@),
            r.max_capacity == max_capacity,
            r.time_to_idle is None,
            r.time_to_live is None,
            r.expiry.ttl_for_none == crate::expiry::DEFAULT_TTL_FOR_NONE,
            r.entries@ == Map::<i64, Entry<V>>::empty(),
            r.in_flight@ == Set::<i64>::empty(),
    {
        crate::builder::RowCacheBuilder::for_table::<DB>(max_capacity, table, id).build()
    }

    /// Builds a cache with a caller-supplied point-lookup query and default
    /// lifetimes.
    pub fn for_query(max_capacity: u64, query: String) -> (r: Self)
        ensures
            r.query@ == query@,
            r.max_capacity == max_capacity,
            r.time_to_idle is None,
            r.time_to_live is None,
            r.expiry.ttl_for_none == crate::expiry::DEFAULT_TTL_FOR_NONE,
            r.entries@ == Map::<i64, Entry<V>>::empty(),
            r.in_flight@ == Set::<i64>::empty(),
    {
        crate::builder::RowCacheBuilder::for_query(max_capacity, query).build()
    }

    /// Whether `e` is expired at `now`: an absent marker once the configured
    /// negative-cache lifetime has elapsed since creation; a present marker
    /// once its time-to-live (from creation) or time-to-idle (from last
    /// access) rule fires.
    pub open spec fn entry_expired(self, e: Entry<V>, now: u64) -> bool {
        match e.value {
            Option::Some(_) => (self.time_to_live matches Option::Some(t) && now >= e.created + t)
                || (self.time_to_idle matches Option::Some(t) && now >= e.last_access + t),
            Option::None => now >= e.created + self.expiry.ttl_for_none,
        }
    }

    /// Whether `key` has an unexpired entry at `now`.
    pub open spec fn has_valid(self, key: i64, now: u64) -> bool {
        self.entries@.contains_key(key) && !self.entry_expired(self.entries@[key], now)
    }

    /// The marker a lookup of `key` observes at `now`, if any.
    pub open spec fn observed(self, key: i64, now: u64) -> Option<Option<Arc<V>>> {
        if self.has_valid(key, now) {
            Option::Some(self.entries@[key].value)
        } else {
            Option::None
        }
    }

    /// Whether a load for `key` is in flight.
    pub open spec fn is_in_flight(self, key: i64) -> bool {
        self.in_flight@.contains(key)
    }

    /// Whether a request for `key` at `now` must be elected to load: no valid
    /// entry is observable and nobody else is loading.
    pub open spec fn must_load(self, key: i64, now: u64) -> bool {
        self.observed(key, now) is None && !self.is_in_flight(key)
    }

    /// Whether two cache states carry the same configuration.
    pub open spec fn same_config(self, other: Self) -> bool {
        &&& self.query@ == other.query@
        &&& self.max_capacity == other.max_capacity
        &&& self.time_to_idle == other.time_to_idle
        &&& self.time_to_live == other.time_to_live
        &&& self.expiry == other.expiry
    }

    /// Decides whether `e` is expired at `now`.
    fn is_expired(&self, e: &Entry<V>, now: u64) -> (r: bool)
        ensures
            r == self.entry_expired(*e, now),
    {
        match &e.value {
            Option::Some(_) => {
                let ttl_hit = match self.time_to_live {
                    Option::Some(t) => now >= e.created && now - e.created >= t,
                    Option::None => false,
                };
                let tti_hit = match self.time_to_idle {
                    Option::Some(t) => now >= e.last_access && now - e.last_access >= t,
                    Option::None => false,
                };
                ttl_hit || tti_hit
            },
            Option::None => now >= e.created && now - e.created >= self.expiry.ttl_for_none,
        }
    }

    /// Duplicates a presence marker by sharing the handle, never the row.
    fn clone_marker(value: &Option<Arc<V>>) -> (r: Option<Arc<V>>)
        ensures
            r == *value,
    {
        match value {
            Option::Some(a) => Option::Some(a.clone()),
            Option::None => Option::None,
        }
    }

    /// Looks `key` up at `now`: returns the marker of a valid entry (and
    /// refreshes its last access), or `None` when the key has no entry or
    /// only an expired one. Never touches the backing store.
    pub fn get(&mut self, key: i64, now: u64) -> (r: Option<Option<Arc<V>>>)
        ensures
            r == old(self).observed(key, now),
            old(self).observed(key, now) is Some ==> final(self).entries@ == old(
                self,
            ).entries@.insert(key, (Entry { last_access: now, ..old(self).entries@[key] })),
            old(self).observed(key, now) is None ==> final(self).entries@ == old(self).entries@,
            final(self).in_flight@ == old(self).in_flight@,
            final(self).same_config(*old(self)),
    {
        let hit = match self.entries.get(&key) {
            Option::Some(e) => !self.is_expired(e, now),
            Option::None => false,
        };
        if hit {
            let mut e = self.entries.remove(&key).unwrap();
            e.last_access = now;
            let m = Self::clone_marker(&e.value);
            let ghost pre = old(self).entries@;
            self.entries.insert(key, e);
            proof {
                assert(final(self).entries@ =~= pre.insert(
                    key,
                    (Entry { last_access: now, ..pre[key] }),
                ));
            }
            Option::Some(m)
        } else {
            Option::None
        }
    }

    /// The lookup half of the read-through protocol. A valid entry is
    /// returned at once, with no backing-store access. Otherwise the caller
    /// either joins an in-flight load or — exactly when no load is in flight
    /// — is elected to perform it, which marks the key as in flight.
    pub fn get_or_begin_load(&mut self, key: i64, now: u64) -> (r: LookupOutcome<V>)
        ensures
            final(self).same_config(*old(self)),
            match old(self).observed(key, now) {
                Option::Some(m) => {
                    &&& r == LookupOutcome::<V>::Hit(m)
                    &&& final(self).entries@ == old(self).entries@.insert(
                        key,
                        (Entry { last_access: now, ..old(self).entries@[key] }),
                    )
                    &&& final(self).in_flight@ == old(self).in_flight@
                },
                Option::None => {
                    &&& final(self).entries@ == old(self).entries@
                    &&& if old(self).is_in_flight(key) {
                        r == LookupOutcome::<V>::InFlight && final(self).in_flight@ == old(
                            self,
                        ).in_flight@
                    } else {
                        r == LookupOutcome::<V>::MustLoad && final(self).in_flight@ == old(
                            self,
                        ).in_flight@.insert(key)
                    }
                },
            },
    {
        match self.get(key, now) {
            Option::Some(m) => LookupOutcome::Hit(m),
            Option::None => {
                if self.in_flight.contains(&key) {
                    LookupOutcome::InFlight
                } else {
                    self.in_flight.insert(key);
                    LookupOutcome::MustLoad
                }
            },
        }
    }

    /// The completion half of the read-through protocol, run by the one
    /// caller that was elected to load `key`. A successful outcome — present
    /// or absent — is stored as a fresh entry and handed back unchanged; a
    /// failure is handed back without storing anything, and any stale entry
    /// for the key is dropped, so the very next request loads again.
    pub fn complete_load(
        &mut self,
        key: i64,
        outcome: Result<Option<Arc<V>>, SharedError>,
        now: u64,
    ) -> (r: Result<Option<Arc<V>>, SharedError>)
        requires
            old(self).is_in_flight(key),
        ensures
            final(self).same_config(*old(self)),
            final(self).in_flight@ == old(self).in_flight@.remove(key),
            match outcome {
                Result::Ok(marker) => {
                    &&& r == Result::<Option<Arc<V>>, SharedError>::Ok(marker)
                    &&& final(self).entries@ == old(self).entries@.insert(
                        key,
                        (Entry { value: marker, created: now, last_access: now }),
                    )
                },
                Result::Err(e) => {
                    &&& r == Result::<Option<Arc<V>>, SharedError>::Err(e)
                    &&& final(self).entries@ == old(self).entries@.remove(key)
                },
            },
    {
        self.in_flight.remove(&key);
        match outcome {
            Result::Ok(marker) => {
                let stored = Self::clone_marker(&marker);
                self.entries.insert(key, Entry { value: stored, created: now, last_access: now });
                Result::Ok(marker)
            },
            Result::Err(e) => {
                self.entries.remove(&key);
                Result::Err(e)
            },
        }
    }

    /// Removes the entry for `key`, whatever its variant or age. An in-flight
    /// load is unaffected; its outcome will be stored when it completes.
    pub fn invalidate(&mut self, key: i64)
        ensures
            final(self).entries@ == old(self).entries@.remove(key),
            final(self).in_flight@ == old(self).in_flight@,
            final(self).same_config(*old(self)),
    {
        self.entries.remove(&key);
    }

    /// Removes every entry.
    pub fn invalidate_all(&mut self)
        ensures
            final(self).entries@ == Map::<i64, Entry<V>>::empty(),
            final(self).in_flight@ == old(self).in_flight@,
            final(self).same_config(*old(self)),
    {
        self.entries.clear();
    }

    /// Wraps a loaded row into the marker that is stored and shared: a found
    /// row becomes a shared handle, "no such row" becomes the absent marker.
    pub fn wrap_row(row: Option<V>) -> (r: Option<Arc<V>>)
        ensures
            row matches Option::Some(v) ==> r matches Option::Some(w) && w == v,
            row is None ==> r is None,
    {
        match row {
            Option::Some(v) => Option::Some(Arc::new(v)),
            Option::None => Option::None,
        }
    }
}

} // verus!
