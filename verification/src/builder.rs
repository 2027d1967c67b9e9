//! Assembly of a [`RowCache`]: capacity, the point-lookup query, and the
//! three lifetimes — time-to-idle and time-to-live for present entries, and
//! the separate, typically much shorter, lifetime for absent entries.

use vstd::prelude::*;

use crate::cache::RowCache;
use crate::expiry::DEFAULT_TTL_FOR_NONE;
use crate::expiry::DefaultExpiry;
use crate::query::QueryBuilder;
use crate::query::point_query;
use crate::query::spec_point_query;

verus! {

/// A builder for [`RowCache`] instances.
///
/// Starts from a capacity and a point-lookup query; the lifetimes default to
/// "no time-to-idle, no time-to-live, absent entries live for
/// [`DEFAULT_TTL_FOR_NONE`] milliseconds" until set.
pub struct RowCacheBuilder {
    /// The point-lookup query the cache will hand to the loader.
    pub query: String,
    /// Capacity bound handed to the storage engine.
    pub max_capacity: u64,
    /// Time-to-idle for present entries, in milliseconds.
    pub time_to_idle: Option<u64>,
    /// Time-to-live for present entries, in milliseconds.
    pub time_to_live: Option<u64>,
    /// The per-entry policy carrying the absent-entry lifetime.
    pub expiry: DefaultExpiry,
}

impl RowCacheBuilder {
    /// Starts a builder for a table whose key column is named `id`, in the
    /// dialect `DB`.
    pub fn new<DB: QueryBuilder>(max_capacity: u64, table: &str) -> (r: Self)
        ensures
            r.query@ == spec_point_query(
                DB::spec_quote(),
                DB::spec_placeholder(),
                table@,
                "id"@,
            ),
            r.max_capacity == max_capacity,
            r.time_to_idle is None,
            r.time_to_live is None,
            r.expiry.ttl_for_none == DEFAULT_TTL_FOR_NONE,
    {
        Self::for_table::<DB>(max_capacity, table, "id")
    }

    /// Starts a builder for `table`, keyed by the column `id`, in the
    /// dialect `DB`; the query becomes the dialect's point lookup.
    pub fn for_table<DB: QueryBuilder>(max_capacity: u64, table: &str, id: &str) -> (r: Self)
        ensures
            r.query@ == spec_point_query(DB::spec_quote(), DB::spec_placeholder(), table@, id@),
            r.max_capacity == max_capacity,
            r.time_to_idle is None,
            r.time_to_live is None,
            r.expiry.ttl_for_none == DEFAULT_TTL_FOR_NONE,
    {
        Self::for_query(max_capacity, point_query::<DB>(table, id))
    }

    /// Starts a builder with a caller-supplied point-lookup query. The query
    /// must contain the one placeholder that the key will be bound to.
    pub fn for_query(max_capacity: u64, query: String) -> (r: Self)
        ensures
            r.query@ == query@,
            r.max_capacity == max_capacity,
            r.time_to_idle is None,
            r.time_to_live is None,
            r.expiry.ttl_for_none == DEFAULT_TTL_FOR_NONE,
    {
        RowCacheBuilder {
            query,
            max_capacity,
            time_to_idle: Option::None,
            time_to_live: Option::None,
            expiry: DefaultExpiry::new(DEFAULT_TTL_FOR_NONE),
        }
    }

    /// Sets the time-to-idle for present entries: such an entry expires once
    /// `duration` milliseconds have passed since it was last read or
    /// written. Absent entries are governed by their own lifetime instead.
    pub fn time_to_idle(self, duration: u64) -> (r: Self)
        ensures
            r.time_to_idle == Option::Some(duration),
            r.query@ == self.query@,
            r.max_capacity == self.max_capacity,
            r.time_to_live == self.time_to_live,
            r.expiry == self.expiry,
    {
        let mut builder = self;
        builder.time_to_idle = Option::Some(duration);
        builder
    }

    /// Sets the time-to-live for present entries: such an entry expires once
    /// `duration` milliseconds have passed since its creation, however often
    /// it is read. Absent entries are governed by their own lifetime instead.
    pub fn time_to_live(self, duration: u64) -> (r: Self)
        ensures
            r.time_to_live == Option::Some(duration),
            r.query@ == self.query@,
            r.max_capacity == self.max_capacity,
            r.time_to_idle == self.time_to_idle,
            r.expiry == self.expiry,
    {
        let mut builder = self;
        builder.time_to_live = Option::Some(duration);
        builder
    }

    /// Sets the lifetime of absent entries: a cached "no such row" outcome
    /// expires once `duration` milliseconds have passed since its creation,
    /// after which the next request queries the backing store again.
    pub fn time_to_live_for_none(self, duration: u64) -> (r: Self)
        ensures
            r.expiry.ttl_for_none == duration,
            r.query@ == self.query@,
            r.max_capacity == self.max_capacity,
            r.time_to_idle == self.time_to_idle,
            r.time_to_live == self.time_to_live,
    {
        let mut builder = self;
        builder.expiry = DefaultExpiry::new(duration);
        builder
    }

    /// Finalizes the configuration into an empty cache.
    pub fn build<V>(self) -> (r: RowCache<V>)
        ensures
            r.query@ == self.query@,
            r.max_capacity == self.max_capacity,
            r.time_to_idle == self.time_to_idle,
            r.time_to_live == self.time_to_live,
            r.expiry == self.expiry,
            r.entries@ == Map::<i64, crate::cache::Entry<V>>::empty(),
            r.in_flight@ == Set::<i64>::empty(),
    {
        RowCache {
            query: self.query,
            max_capacity: self.max_capacity,
            time_to_idle: self.time_to_idle,
            time_to_live: self.time_to_live,
            expiry: self.expiry,
            entries: std::collections::HashMap::new(),
            in_flight: std::collections::HashSet::new(),
        }
    }
}

} // verus!
