//! The laws of the read-through layer, proved over the cache's own spec
//! functions. Each law relates the states before and after one step of the
//! protocol, as the contracts of [`RowCache`]'s operations describe them.

use std::sync::Arc;
use vstd::prelude::*;

use crate::cache::Entry;
use crate::cache::RowCache;

verus! {

/// Single flight: once a request has been elected to load `key` — the state
/// change [`RowCache::get_or_begin_load`] makes when it returns `MustLoad` —
/// no later request is elected a second loader while that load is pending,
/// whatever the clock then says.
pub proof fn lemma_single_flight<V>(
    c0: RowCache<V>,
    c1: RowCache<V>,
    key: i64,
    now0: u64,
    now1: u64,
)
    requires
        c0.must_load(key, now0),
        c1.entries@ == c0.entries@,
        c1.in_flight@ == c0.in_flight@.insert(key),
    ensures
        !c1.must_load(key, now1),
{
}

/// Read-through correctness: after a load for `key` completes successfully
/// with marker `m` — the state change [`RowCache::complete_load`] makes on a
/// successful outcome — every lookup of `key` observes exactly `m`, for as
/// long as the freshly created entry's own expiry rule has not fired. All
/// concurrent waiters and all later hits therefore see the one loaded
/// outcome, present or absent, with no further backing-store access.
pub proof fn lemma_load_then_hit<V>(
    c1: RowCache<V>,
    c2: RowCache<V>,
    key: i64,
    m: Option<Arc<V>>,
    now: u64,
    later: u64,
)
    requires
        c2.entries@ == c1.entries@.insert(key, (Entry { value: m, created: now, last_access: now })),
        !c2.entry_expired((Entry { value: m, created: now, last_access: now }), later),
    ensures
        c2.observed(key, later) == Option::Some(m),
{
}

/// Differentiated expiry: while the present-entry rules have not yet fired,
/// an absent entry of the same age is already gone once the configured
/// absent lifetime has elapsed — so a present and an absent entry created at
/// the same instant expire independently, each by its own rule.
pub proof fn lemma_differentiated_expiry<V>(
    c: RowCache<V>,
    absent: Entry<V>,
    present: Entry<V>,
    now: u64,
)
    requires
        absent.value is None,
        present.value is Some,
        present.created == absent.created,
        present.last_access == absent.created,
        now >= absent.created + c.expiry.ttl_for_none,
        c.time_to_live matches Some(t) ==> now < absent.created + t,
        c.time_to_idle matches Some(t) ==> now < absent.created + t,
    ensures
        c.entry_expired(absent, now),
        !c.entry_expired(present, now),
{
}

/// Failure non-caching: after a failed load for `key` completes — the state
/// change [`RowCache::complete_load`] makes on a failure — no entry for the
/// key exists, nothing is in flight for it, and so the very next request is
/// elected to load again, at any later instant.
pub proof fn lemma_failure_then_retry<V>(
    c1: RowCache<V>,
    c2: RowCache<V>,
    key: i64,
    later: u64,
)
    requires
        c2.entries@ == c1.entries@.remove(key),
        c2.in_flight@ == c1.in_flight@.remove(key),
    ensures
        !c2.entries@.contains_key(key),
        c2.must_load(key, later),
{
}

/// Invalidation: removing `key` — the state change [`RowCache::invalidate`]
/// makes — leaves no entry behind, so when no load is in flight the next
/// request queries the backing store again, regardless of how fresh the
/// removed entry was.
pub proof fn lemma_invalidate_then_reload<V>(
    c1: RowCache<V>,
    c2: RowCache<V>,
    key: i64,
    later: u64,
)
    requires
        c2.entries@ == c1.entries@.remove(key),
        c2.in_flight@ == c1.in_flight@,
        !c1.is_in_flight(key),
    ensures
        c2.must_load(key, later),
{
}

} // verus!
