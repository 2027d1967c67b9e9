//! A read-through, negative-caching lookup layer.
//!
//! The crate models a cache that sits in front of a keyed point lookup and
//! memoizes both "row found" and "row not found" outcomes, each with its own
//! lifetime, while guaranteeing that concurrent misses for one key trigger at
//! most one backing-store load.

mod builder;
mod cache;
mod expiry;
mod laws;
mod query;

pub use builder::RowCacheBuilder;
pub use cache::Entry;
pub use cache::LookupOutcome;
pub use cache::RowCache;
pub use cache::SharedError;
pub use expiry::DefaultExpiry;
pub use expiry::DEFAULT_TTL_FOR_NONE;
pub use laws::lemma_differentiated_expiry;
pub use laws::lemma_failure_then_retry;
pub use laws::lemma_invalidate_then_reload;
pub use laws::lemma_load_then_hit;
pub use laws::lemma_single_flight;
pub use query::MySql;
pub use query::Postgres;
pub use query::QueryBuilder;
pub use query::Sqlite;
pub use query::point_query;
pub use query::spec_point_query;
