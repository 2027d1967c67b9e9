//! Per-entry expiry policy: found rows follow the cache-wide lifetime rules,
//! while "row not found" entries get their own, typically much shorter,
//! time-to-live so that newly created rows become visible promptly.

use vstd::prelude::*;

verus! {

/// Default negative-cache lifetime, in milliseconds, used when no explicit
/// lifetime for absent entries is configured.
pub const DEFAULT_TTL_FOR_NONE: u64 = 60000;

/// An expiry policy that distinguishes present from absent entries.
///
/// A present entry gets no per-entry override (it falls back to the cache-wide
/// time-to-live / time-to-idle rules); an absent entry is given the configured
/// `ttl_for_none` lifetime, counted from its creation.
#[derive(Clone, Copy, PartialEq, Eq, Structural)]
pub struct DefaultExpiry {
    /// Lifetime of an absent ("row not found") entry, in milliseconds.
    pub ttl_for_none: u64,
}

impl DefaultExpiry {
    /// Builds a policy whose absent entries live for `ttl_for_none` milliseconds.
    pub fn new(ttl_for_none: u64) -> (r: Self)
        ensures
            r.ttl_for_none == ttl_for_none,
    {
        DefaultExpiry { ttl_for_none }
    }

    /// Per-entry expiry override decided at entry creation: `None` (no
    /// override) for a present value, the negative-cache lifetime for an
    /// absent value.
    pub fn expire_after_create<W>(&self, value: &Option<W>) -> (r: Option<u64>)
        ensures
            r == (if value is Some {
                Option::<u64>::None
            } else {
                Option::Some(self.ttl_for_none)
            }),
    {
        match value {
            Option::Some(_) => Option::None,
            Option::None => Option::Some(self.ttl_for_none),
        }
    }
}

impl Default for DefaultExpiry {
    /// The default policy keeps absent entries for [`DEFAULT_TTL_FOR_NONE`]
    /// milliseconds.
    fn default() -> (r: Self)
        ensures
            r.ttl_for_none == DEFAULT_TTL_FOR_NONE,
    {
        DefaultExpiry::new(DEFAULT_TTL_FOR_NONE)
    }
}

} // verus!
