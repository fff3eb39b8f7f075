//! The per-key state of a GCRA limiter, recording the quota it was built with.
use vstd::prelude::*;
use std::hash::Hash;
use crate::ratelimit::RateLimited;

verus! {

/// Governor's keyed rate limiter (a concurrent map from keys to cell
/// states). Whether a key has a cell available depends on the clock and on
/// earlier checks, so the library states nothing of it.
#[verifier::external_body]
#[verifier::reject_recursive_types(K)]
pub struct KeyedCells<K: Hash + Eq + Clone> {
    pub limiter: governor::DefaultKeyedRateLimiter<K>,
}

/// The per-key cells of a limiter together with the quota they were built
/// with. Only [`keyed`] makes one, from a single quota.
#[verifier::reject_recursive_types(K)]
pub struct KeyedState<K: Hash + Eq + Clone> {
    cells: KeyedCells<K>,
    quota: governor::Quota,
}

impl<K: Hash + Eq + Clone> KeyedState<K> {
    /// The quota the cells were built with.
    pub closed spec fn quota(&self) -> governor::Quota {
        self.quota
    }

    /// The per-key cells.
    pub fn cells(&self) -> &KeyedCells<K> {
        &self.cells
    }
}

/// `governor::RateLimiter::keyed(quota)`: fresh per-key cells under `quota`,
/// recorded with that same quota.
#[verifier::external_body]
pub(crate) fn keyed<K: Hash + Eq + Clone>(quota: governor::Quota) -> (s: KeyedState<K>)
    ensures
        s.quota() == quota,
{
    KeyedState { cells: KeyedCells { limiter: governor::RateLimiter::keyed(quota) }, quota }
}

/// `check_key(key)` on governor's keyed limiter: `Ok(())` if a cell is
/// available for `key` right now, else `RateLimited`; the outcome depends on
/// the clock and earlier checks and is not stated.
#[verifier::external_body]
pub(crate) fn check_key<K: Hash + Eq + Clone>(state: &KeyedState<K>, key: &K) -> Result<(), RateLimited> {
    state.cells.limiter.check_key(key).map_err(|_| RateLimited)
}

/// `retain_recent()` on governor's keyed limiter: drops the state of keys
/// that have fully recovered their budget.
#[verifier::external_body]
pub(crate) fn retain_recent_keys<K: Hash + Eq + Clone>(state: &KeyedState<K>) {
    state.cells.limiter.retain_recent();
}

} // verus!
