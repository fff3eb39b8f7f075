//! A keyed GCRA rate limiter built on governor. GCRA (the Generic Cell Rate
//! Algorithm) smooths bursts to a sustained rate; each key has its own budget.
use vstd::prelude::*;
use std::hash::Hash;

pub mod keyed;

use crate::ratelimit::keyed::{KeyedState, keyed, check_key, retain_recent_keys};

verus! {

/// Returned by [`Limiter::check`] when the key has exhausted its budget.
#[derive(Debug, Clone, Copy)]
pub struct RateLimited;

impl RateLimited {
    /// The human-readable message.
    pub fn to_string(&self) -> (r: String)
        ensures
            r@ == "rate limited"@,
    {
        String::from_str("rate limited")
    }
}

/// A governor rate quota.
#[verifier::external_type_specification]
#[verifier::external_body]
pub struct ExQuota(governor::Quota);

/// `n`, or 1 when `n` is 0: rates are at least one cell per period.
pub fn nonzero(n: u32) -> (r: u32)
    ensures
        r == if n >= 1 { n } else { 1 },
        r >= 1,
{
    if n >= 1 {
        n
    } else {
        1
    }
}

/// The quota `governor::Quota::per_second(n)` builds.
pub uninterp spec fn per_second_quota(n: u32) -> governor::Quota;

/// The quota `governor::Quota::per_minute(n)` builds.
pub uninterp spec fn per_minute_quota(n: u32) -> governor::Quota;

/// `governor::Quota::per_second(n)`: a quota of `n` cells per second with a
/// burst of `n`, named by `per_second_quota`.
#[verifier::external_body]
fn quota_per_second(n: u32) -> (q: governor::Quota)
    requires
        n >= 1,
    ensures
        q == per_second_quota(n),
{
    governor::Quota::per_second(std::num::NonZeroU32::new(n).unwrap())
}

/// `governor::Quota::per_minute(n)`: a quota of `n` cells per minute with a
/// burst of `n`, named by `per_minute_quota`.
#[verifier::external_body]
fn quota_per_minute(n: u32) -> (q: governor::Quota)
    requires
        n >= 1,
    ensures
        q == per_minute_quota(n),
{
    governor::Quota::per_minute(std::num::NonZeroU32::new(n).unwrap())
}

/// A keyed GCRA rate limiter: every key has its own budget under one quota.
#[verifier::reject_recursive_types(K)]
pub struct Limiter<K: Hash + Eq + Clone> {
    pub state: KeyedState<K>,
}

impl<K: Hash + Eq + Clone> Limiter<K> {
    /// The quota every key is limited by.
    pub open spec fn quota(&self) -> governor::Quota {
        self.state.quota()
    }

    /// A limiter allowing `n` requests per second per key (burst up to `n`);
    /// `n` is clamped to at least 1.
    pub fn per_second(n: u32) -> (l: Self)
        ensures
            l.quota() == per_second_quota(if n >= 1 { n } else { 1 }),
    {
        Self::with_quota(quota_per_second(nonzero(n)))
    }

    /// A limiter allowing `n` requests per minute per key; `n` is clamped to at
    /// least 1.
    pub fn per_minute(n: u32) -> (l: Self)
        ensures
            l.quota() == per_minute_quota(if n >= 1 { n } else { 1 }),
    {
        Self::with_quota(quota_per_minute(nonzero(n)))
    }

    /// A limiter from a fully-specified quota (e.g. with a custom burst).
    pub fn with_quota(quota: governor::Quota) -> (l: Self)
        ensures
            l.quota() == quota,
    {
        Limiter { state: keyed(quota) }
    }

    /// `Ok(())` if a cell is available for `key` right now, otherwise
    /// [`RateLimited`]; which one depends on the clock and earlier checks.
    pub fn check(&self, key: &K) -> Result<(), RateLimited> {
        check_key(&self.state, key)
    }

    /// Drop the state of keys that have fully recovered their budget; call
    /// periodically for unbounded key spaces to reclaim memory.
    pub fn retain_recent(&self) {
        retain_recent_keys(&self.state)
    }
}

} // verus!
