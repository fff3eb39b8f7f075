//! Default values of the client configuration.
use vstd::prelude::*;

verus! {

/// Idle connections kept per host: 100.
pub fn pool_max_idle_per_host() -> (r: usize)
    ensures
        r == 100,
{
    100
}

/// Idle-connection lifetime: 90 seconds.
pub fn pool_idle_timeout_secs() -> (r: u64)
    ensures
        r == 90,
{
    90
}

/// TCP keepalive interval: 30 seconds.
pub fn tcp_keepalive_secs() -> (r: u64)
    ensures
        r == 30,
{
    30
}

/// Default per-request timeout: 5000 ms.
pub fn default_timeout_ms() -> (r: u64)
    ensures
        r == 5000,
{
    5_000
}

/// Sustained requests per second per target: 1000.
pub fn rate_limit() -> (r: u32)
    ensures
        r == 1000,
{
    1_000
}

/// Failure ratio that trips the breaker, in parts per million: 500 000 (one
/// half).
pub fn cb_threshold() -> (r: u32)
    ensures
        r == 500_000,
{
    500_000
}

/// Requests in the window before the failure ratio is evaluated: 10.
pub fn cb_min_requests() -> (r: u32)
    ensures
        r == 10,
{
    10
}

/// Measurement window: 10 seconds.
pub fn cb_window_secs() -> (r: u64)
    ensures
        r == 10,
{
    10
}

/// Time an Open breaker waits before letting a probe through: 30 seconds.
pub fn cb_half_open_timeout_secs() -> (r: u64)
    ensures
        r == 30,
{
    30
}

/// Base delay of full-jitter backoff: 100 ms.
pub fn retry_base_ms() -> (r: u64)
    ensures
        r == 100,
{
    100
}

/// Delay ceiling of full-jitter backoff: 30 000 ms.
pub fn retry_cap_ms() -> (r: u64)
    ensures
        r == 30_000,
{
    30_000
}

} // verus!
