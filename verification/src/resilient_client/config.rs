//! Declarative configuration of the resilient client. Every field has a
//! default, so only what differs from it need be given.
use vstd::prelude::*;
use crate::resilient_client::defaults;

verus! {

/// Complete configuration of the client.
#[derive(Debug, Clone)]
pub struct ClientConfig {
    /// Maximum idle connections kept per host in the connection pool.
    pub pool_max_idle_per_host: usize,
    /// How long an idle connection is kept before being closed (seconds).
    pub pool_idle_timeout_secs: u64,
    /// TCP keepalive interval (seconds). `0` disables.
    pub tcp_keepalive_secs: u64,
    /// Default per-request timeout (ms), used when a target doesn't override it.
    pub default_timeout_ms: u64,
    /// Custom `User-Agent` header sent with every request.
    pub user_agent: Option<String>,
    /// One entry per logical outbound target; `name` is the lookup key.
    pub outbound_targets: Vec<OutboundTargetConfig>,
}

impl Default for ClientConfig {
    fn default() -> (c: Self)
        ensures
            c.pool_max_idle_per_host == 100,
            c.pool_idle_timeout_secs == 90,
            c.tcp_keepalive_secs == 30,
            c.default_timeout_ms == 5000,
            c.user_agent is None,
            c.outbound_targets@.len() == 0,
    {
        ClientConfig {
            pool_max_idle_per_host: defaults::pool_max_idle_per_host(),
            pool_idle_timeout_secs: defaults::pool_idle_timeout_secs(),
            tcp_keepalive_secs: defaults::tcp_keepalive_secs(),
            default_timeout_ms: defaults::default_timeout_ms(),
            user_agent: None,
            outbound_targets: Vec::new(),
        }
    }
}

/// Policy settings for one logical outbound target.
#[derive(Debug, Clone)]
pub struct OutboundTargetConfig {
    /// Logical identifier and metric label.
    pub name: String,
    /// Free-form selector / template URL, used only as a metric label.
    pub selector: String,
    /// Sustained requests/second (GCRA smooths short bursts). Clamped to ≥ 1.
    pub rate_limit: u32,
    /// Per-request timeout (ms); overrides the client default. `None` → default.
    pub timeout_ms: Option<u64>,
    /// Failure ratio in the window that trips the breaker, in parts per million.
    pub cb_threshold_ppm: u32,
    /// Minimum requests in the window before the ratio is evaluated.
    pub cb_min_requests: u32,
    /// Sliding measurement window (seconds).
    pub cb_window_secs: u64,
    /// How long the circuit stays Open before a probe is allowed (seconds).
    pub cb_half_open_timeout_secs: u64,
    /// Max retries of transient failures (`0` = no automatic retries).
    pub retry_max_attempts: u32,
    /// Base delay (ms) for full-jitter backoff.
    pub retry_base_ms: u64,
    /// Delay ceiling (ms) for full-jitter backoff.
    pub retry_cap_ms: u64,
}

impl OutboundTargetConfig {
    /// Whether every setting but the name has its default value.
    pub open spec fn has_default_policy(&self) -> bool {
        &&& self.selector@ == Seq::<char>::empty()
        &&& self.rate_limit == 1000
        &&& self.timeout_ms is None
        &&& self.cb_threshold_ppm == 500_000
        &&& self.cb_min_requests == 10
        &&& self.cb_window_secs == 10
        &&& self.cb_half_open_timeout_secs == 30
        &&& self.retry_max_attempts == 0
        &&& self.retry_base_ms == 100
        &&& self.retry_cap_ms == 30_000
    }

    /// The policy used for a target that has no configuration: the defaults,
    /// under `name`.
    pub fn fallback(name: &str) -> (c: Self)
        ensures
            c.name@ == name@,
            c.has_default_policy(),
    {
        OutboundTargetConfig { name: String::from_str(name), ..Self::default() }
    }

    /// The per-request timeout in milliseconds: the override, else `default_ms`.
    pub fn timeout(&self, default_ms: u64) -> (t: u64)
        ensures
            t == match self.timeout_ms {
                Some(ms) => ms,
                None => default_ms,
            },
    {
        match self.timeout_ms {
            Some(ms) => ms,
            None => default_ms,
        }
    }
}

impl Default for OutboundTargetConfig {
    fn default() -> (c: Self)
        ensures
            c.name@ == Seq::<char>::empty(),
            c.has_default_policy(),
    {
        OutboundTargetConfig {
            name: String::new(),
            selector: String::new(),
            rate_limit: defaults::rate_limit(),
            timeout_ms: None,
            cb_threshold_ppm: defaults::cb_threshold(),
            cb_min_requests: defaults::cb_min_requests(),
            cb_window_secs: defaults::cb_window_secs(),
            cb_half_open_timeout_secs: defaults::cb_half_open_timeout_secs(),
            retry_max_attempts: 0,
            retry_base_ms: defaults::retry_base_ms(),
            retry_cap_ms: defaults::retry_cap_ms(),
        }
    }
}

} // verus!
