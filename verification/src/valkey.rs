//! Valkey client configuration and the rules of the cache handle that do not
//! touch the server.
use vstd::prelude::*;

verus! {

/// Valkey client configuration, read from `PREFIX`-prefixed environment
/// variables.
///
/// | Variable                   | Default                  | Meaning                          |
/// | -------------------------- | ------------------------ | -------------------------------- |
/// | `TASKS_VALKEY_URL`         | `redis://127.0.0.1:6379` | connection URL (RESP)            |
/// | `TASKS_VALKEY_PROBE_SECS`  | `5`                      | readiness-probe period (seconds) |
#[derive(Debug, Clone)]
pub struct Config {
    pub valkey_url: String,
    pub valkey_probe_secs: u64,
}

/// Default connection URL: `redis://127.0.0.1:6379`.
pub fn default_url() -> (r: String)
    ensures
        r@ == "redis://127.0.0.1:6379"@,
{
    String::from_str("redis://127.0.0.1:6379")
}

/// Default readiness-probe period: 5 seconds.
pub fn default_probe_secs() -> (r: u64)
    ensures
        r == 5,
{
    5
}

impl Default for Config {
    fn default() -> (c: Self)
        ensures
            c.valkey_url@ == "redis://127.0.0.1:6379"@,
            c.valkey_probe_secs == 5,
    {
        Config { valkey_url: default_url(), valkey_probe_secs: default_probe_secs() }
    }
}

impl Config {
    /// The readiness-probe period in seconds: the configured one, at least 1.
    pub fn probe_period_secs(&self) -> (r: u64)
        ensures
            r == if self.valkey_probe_secs >= 1 { self.valkey_probe_secs } else { 1 },
    {
        if self.valkey_probe_secs >= 1 {
            self.valkey_probe_secs
        } else {
            1
        }
    }
}

/// The expiry, in whole seconds, that a value stored with a time-to-live of
/// `ttl_secs` seconds gets: at least one second.
pub fn expiry_secs(ttl_secs: u64) -> (r: u64)
    ensures
        r == if ttl_secs >= 1 { ttl_secs } else { 1 },
{
    if ttl_secs >= 1 {
        ttl_secs
    } else {
        1
    }
}

/// The readiness check's answer, given whether the last server probe
/// succeeded.
pub fn readiness(healthy: bool) -> (r: Result<(), String>)
    ensures
        healthy ==> r is Ok,
        !healthy ==> r is Err && r->Err_0@ == "valkey unreachable"@,
{
    if healthy {
        Ok(())
    } else {
        Err(String::from_str("valkey unreachable"))
    }
}

} // verus!
