//! Heartbeat worker configuration.
use vstd::prelude::*;
use crate::httpx;

verus! {

/// Heartbeat worker configuration: the shared HTTP fields (for the
/// health/metrics server) plus the worker's own tick interval and an
/// optional upstream whose health is checked through the resilient client on
/// each tick. All keys are prefixed `HEARTBEAT_`:
///
/// | Variable                          | Default        | Meaning                       |
/// | --------------------------------- | -------------- | ----------------------------- |
/// | `HEARTBEAT_ADDR`                  | `0.0.0.0:8081` | health/metrics listen address |
/// | `HEARTBEAT_SHUTDOWN_TIMEOUT_SECS` | `10`           | graceful-shutdown budget      |
/// | `HEARTBEAT_LOG_LEVEL`             | `info`         | log level                     |
/// | `HEARTBEAT_LOG_FORMAT`            | `json`         | `json` or `text`              |
/// | `HEARTBEAT_INTERVAL_MS`           | `5000`         | tick period in milliseconds   |
/// | `HEARTBEAT_UPSTREAM_URL`          | unset          | upstream polled each tick     |
#[derive(Debug, Clone)]
pub struct Config {
    pub addr: String,
    pub shutdown_timeout_secs: u64,
    pub log_level: String,
    pub log_format: String,
    pub interval_ms: u64,
    pub upstream_url: Option<String>,
}

/// Default listen address: `0.0.0.0:8081`.
pub fn default_addr() -> (r: String)
    ensures
        r@ == "0.0.0.0:8081"@,
{
    String::from_str("0.0.0.0:8081")
}

/// Default graceful-shutdown budget: 10 seconds.
pub fn default_shutdown_secs() -> (r: u64)
    ensures
        r == 10,
{
    10
}

/// Default log level: `info`.
pub fn default_log_level() -> (r: String)
    ensures
        r@ == "info"@,
{
    String::from_str("info")
}

/// Default log format: `json`.
pub fn default_log_format() -> (r: String)
    ensures
        r@ == "json"@,
{
    String::from_str("json")
}

/// Default tick period: 5000 ms.
pub fn default_interval_ms() -> (r: u64)
    ensures
        r == 5000,
{
    5000
}

impl Config {
    /// The shared HTTP fields, as an HTTP-server configuration.
    pub fn httpx(&self) -> (c: httpx::config::Config)
        ensures
            c.addr@ == self.addr@,
            c.shutdown_timeout_secs == self.shutdown_timeout_secs,
            c.log_level@ == self.log_level@,
            c.log_format@ == self.log_format@,
    {
        httpx::config::Config {
            addr: self.addr.clone(),
            shutdown_timeout_secs: self.shutdown_timeout_secs,
            log_level: self.log_level.clone(),
            log_format: self.log_format.clone(),
        }
    }
}

} // verus!
