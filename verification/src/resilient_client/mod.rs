//! A policy-per-target HTTP client: per-target circuit breaking, full-jitter
//! retry of transient failures, per-target timeouts and a transient / fatal
//! error split.
pub mod circuit_breaker;
pub mod error;
pub mod backoff;
pub mod config;
pub mod defaults;
pub mod client;
