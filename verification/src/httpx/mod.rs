//! Shared HTTP-service scaffolding: readiness tracking, RFC 9457 problem
//! details and environment-driven configuration.
pub mod health;
pub mod problem;
pub mod config;
