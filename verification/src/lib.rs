//! Verified core of a small service workspace: resilience policy for outbound
//! HTTP, health and problem-details scaffolding, secret sealing, and the
//! configuration and domain rules of its services.
pub mod resilient_client;
pub mod text;
pub mod strmap;
pub mod httpx;
pub mod secrets;
pub mod heartbeat;
pub mod kafka;
pub mod otelx;
pub mod valkey;
pub mod tasks;
pub mod ping;
pub mod consumer;
pub mod ratelimit;
