//! The tasks service: its configuration, its model, and the rules of its
//! store and handlers that do not touch Valkey, Kafka or HTTP.
pub mod config;
pub mod domain;
pub mod service;
pub mod store;
