//! Unified tasks configuration, projected into the per-dependency
//! configurations. The field names match the sub-configurations', so a single
//! source feeds every one.
use vstd::prelude::*;
use crate::{httpx, kafka, otelx, valkey};

verus! {

/// The full tasks-service configuration; every key is also an environment
/// variable under the `TASKS_` prefix. The sampling ratio is in parts per
/// million.
#[derive(Debug, Clone)]
pub struct Config {
    pub addr: String,
    pub shutdown_timeout_secs: u64,
    pub log_level: String,
    pub log_format: String,
    pub valkey_url: String,
    pub valkey_probe_secs: u64,
    pub kafka_brokers: String,
    pub kafka_topic: String,
    pub kafka_client_id: String,
    pub kafka_probe_secs: u64,
    pub otel_enabled: bool,
    pub otel_service_name: String,
    pub otel_endpoint: String,
    pub otel_sampler_ratio_ppm: u32,
}

/// Default listen address: `0.0.0.0:8082`.
pub fn default_addr() -> (r: String)
    ensures
        r@ == "0.0.0.0:8082"@,
{
    String::from_str("0.0.0.0:8082")
}

/// Default graceful-shutdown budget: 10 seconds.
pub fn default_shutdown_secs() -> (r: u64)
    ensures
        r == 10,
{
    10
}

/// Default log level: `info`.
pub fn default_log_level() -> (r: String)
    ensures
        r@ == "info"@,
{
    String::from_str("info")
}

/// Default log format: `json`.
pub fn default_log_format() -> (r: String)
    ensures
        r@ == "json"@,
{
    String::from_str("json")
}

/// Default Valkey URL: `redis://127.0.0.1:6379`.
pub fn default_valkey_url() -> (r: String)
    ensures
        r@ == "redis://127.0.0.1:6379"@,
{
    String::from_str("redis://127.0.0.1:6379")
}

/// Default readiness-probe period: 5 seconds.
pub fn default_probe_secs() -> (r: u64)
    ensures
        r == 5,
{
    5
}

/// Default bootstrap seeds: `localhost:9092`.
pub fn default_brokers() -> (r: String)
    ensures
        r@ == "localhost:9092"@,
{
    String::from_str("localhost:9092")
}

/// Default topic: `tasks.events`.
pub fn default_topic() -> (r: String)
    ensures
        r@ == "tasks.events"@,
{
    String::from_str("tasks.events")
}

/// Default client id: `tasks`.
pub fn default_client_id() -> (r: String)
    ensures
        r@ == "tasks"@,
{
    String::from_str("tasks")
}

/// Default service name: `tasks`.
pub fn default_service() -> (r: String)
    ensures
        r@ == "tasks"@,
{
    String::from_str("tasks")
}

/// Default collector endpoint: `http://localhost:4317`.
pub fn default_endpoint() -> (r: String)
    ensures
        r@ == "http://localhost:4317"@,
{
    String::from_str("http://localhost:4317")
}

/// Default sampling ratio: every trace (1 000 000 parts per million).
pub fn default_ratio() -> (r: u32)
    ensures
        r == 1_000_000,
{
    1_000_000
}

impl Config {
    /// The HTTP-server configuration.
    pub fn httpx(&self) -> (c: httpx::config::Config)
        ensures
            c.addr@ == self.addr@,
            c.shutdown_timeout_secs == self.shutdown_timeout_secs,
            c.log_level@ == self.log_level@,
            c.log_format@ == self.log_format@,
    {
        httpx::config::Config {
            addr: self.addr.clone(),
            shutdown_timeout_secs: self.shutdown_timeout_secs,
            log_level: self.log_level.clone(),
            log_format: self.log_format.clone(),
        }
    }

    /// The Valkey configuration.
    pub fn valkey(&self) -> (c: valkey::Config)
        ensures
            c.valkey_url@ == self.valkey_url@,
            c.valkey_probe_secs == self.valkey_probe_secs,
    {
        valkey::Config { valkey_url: self.valkey_url.clone(), valkey_probe_secs: self.valkey_probe_secs }
    }

    /// The Kafka producer configuration, in the `tasks-producer` group.
    pub fn kafka(&self) -> (c: kafka::Config)
        ensures
            c.kafka_brokers@ == self.kafka_brokers@,
            c.kafka_topic@ == self.kafka_topic@,
            c.kafka_group@ == "tasks-producer"@,
            c.kafka_client_id@ == self.kafka_client_id@,
            c.kafka_probe_secs == self.kafka_probe_secs,
    {
        kafka::Config {
            kafka_brokers: self.kafka_brokers.clone(),
            kafka_topic: self.kafka_topic.clone(),
            kafka_group: String::from_str("tasks-producer"),
            kafka_client_id: self.kafka_client_id.clone(),
            kafka_probe_secs: self.kafka_probe_secs,
        }
    }

    /// The tracing configuration.
    pub fn otelx(&self) -> (c: otelx::Config)
        ensures
            c.otel_enabled == self.otel_enabled,
            c.otel_service_name@ == self.otel_service_name@,
            c.otel_endpoint@ == self.otel_endpoint@,
            c.otel_sampler_ratio_ppm == self.otel_sampler_ratio_ppm,
    {
        otelx::Config {
            otel_enabled: self.otel_enabled,
            otel_service_name: self.otel_service_name.clone(),
            otel_endpoint: self.otel_endpoint.clone(),
            otel_sampler_ratio_ppm: self.otel_sampler_ratio_ppm,
        }
    }
}

} // verus!
