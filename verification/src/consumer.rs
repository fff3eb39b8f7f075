//! Consumer worker configuration, projected into the HTTP, Kafka and tracing
//! configurations.
use vstd::prelude::*;
use crate::{httpx, kafka, otelx};

verus! {

/// Consumer worker configuration: the shared HTTP fields (for the
/// health/metrics server), the broker subscription and tracing settings. All
/// keys are prefixed `CONSUMER_`; the sampling ratio is in parts per million.
///
/// | Variable                   | Default          | Meaning                       |
/// | -------------------------- | ---------------- | ----------------------------- |
/// | `CONSUMER_ADDR`            | `0.0.0.0:8083`   | health/metrics listen address |
/// | `CONSUMER_LOG_LEVEL`       | `info`           | log level                     |
/// | `CONSUMER_LOG_FORMAT`      | `json`           | `json` or `text`              |
/// | `CONSUMER_KAFKA_BROKERS`   | `localhost:9092` | comma-separated seeds         |
/// | `CONSUMER_KAFKA_TOPIC`     | `tasks.events`   | topic to drain                |
/// | `CONSUMER_KAFKA_GROUP`     | `tasks-consumer` | consumer group id             |
/// | `CONSUMER_OTEL_ENABLED`    | `false`          | export traces                 |
#[derive(Debug, Clone)]
pub struct Config {
    pub addr: String,
    pub shutdown_timeout_secs: u64,
    pub log_level: String,
    pub log_format: String,
    pub kafka_brokers: String,
    pub kafka_topic: String,
    pub kafka_group: String,
    pub kafka_probe_secs: u64,
    pub otel_enabled: bool,
    pub otel_service_name: String,
    pub otel_endpoint: String,
    pub otel_sampler_ratio_ppm: u32,
}

/// Default listen address: `0.0.0.0:8083`.
pub fn default_addr() -> (r: String)
    ensures
        r@ == "0.0.0.0:8083"@,
{
    String::from_str("0.0.0.0:8083")
}

/// Default graceful-shutdown budget: 10 seconds.
pub fn default_shutdown_secs() -> (r: u64)
    ensures
        r == 10,
{
    10
}

/// Default log level: `info`.
pub fn default_log_level() -> (r: String)
    ensures
        r@ == "info"@,
{
    String::from_str("info")
}

/// Default log format: `json`.
pub fn default_log_format() -> (r: String)
    ensures
        r@ == "json"@,
{
    String::from_str("json")
}

/// Default bootstrap seeds: `localhost:9092`.
pub fn default_brokers() -> (r: String)
    ensures
        r@ == "localhost:9092"@,
{
    String::from_str("localhost:9092")
}

/// Default topic: `tasks.events`.
pub fn default_topic() -> (r: String)
    ensures
        r@ == "tasks.events"@,
{
    String::from_str("tasks.events")
}

/// Default consumer group: `tasks-consumer`.
pub fn default_group() -> (r: String)
    ensures
        r@ == "tasks-consumer"@,
{
    String::from_str("tasks-consumer")
}

/// Default readiness-probe period: 5 seconds.
pub fn default_probe_secs() -> (r: u64)
    ensures
        r == 5,
{
    5
}

/// Default service name: `consumer`.
pub fn default_service() -> (r: String)
    ensures
        r@ == "consumer"@,
{
    String::from_str("consumer")
}

/// Default collector endpoint: `http://localhost:4317`.
pub fn default_endpoint() -> (r: String)
    ensures
        r@ == "http://localhost:4317"@,
{
    String::from_str("http://localhost:4317")
}

/// Default sampling ratio: every trace (1 000 000 parts per million).
pub fn default_ratio() -> (r: u32)
    ensures
        r == 1_000_000,
{
    1_000_000
}

impl Config {
    /// The HTTP-server configuration.
    pub fn httpx(&self) -> (c: httpx::config::Config)
        ensures
            c.addr@ == self.addr@,
            c.shutdown_timeout_secs == self.shutdown_timeout_secs,
            c.log_level@ == self.log_level@,
            c.log_format@ == self.log_format@,
    {
        httpx::config::Config {
            addr: self.addr.clone(),
            shutdown_timeout_secs: self.shutdown_timeout_secs,
            log_level: self.log_level.clone(),
            log_format: self.log_format.clone(),
        }
    }

    /// The Kafka consumer configuration, with client id `consumer`.
    pub fn kafka(&self) -> (c: kafka::Config)
        ensures
            c.kafka_brokers@ == self.kafka_brokers@,
            c.kafka_topic@ == self.kafka_topic@,
            c.kafka_group@ == self.kafka_group@,
            c.kafka_client_id@ == "consumer"@,
            c.kafka_probe_secs == self.kafka_probe_secs,
    {
        kafka::Config {
            kafka_brokers: self.kafka_brokers.clone(),
            kafka_topic: self.kafka_topic.clone(),
            kafka_group: self.kafka_group.clone(),
            kafka_client_id: String::from_str("consumer"),
            kafka_probe_secs: self.kafka_probe_secs,
        }
    }

    /// The tracing configuration.
    pub fn otelx(&self) -> (c: otelx::Config)
        ensures
            c.otel_enabled == self.otel_enabled,
            c.otel_service_name@ == self.otel_service_name@,
            c.otel_endpoint@ == self.otel_endpoint@,
            c.otel_sampler_ratio_ppm == self.otel_sampler_ratio_ppm,
    {
        otelx::Config {
            otel_enabled: self.otel_enabled,
            otel_service_name: self.otel_service_name.clone(),
            otel_endpoint: self.otel_endpoint.clone(),
            otel_sampler_ratio_ppm: self.otel_sampler_ratio_ppm,
        }
    }
}

/// How the worker counts one event.
#[derive(Debug, Clone, Copy, PartialEq, Eq, Structural)]
pub enum Disposition {
    /// The event decoded: counted as consumed.
    Consumed,
    /// The event did not decode: counted as skipped.
    Skipped,
}

/// How the worker counts an event, and what its handler answers the consume
/// loop: either way the record is accepted.
pub open spec fn event_outcome(decoded: bool) -> (Disposition, kafka::Delivery) {
    (if decoded { Disposition::Consumed } else { Disposition::Skipped }, kafka::Delivery::Accepted)
}

/// The worker's handling of one event, given whether its payload decoded: a
/// decoded event is counted as consumed, an undecodable one as skipped, and
/// both are accepted so that a poison record cannot wedge the loop.
pub fn on_event(decoded: bool) -> (r: (Disposition, kafka::Delivery))
    ensures
        r == event_outcome(decoded),
{
    if decoded {
        (Disposition::Consumed, kafka::Delivery::Accepted)
    } else {
        (Disposition::Skipped, kafka::Delivery::Accepted)
    }
}

/// A poison record does not wedge the loop: whether or not an event decodes,
/// the consume loop commits it and moves on.
pub proof fn lemma_every_event_is_committed(decoded: bool)
    ensures
        kafka::action_for(event_outcome(decoded).1) == kafka::ConsumeAction::Commit,
{
}

} // verus!
