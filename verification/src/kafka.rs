//! Kafka client configuration, the consumed-record shape, and the rules of the
//! producer and consumer that do not touch the broker.
use vstd::prelude::*;

verus! {

/// Kafka client configuration, read from `PREFIX`-prefixed environment
/// variables. A producer ignores `kafka_group`; a consumer subscribes to
/// `kafka_topic`.
///
/// | Variable                  | Default          | Meaning                          |
/// | ------------------------- | ---------------- | -------------------------------- |
/// | `TASKS_KAFKA_BROKERS`     | `localhost:9092` | comma-separated bootstrap seeds  |
/// | `TASKS_KAFKA_TOPIC`       | `tasks.events`   | produce / subscribe topic        |
/// | `TASKS_KAFKA_GROUP`       | `tasks-consumer` | consumer group id                |
/// | `TASKS_KAFKA_CLIENT_ID`   | `rust-basics`    | client id advertised to brokers  |
/// | `TASKS_KAFKA_PROBE_SECS`  | `5`              | readiness-probe period (seconds) |
#[derive(Debug, Clone)]
pub struct Config {
    pub kafka_brokers: String,
    pub kafka_topic: String,
    pub kafka_group: String,
    pub kafka_client_id: String,
    pub kafka_probe_secs: u64,
}

/// Default bootstrap seeds: `localhost:9092`.
pub fn default_brokers() -> (r: String)
    ensures
        r@ == "localhost:9092"@,
{
    String::from_str("localhost:9092")
}

/// Default topic: `tasks.events`.
pub fn default_topic() -> (r: String)
    ensures
        r@ == "tasks.events"@,
{
    String::from_str("tasks.events")
}

/// Default consumer group: `tasks-consumer`.
pub fn default_group() -> (r: String)
    ensures
        r@ == "tasks-consumer"@,
{
    String::from_str("tasks-consumer")
}

/// Default client id: `rust-basics`.
pub fn default_client_id() -> (r: String)
    ensures
        r@ == "rust-basics"@,
{
    String::from_str("rust-basics")
}

/// Default readiness-probe period: 5 seconds.
pub fn default_probe_secs() -> (r: u64)
    ensures
        r == 5,
{
    5
}

impl Default for Config {
    fn default() -> (c: Self)
        ensures
            c.kafka_brokers@ == "localhost:9092"@,
            c.kafka_topic@ == "tasks.events"@,
            c.kafka_group@ == "tasks-consumer"@,
            c.kafka_client_id@ == "rust-basics"@,
            c.kafka_probe_secs == 5,
    {
        Config {
            kafka_brokers: default_brokers(),
            kafka_topic: default_topic(),
            kafka_group: default_group(),
            kafka_client_id: default_client_id(),
            kafka_probe_secs: default_probe_secs(),
        }
    }
}

impl Config {
    /// The readiness-probe period in seconds: the configured one, at least 1.
    pub fn probe_period_secs(&self) -> (r: u64)
        ensures
            r == if self.kafka_probe_secs >= 1 { self.kafka_probe_secs } else { 1 },
    {
        if self.kafka_probe_secs >= 1 {
            self.kafka_probe_secs
        } else {
            1
        }
    }
}

/// One consumed record handed to a handler.
#[derive(Debug, Clone)]
pub struct Message {
    pub topic: String,
    pub key: Option<Vec<u8>>,
    pub payload: Vec<u8>,
    pub partition: i32,
    pub offset: i64,
}

/// The topic a record is published to: `topic`, or the configured default
/// when `topic` is empty.
pub fn resolve_topic<'a>(topic: &'a str, default_topic: &'a str) -> (r: &'a str)
    ensures
        r@ == if topic@.len() == 0 { default_topic@ } else { topic@ },
{
    if topic.is_empty() {
        default_topic
    } else {
        topic
    }
}

/// The readiness check's answer, given whether the last broker probe
/// succeeded.
pub fn readiness(healthy: bool) -> (r: Result<(), String>)
    ensures
        healthy ==> r is Ok,
        !healthy ==> r is Err && r->Err_0@ == "kafka brokers unreachable"@,
{
    if healthy {
        Ok(())
    } else {
        Err(String::from_str("kafka brokers unreachable"))
    }
}

/// What one poll of the consume loop came to.
#[derive(Debug, Clone, Copy, PartialEq, Eq, Structural)]
pub enum Delivery {
    /// Receiving from the broker failed.
    RecvFailed,
    /// A record was received and its handler accepted it.
    Accepted,
    /// A record was received and its handler failed.
    Rejected,
}

/// What the consume loop does next.
#[derive(Debug, Clone, Copy, PartialEq, Eq, Structural)]
pub enum ConsumeAction {
    /// Log the failure and poll again; nothing is committed.
    KeepPolling,
    /// Commit the record's offset and poll again.
    Commit,
    /// Stop with the handler's error, leaving the record uncommitted so that
    /// it is delivered again.
    Stop,
}

/// What the consume loop does after `d`.
pub open spec fn action_for(d: Delivery) -> ConsumeAction {
    match d {
        Delivery::RecvFailed => ConsumeAction::KeepPolling,
        Delivery::Accepted => ConsumeAction::Commit,
        Delivery::Rejected => ConsumeAction::Stop,
    }
}

/// The consume loop's rule (at-least-once): a record's offset is committed
/// only after its handler accepts it; a failing handler stops the loop with
/// the record left for redelivery; a failed receive is logged and polling
/// goes on.
pub fn consume_step(d: Delivery) -> (a: ConsumeAction)
    ensures
        a == action_for(d),
        a == ConsumeAction::Commit <==> d == Delivery::Accepted,
        a == ConsumeAction::Stop <==> d == Delivery::Rejected,
        a == ConsumeAction::KeepPolling <==> d == Delivery::RecvFailed,
{
    match d {
        Delivery::RecvFailed => ConsumeAction::KeepPolling,
        Delivery::Accepted => ConsumeAction::Commit,
        Delivery::Rejected => ConsumeAction::Stop,
    }
}

} // verus!
