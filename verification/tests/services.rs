use rust_basics::consumer::{on_event, Disposition};
use rust_basics::kafka::{consume_step, ConsumeAction, Delivery};
use rust_basics::{consumer, heartbeat, kafka, otelx, tasks, valkey};

#[test]
fn config_defaults() {
    let cfg = otelx::Config::default();
    assert!(!cfg.otel_enabled);
    assert_eq!(cfg.otel_endpoint, "http://localhost:4317");
    assert_eq!(cfg.otel_sampler_ratio_ppm, 1_000_000);
    assert_eq!(cfg.otel_service_name, "service");
}

#[test]
fn kafka_defaults_and_rules() {
    let cfg = kafka::Config::default();
    assert_eq!(cfg.kafka_brokers, "localhost:9092");
    assert_eq!(cfg.kafka_topic, "tasks.events");
    assert_eq!(cfg.kafka_group, "tasks-consumer");
    assert_eq!(cfg.kafka_client_id, "rust-basics");
    assert_eq!(cfg.probe_period_secs(), cfg.kafka_probe_secs.max(1));
    let zero = kafka::Config { kafka_probe_secs: 0, ..kafka::Config::default() };
    assert_eq!(zero.probe_period_secs(), 1);
    assert_eq!(kafka::resolve_topic("", "tasks.events"), "tasks.events");
    assert_eq!(kafka::resolve_topic("other", "tasks.events"), "other");
    assert!(kafka::readiness(true).is_ok());
    assert_eq!(kafka::readiness(false), Err("kafka brokers unreachable".to_string()));
}

#[test]
fn valkey_defaults_and_rules() {
    let cfg = valkey::Config::default();
    assert_eq!(cfg.valkey_url, "redis://127.0.0.1:6379");
    assert_eq!(cfg.valkey_probe_secs, 5);
    assert_eq!(cfg.probe_period_secs(), 5);
    let zero = valkey::Config { valkey_probe_secs: 0, ..valkey::Config::default() };
    assert_eq!(zero.probe_period_secs(), 1);
    assert_eq!(valkey::expiry_secs(0), 1);
    assert_eq!(valkey::expiry_secs(90), 90);
    assert!(valkey::readiness(true).is_ok());
    assert_eq!(valkey::readiness(false), Err("valkey unreachable".to_string()));
}

#[test]
fn heartbeat_defaults() {
    assert_eq!(heartbeat::default_addr(), "0.0.0.0:8081");
    assert_eq!(heartbeat::default_interval_ms(), 5000);
    let cfg = heartbeat::Config {
        addr: heartbeat::default_addr(),
        shutdown_timeout_secs: heartbeat::default_shutdown_secs(),
        log_level: heartbeat::default_log_level(),
        log_format: heartbeat::default_log_format(),
        interval_ms: heartbeat::default_interval_ms(),
        upstream_url: None,
    };
    let h = cfg.httpx();
    assert_eq!(h.addr, "0.0.0.0:8081");
    assert_eq!(h.shutdown_timeout_secs, 10);
    assert_eq!(h.log_level, "info");
    assert_eq!(h.log_format, "json");
}

#[test]
fn consumer_sub_configs() {
    let cfg = consumer::Config {
        addr: consumer::default_addr(),
        shutdown_timeout_secs: consumer::default_shutdown_secs(),
        log_level: consumer::default_log_level(),
        log_format: consumer::default_log_format(),
        kafka_brokers: consumer::default_brokers(),
        kafka_topic: consumer::default_topic(),
        kafka_group: consumer::default_group(),
        kafka_probe_secs: consumer::default_probe_secs(),
        otel_enabled: true,
        otel_service_name: consumer::default_service(),
        otel_endpoint: consumer::default_endpoint(),
        otel_sampler_ratio_ppm: consumer::default_ratio(),
    };
    let k = cfg.kafka();
    assert_eq!(k.kafka_client_id, "consumer");
    assert_eq!(k.kafka_group, cfg.kafka_group);
    assert_eq!(k.kafka_topic, cfg.kafka_topic);
    let o = cfg.otelx();
    assert!(o.otel_enabled);
    assert_eq!(o.otel_service_name, cfg.otel_service_name);
    assert_eq!(cfg.httpx().addr, cfg.addr);
}

#[test]
fn tasks_sub_configs() {
    let cfg = tasks::config::Config {
        addr: tasks::config::default_addr(),
        shutdown_timeout_secs: tasks::config::default_shutdown_secs(),
        log_level: tasks::config::default_log_level(),
        log_format: tasks::config::default_log_format(),
        valkey_url: tasks::config::default_valkey_url(),
        valkey_probe_secs: tasks::config::default_probe_secs(),
        kafka_brokers: tasks::config::default_brokers(),
        kafka_topic: tasks::config::default_topic(),
        kafka_client_id: tasks::config::default_client_id(),
        kafka_probe_secs: tasks::config::default_probe_secs(),
        otel_enabled: false,
        otel_service_name: tasks::config::default_service(),
        otel_endpoint: tasks::config::default_endpoint(),
        otel_sampler_ratio_ppm: tasks::config::default_ratio(),
    };
    let k = cfg.kafka();
    assert_eq!(k.kafka_group, "tasks-producer");
    assert_eq!(k.kafka_client_id, cfg.kafka_client_id);
    let v = cfg.valkey();
    assert_eq!(v.valkey_url, cfg.valkey_url);
    assert_eq!(cfg.httpx().log_format, cfg.log_format);
    assert_eq!(cfg.otelx().otel_sampler_ratio_ppm, 1_000_000);
}

#[test]
fn consume_loop_commits_only_accepted_records() {
    assert_eq!(consume_step(Delivery::Accepted), ConsumeAction::Commit);
    assert_eq!(consume_step(Delivery::Rejected), ConsumeAction::Stop);
    assert_eq!(consume_step(Delivery::RecvFailed), ConsumeAction::KeepPolling);
}

#[test]
fn undecodable_events_are_skipped_but_committed() {
    assert_eq!(on_event(true), (Disposition::Consumed, Delivery::Accepted));
    assert_eq!(on_event(false), (Disposition::Skipped, Delivery::Accepted));
    assert_eq!(consume_step(on_event(false).1), ConsumeAction::Commit);
}
