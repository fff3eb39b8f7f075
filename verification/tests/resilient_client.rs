use std::time::Duration;

use rust_basics::resilient_client::backoff::{ceiling_ms, full_jitter};
use rust_basics::resilient_client::circuit_breaker::{CbState, CircuitBreaker};
use rust_basics::resilient_client::client::{
    breaker_for, classify, gate_request, next_attempt, rate_limited, rate_per_second, ExecOutcome,
    shutdown_step, PolicyTable, ResourceGroup, ShutdownAction,
};
use rust_basics::resilient_client::config::{ClientConfig, OutboundTargetConfig};
use rust_basics::resilient_client::defaults;
use rust_basics::resilient_client::error::{OutboundError, ShutdownError};

/// A failure ratio as parts per million.
fn ppm(ratio: f64) -> u32 {
    (ratio * 1_000_000.0).round() as u32
}

fn cb(threshold: f64, min: u32) -> CircuitBreaker {
    CircuitBreaker::new(ppm(threshold), min, 10_000, 1)
}

#[test]
fn attempt_zero_is_immediate() {
    assert_eq!(Duration::from_millis(full_jitter(0, 100, 30_000)), Duration::ZERO);
}

#[test]
fn zero_cap_is_immediate() {
    assert_eq!(Duration::from_millis(full_jitter(5, 100, 0)), Duration::ZERO);
}

#[test]
fn jitter_within_cap() {
    let cap = Duration::from_secs(5);
    for attempt in 1..=20 {
        for _ in 0..50 {
            assert!(Duration::from_millis(full_jitter(attempt, 100, 5_000)) <= cap);
        }
    }
}

#[test]
fn non_zero_attempt_produces_nonzero_delay() {
    let any_nonzero =
        (0..200).any(|_| Duration::from_millis(full_jitter(1, 1000, 5000)) > Duration::ZERO);
    assert!(any_nonzero, "expected at least one non-zero delay");
}

#[test]
fn jitter_stays_below_exponential_ceiling() {
    // attempt 2 with base 10: ceiling min(1000, 10 * 4) = 40
    for _ in 0..200 {
        assert!(full_jitter(2, 10, 1_000) <= 40);
    }
    // a huge attempt saturates at the cap without overflowing
    for _ in 0..50 {
        assert!(full_jitter(u32::MAX, u64::MAX, 7) <= 7);
    }
}

#[test]
fn ceiling_is_exact() {
    assert_eq!(ceiling_ms(0, 100, 30_000), 100);
    assert_eq!(ceiling_ms(3, 100, 30_000), 800);
    assert_eq!(ceiling_ms(9, 100, 30_000), 30_000);
    assert_eq!(ceiling_ms(64, 1, u64::MAX), u64::MAX);
    assert_eq!(ceiling_ms(5, 200, 100), 100);
}

#[test]
fn starts_closed_and_allows_requests() {
    let mut b = cb(0.5, 5);
    assert_eq!(b.state(), CbState::Closed);
    assert!(b.allow_request());
}

#[test]
fn opens_when_failure_ratio_exceeds_threshold() {
    let mut b = CircuitBreaker::new_at(ppm(0.5), 4, 10_000, 1, 1_000);
    for _ in 0..2 {
        b.record_success_at(1_000);
    }
    for _ in 0..2 {
        b.record_failure_at(1_000);
    }
    assert_eq!(b.state(), CbState::Open);
    assert!(!b.allow_request_at(1_000));
}

#[test]
fn does_not_open_before_min_requests() {
    let mut b = cb(0.5, 10);
    for _ in 0..4 {
        b.record_failure();
    }
    assert_eq!(b.state(), CbState::Closed);
}

#[test]
fn half_open_probe_success_closes_circuit() {
    let mut b = CircuitBreaker::new_at(ppm(0.5), 2, 10_000, 1, 1_000);
    b.record_failure_at(1_000);
    b.record_failure_at(1_000);
    assert_eq!(b.state(), CbState::Open);
    assert!(b.allow_request_at(1_001));
    assert_eq!(b.state(), CbState::HalfOpen);
    b.record_success_at(1_001);
    assert_eq!(b.state(), CbState::Closed);
}

#[test]
fn half_open_probe_failure_reopens_circuit() {
    let mut b = CircuitBreaker::new_at(ppm(0.5), 2, 10_000, 1, 1_000);
    b.record_failure_at(1_000);
    b.record_failure_at(1_000);
    assert!(b.allow_request_at(1_002));
    assert_eq!(b.state(), CbState::HalfOpen);
    b.record_failure_at(1_002);
    assert_eq!(b.state(), CbState::Open);
}

#[test]
fn failure_ratio_uses_division_not_multiplication() {
    let mut b = CircuitBreaker::new(ppm(0.5), 2, 60_000, 30_000);
    b.record_success();
    b.record_success();
    b.record_failure(); // 1/3 ≈ 0.33 < 0.5 → Closed
    assert_eq!(b.state(), CbState::Closed);
}

#[test]
fn open_rejects_until_half_open_timeout() {
    let mut b = CircuitBreaker::new_at(ppm(0.5), 1, 10_000, 500, 1_000);
    b.record_failure_at(1_000);
    assert_eq!(b.state(), CbState::Open);
    assert!(!b.allow_request_at(1_499));
    assert_eq!(b.state(), CbState::Open);
    // outcomes recorded while open are ignored
    b.record_success_at(1_200);
    assert_eq!(b.state(), CbState::Open);
    assert!(b.allow_request_at(1_500));
    assert_eq!(b.state(), CbState::HalfOpen);
    // one probe only: HalfOpen rejects until the probe's outcome arrives
    assert!(!b.allow_request_at(1_500));
    assert!(!b.allow_request_at(9_999));
    assert_eq!(b.state(), CbState::HalfOpen);
    b.record_success_at(1_600);
    assert_eq!(b.state(), CbState::Closed);
    assert!(b.allow_request_at(1_601));
}

#[test]
fn window_rotation_forgets_old_failures() {
    let mut b = CircuitBreaker::new_at(ppm(0.5), 3, 100, 1_000, 0);
    b.record_failure_at(10);
    b.record_failure_at(20);
    assert_eq!(b.state(), CbState::Closed);
    // the window expired: the two failures are forgotten
    b.record_failure_at(150);
    assert_eq!(b.state(), CbState::Closed);
    b.record_success_at(160);
    b.record_success_at(170);
    assert_eq!(b.state(), CbState::Closed);
}

#[test]
fn state_codes_round_trip() {
    for s in [CbState::Closed, CbState::Open, CbState::HalfOpen] {
        assert_eq!(CbState::from_u8(s.as_u8()), s);
    }
    assert_eq!(CbState::Open.as_u8(), 1);
    assert_eq!(CbState::from_u8(7), CbState::HalfOpen);
}

#[test]
fn fallback_sets_name_and_uses_defaults() {
    let fb = OutboundTargetConfig::fallback("test_target");
    assert_eq!(fb.name, "test_target");
    assert_eq!(fb.rate_limit, defaults::rate_limit());
}

#[test]
fn timeout_uses_override_or_default() {
    let mut cfg = OutboundTargetConfig::default();
    let default = Duration::from_secs(5);
    assert_eq!(Duration::from_millis(cfg.timeout(5_000)), default);
    cfg.timeout_ms = Some(1234);
    assert_eq!(Duration::from_millis(cfg.timeout(5_000)), Duration::from_millis(1234));
}

#[test]
fn client_config_defaults() {
    let cfg = ClientConfig::default();
    assert_eq!(cfg.pool_max_idle_per_host, 100);
    assert_eq!(cfg.pool_idle_timeout_secs, 90);
    assert_eq!(cfg.tcp_keepalive_secs, 30);
    assert_eq!(cfg.default_timeout_ms, 5_000);
    assert!(cfg.user_agent.is_none());
    assert!(cfg.outbound_targets.is_empty());
    let t = OutboundTargetConfig::default();
    assert_eq!(t.cb_threshold_ppm, 500_000);
    assert_eq!(t.cb_min_requests, 10);
    assert_eq!(t.retry_cap_ms, 30_000);
}

#[test]
fn transient_and_fatal_classify_correctly() {
    assert!(OutboundError::Transient("x".into()).is_transient());
    assert!(!OutboundError::Transient("x".into()).is_fatal());
    assert!(OutboundError::Fatal("x".into()).is_fatal());
    assert_eq!(OutboundError::Fatal("x".into()).error_type(), "fatal");
}

#[test]
fn error_messages() {
    assert_eq!(OutboundError::Transient("boom".into()).to_string(), "transient: boom");
    assert_eq!(OutboundError::Fatal("bad".into()).to_string(), "fatal: bad");
    assert_eq!(OutboundError::Transient("x".into()).error_type(), "transient");
    assert_eq!(
        ShutdownError::Timeout { in_flight: 3 }.to_string(),
        "shutdown timed out with 3 requests still in flight"
    );
}

#[test]
fn resource_group_key() {
    let g = ResourceGroup::new("upstream");
    assert_eq!(g.as_key(), "upstream");
}

fn fresh_breaker() -> CircuitBreaker {
    CircuitBreaker::new_at(ppm(0.5), 100, 10_000, 30_000, 1_000)
}

#[test]
fn classify_success_and_redirect() {
    let mut b = fresh_breaker();
    let c = classify(&mut b, 1_000, "t", 50, ExecOutcome::Response(200));
    assert!(c.result.is_ok());
    assert_eq!(c.status, "200");
    assert_eq!(c.error_type, "ok");
    let c = classify(&mut b, 1_000, "t", 50, ExecOutcome::Response(302));
    assert!(c.result.is_ok());
    assert_eq!(c.status, "302");
}

#[test]
fn classify_server_error_is_transient() {
    let mut b = fresh_breaker();
    let c = classify(&mut b, 1_000, "t", 50, ExecOutcome::Response(503));
    let err = c.result.unwrap_err();
    assert!(err.is_transient());
    assert_eq!(err.to_string(), "transient: 503 server error from t");
    assert_eq!(c.error_type, "server_error");
}

#[test]
fn classify_client_error_is_fatal() {
    let mut b = fresh_breaker();
    let c = classify(&mut b, 1_000, "t", 50, ExecOutcome::Response(404));
    let err = c.result.unwrap_err();
    assert!(err.is_fatal());
    assert_eq!(err.to_string(), "fatal: 404 client error from t");
    assert_eq!(c.error_type, "client_error");
}

#[test]
fn classify_upstream_rate_limit_is_transient() {
    let mut b = fresh_breaker();
    let c = classify(&mut b, 1_000, "api", 50, ExecOutcome::Response(429));
    let err = c.result.unwrap_err();
    assert!(err.is_transient());
    assert_eq!(err.to_string(), "transient: 429 from api");
    assert_eq!(c.error_type, "rate_limited_upstream");
}

#[test]
fn classify_timeout_is_transient() {
    let mut b = fresh_breaker();
    let c = classify(&mut b, 1_000, "t", 50, ExecOutcome::Timeout);
    let err = c.result.unwrap_err();
    assert!(err.is_transient());
    assert!(err.to_string().contains("timed out"), "{}", err.to_string());
    assert_eq!(err.to_string(), "transient: request to t timed out after 50ms");
    assert_eq!(c.status, "0");
    assert_eq!(c.error_type, "timeout");
}

#[test]
fn classify_transport_failures() {
    let mut b = fresh_breaker();
    let c = classify(&mut b, 1_000, "t", 50, ExecOutcome::Connect("refused".into()));
    assert_eq!(c.result.unwrap_err().to_string(), "transient: refused");
    assert_eq!(c.error_type, "connect_error");
    let c = classify(&mut b, 1_000, "t", 50, ExecOutcome::Other("reset".into()));
    assert_eq!(c.result.unwrap_err().to_string(), "transient: reset");
    assert_eq!(c.error_type, "error");
    let c = classify(&mut b, 1_000, "t", 50, ExecOutcome::Permanent("relative URL without a base".into()));
    let err = c.result.unwrap_err();
    assert!(err.is_fatal());
    assert_eq!(err.to_string(), "fatal: relative URL without a base");
    assert_eq!(c.error_type, "error");
    assert_eq!(c.status, "0");
}

#[test]
fn server_errors_trip_the_breaker_and_client_errors_do_not() {
    let mut b = CircuitBreaker::new_at(ppm(0.5), 2, 10_000, 30_000, 1_000);
    classify(&mut b, 1_000, "t", 50, ExecOutcome::Response(404));
    classify(&mut b, 1_000, "t", 50, ExecOutcome::Response(404));
    assert_eq!(b.state(), CbState::Closed);
    classify(&mut b, 1_000, "t", 50, ExecOutcome::Response(500));
    classify(&mut b, 1_000, "t", 50, ExecOutcome::Response(500));
    assert_eq!(b.state(), CbState::Open);
    let rej = gate_request(false, true, &mut b, 1_000, "t").unwrap_err();
    assert_eq!(rej.error.to_string(), "transient: circuit breaker open for t");
    assert_eq!(rej.counted_as.as_deref(), Some("circuit_breaker_open"));
}

#[test]
fn shutting_down_rejects_everything() {
    let mut b = fresh_breaker();
    let rej = gate_request(true, true, &mut b, 1_000, "t").unwrap_err();
    assert!(rej.error.is_transient());
    assert!(rej.error.to_string().contains("shutting down"));
    assert!(rej.counted_as.is_none());
    assert!(gate_request(false, true, &mut b, 1_000, "t").is_ok());
}

#[test]
fn rate_limit_is_checked_before_the_breaker() {
    // an Open breaker due for its probe is not touched when the rate limit rejects
    let mut b = CircuitBreaker::new_at(ppm(0.5), 1, 10_000, 500, 1_000);
    b.record_failure_at(1_000);
    let rej = gate_request(false, false, &mut b, 2_000, "t").unwrap_err();
    assert_eq!(rej.error.to_string(), "transient: rate limited (local) for t");
    assert_eq!(rej.counted_as.as_deref(), Some("rate_limited"));
    assert_eq!(b.state(), CbState::Open);
    // with a free cell the probe goes through, and only one
    assert!(gate_request(false, true, &mut b, 2_000, "t").is_ok());
    assert_eq!(b.state(), CbState::HalfOpen);
    assert!(gate_request(false, true, &mut b, 2_000, "t").is_err());
}

#[test]
fn local_rate_limit_rejection() {
    let rej = rate_limited("t");
    assert!(rej.error.to_string().contains("rate limited"));
    assert_eq!(rej.counted_as.as_deref(), Some("rate_limited"));
}

#[test]
fn retries_only_transient_up_to_the_limit() {
    let transient = OutboundError::Transient("x".into());
    let fatal = OutboundError::Fatal("x".into());
    assert_eq!(next_attempt(&transient, 0, 3), Some(1));
    assert_eq!(next_attempt(&transient, 2, 3), Some(3));
    assert_eq!(next_attempt(&transient, 3, 3), None);
    assert_eq!(next_attempt(&fatal, 0, 3), None);
    assert_eq!(next_attempt(&transient, 0, 0), None);
}

#[test]
fn policy_from_config() {
    let mut cfg = OutboundTargetConfig::fallback("t");
    cfg.rate_limit = 0;
    assert_eq!(rate_per_second(&cfg), 1);
    cfg.rate_limit = 50;
    assert_eq!(rate_per_second(&cfg), 50);
    cfg.cb_min_requests = 1;
    cfg.cb_half_open_timeout_secs = 2;
    let mut b = breaker_for(&cfg, 0);
    b.record_failure_at(10);
    assert_eq!(b.state(), CbState::Open);
    assert!(!b.allow_request_at(1_999));
    assert!(b.allow_request_at(2_010));
}

#[test]
fn unknown_targets_fall_back_to_the_default_policy() {
    let mut api = OutboundTargetConfig::fallback("api");
    api.rate_limit = 50;
    let mut api2 = OutboundTargetConfig::fallback("api");
    api2.rate_limit = 75;
    let mut other = OutboundTargetConfig::fallback("other");
    other.timeout_ms = Some(1234);
    let table = PolicyTable::new(vec![api, other, api2]);
    assert_eq!(table.lookup("api").map(|c| c.rate_limit), Some(75));
    assert_eq!(table.config_for("other").timeout(5000), 1234);
    assert!(table.lookup("missing").is_none());
    let fb = table.config_for("missing");
    assert_eq!(fb.name, "missing");
    assert_eq!(fb.rate_limit, 1000);
    assert_eq!(fb.timeout(5000), 5000);
    assert_eq!(fb.retry_max_attempts, 0);
}

#[test]
fn transient_failures_are_sent_max_plus_one_times() {
    let transient = OutboundError::Transient("x".into());
    let mut attempt = 0u32;
    let mut sends = 1;
    while let Some(next) = next_attempt(&transient, attempt, 3) {
        attempt = next;
        sends += 1;
    }
    assert_eq!(sends, 4);
    assert_eq!(attempt, 3);
}

#[test]
fn shutdown_waits_then_gives_up_at_the_deadline() {
    assert!(matches!(shutdown_step(0, 5, 10), ShutdownAction::Done));
    assert!(matches!(shutdown_step(0, 50, 10), ShutdownAction::Done));
    assert!(matches!(shutdown_step(3, 5, 10), ShutdownAction::Wait));
    match shutdown_step(3, 10, 10) {
        ShutdownAction::GiveUp(e) => {
            assert_eq!(e.to_string(), "shutdown timed out with 3 requests still in flight")
        }
        other => panic!("unexpected {other:?}"),
    }
}
