use std::sync::Arc;

use rust_basics::ping::{authorize, client_key, pong, version, Options, PingQuery};

#[test]
fn ping_returns_pong() {
    let body = pong(PingQuery { msg: None });
    assert_eq!(body.message, "pong");
    assert!(body.echo.is_none());
}

#[test]
fn ping_echoes_msg() {
    let body = pong(PingQuery { msg: Some("hello".to_string()) });
    assert_eq!(body.echo.as_deref(), Some("hello"));
    assert!(pong(PingQuery { msg: Some(String::new()) }).echo.is_none());
}

#[test]
fn version_reports_service() {
    let body = version("0.1.0", None);
    assert_eq!(body.service, "ping");
    assert_eq!(body.version, "0.1.0");
    assert_eq!(body.build, "unknown");
    assert_eq!(version("0.1.0", Some("abc123")).build, "abc123");
}

#[test]
fn secure_route_checks_bearer_token() {
    assert!(authorize(Some("Bearer s3cr3t"), "s3cr3t"));
    assert!(!authorize(Some("Bearer nope"), "s3cr3t"));
    assert!(!authorize(None, "s3cr3t"));
    assert!(!authorize(Some("s3cr3t"), "s3cr3t"));
    assert!(!authorize(Some("Bearer s3cr3tx"), "s3cr3t"));
    assert!(!authorize(Some("bearer s3cr3t"), "s3cr3t"));
}

#[test]
fn client_key_prefers_forwarded_for() {
    assert_eq!(client_key(Some(" 10.0.0.1 , 10.0.0.2"), Some("192.168.1.1")), "10.0.0.1");
    assert_eq!(client_key(Some("10.0.0.9"), None), "10.0.0.9");
    assert_eq!(client_key(None, Some("192.168.1.1")), "192.168.1.1");
    assert_eq!(client_key(None, None), "global");
    assert_eq!(client_key(Some(",x"), None), "");
}

#[test]
fn options_wire_the_routes() {
    let opts: Options<String> = Options::default();
    assert_eq!(opts.rate_limit_rps, 0);
    assert!(!opts.serves_secure());
    assert_eq!(opts.client_limit(), None);
    let opts = Options { rate_limit_rps: 2, api_key: Some(Arc::new("s3cr3t".to_string())) };
    assert!(opts.serves_secure());
    assert_eq!(opts.client_limit(), Some(2));
}
