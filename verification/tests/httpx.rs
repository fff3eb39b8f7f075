use rust_basics::httpx::config::{
    default_addr, default_log_format, default_log_level, default_shutdown_secs, env_overrides,
    merge_config, overlay, text_logs, ConfigError,
};
use rust_basics::httpx::health::{readiness_report, Health};
use rust_basics::httpx::problem::{Problem, PROBLEM_CONTENT_TYPE};
use rust_basics::strmap::StrMap;

type Check = Box<dyn Fn() -> Result<(), String>>;

#[test]
fn renders_defaults_as_problem_json() {
    let problem = Problem::new(404, "task 7 does not exist");
    assert_eq!(problem.status(), 404);
    assert_eq!(PROBLEM_CONTENT_TYPE, "application/problem+json");
    let json = problem.to_json();
    assert_eq!(json["type"], "about:blank");
    assert_eq!(json["title"], "Not Found");
    assert_eq!(json["status"], 404);
    assert_eq!(json["detail"], "task 7 does not exist");
    assert!(json.get("instance").is_none());
    assert_eq!(json.as_object().map(|m| m.len()), Some(4));
}

#[test]
fn includes_extensions_and_overrides() {
    let problem = Problem::new(409, "already archived")
        .with_type("https://errors.example/conflict")
        .with_title("Conflict")
        .with_instance("/tasks/7")
        .with_extension("code", serde_json::Value::from("task_archived"));
    assert_eq!(problem.status(), 409);
    let json = problem.to_json();
    assert_eq!(json["type"], "https://errors.example/conflict");
    assert_eq!(json["title"], "Conflict");
    assert_eq!(json["instance"], "/tasks/7");
    assert_eq!(json["code"], "task_archived");
}

#[test]
fn standard_members_win_over_extensions() {
    let json = Problem::new(400, "bad")
        .with_extension("status", serde_json::Value::from("shadowed"))
        .with_extension("type", serde_json::Value::from("shadowed"))
        .with_extension("extra", serde_json::Value::from(1))
        .to_json();
    assert_eq!(json["status"], 400);
    assert_eq!(json["type"], "about:blank");
    assert_eq!(json["extra"], 1);
    assert_eq!(json.as_object().map(|m| m.len()), Some(5));
}

#[test]
fn unknown_status_titles_as_error() {
    assert_eq!(Problem::new(799, "odd").to_json()["title"], "Error");
}

#[test]
fn members_come_in_key_order() {
    let json = Problem::new(500, "boom").with_extension("code", serde_json::Value::from("x")).to_json();
    let keys: Vec<&String> = json.as_object().unwrap().keys().collect();
    assert_eq!(keys, vec!["code", "detail", "status", "title", "type"]);
}

#[test]
fn readyz_gate_closed_then_open() {
    let mut health: Health<Check> = Health::new();
    let r = readiness_report(&health);
    assert_eq!(r.status, 503);
    assert_eq!(r.label, "not_ready");
    assert!(r.checks.is_none());
    health.set_ready(true);
    assert!(health.is_ready());
    let r = readiness_report(&health);
    assert_eq!(r.status, 200);
    assert_eq!(r.label, "ready");
    assert_eq!(r.checks.map(|c| c.len()), Some(0));
}

#[test]
fn readyz_failing_check_is_degraded() {
    let mut health: Health<Check> = Health::new();
    health.register("db", Box::new(|| Ok(())));
    health.register("cache", Box::new(|| Err("connection refused".to_string())));
    health.set_ready(true);
    let r = readiness_report(&health);
    assert_eq!(r.status, 503);
    assert_eq!(r.label, "degraded");
    let checks = r.checks.expect("checks ran");
    assert_eq!(checks.get("cache").map(String::as_str), Some("connection refused"));
    assert_eq!(checks.get("db").map(String::as_str), Some("ok"));
}

#[test]
fn run_checks_reports_each_check() {
    let mut health: Health<Check> = Health::new();
    health.register("a", Box::new(|| Ok(())));
    health.register("b", Box::new(|| Ok(())));
    let (ok, reports) = health.run_checks();
    assert!(ok);
    assert_eq!(reports.len(), 2);
    health.register("b", Box::new(|| Err("down".to_string())));
    let (ok, reports) = health.run_checks();
    assert!(!ok);
    assert_eq!(reports.len(), 2);
    assert_eq!(reports.get("b").map(String::as_str), Some("down"));
}

#[test]
fn clearing_the_gate_makes_it_not_ready() {
    let mut health: Health<Check> = Health::new();
    health.set_ready(true);
    health.set_ready(false);
    assert!(!health.is_ready());
    assert_eq!(readiness_report(&health).status, 503);
}

#[test]
fn server_config_defaults() {
    assert_eq!(default_addr(), "0.0.0.0:8080");
    assert_eq!(default_shutdown_secs(), 10);
    assert_eq!(default_log_level(), "info");
    assert_eq!(default_log_format(), "json");
}

#[test]
fn env_overrides_strip_prefix_and_lowercase() {
    let vars = vec![
        ("CFGTEST_ADDR".to_string(), ":7777".to_string()),
        ("PATH".to_string(), "/bin".to_string()),
        ("CFGTEST_WORKERS".to_string(), "8".to_string()),
        ("CFGTEST".to_string(), "too short".to_string()),
    ];
    let got = env_overrides(&vars, "CFGTEST_");
    assert_eq!(
        got,
        vec![
            ("addr".to_string(), ":7777".to_string()),
            ("workers".to_string(), "8".to_string()),
        ]
    );
    assert!(env_overrides(&vars, "NOPE_").is_empty());
}

#[test]
fn env_overrides_win_over_file_values() {
    let mut doc: StrMap<String> = StrMap::new();
    doc.insert("addr".to_string(), ":9000".to_string());
    doc.insert("workers".to_string(), "4".to_string());
    let vars = vec![
        ("CFGTEST_ADDR".to_string(), ":7777".to_string()),
        ("CFGTEST_WORKERS".to_string(), "9".to_string()),
        ("HOME".to_string(), "/root".to_string()),
    ];
    let merged = overlay(doc, env_overrides(&vars, "CFGTEST_"));
    assert_eq!(merged.get("addr").map(String::as_str), Some(":7777"), "env wins over the file");
    assert_eq!(merged.get("workers").map(String::as_str), Some("9"));
    assert!(merged.get("home").is_none());
    assert_eq!(merged.len(), 2);
}

#[test]
fn empty_document_takes_env_only() {
    let vars = vec![("CFGONLY_ADDR".to_string(), ":8080".to_string())];
    let merged = overlay(StrMap::new(), env_overrides(&vars, "CFGONLY_"));
    assert_eq!(merged.get("addr").map(String::as_str), Some(":8080"));
    assert!(merged.get("workers").is_none());
}

#[test]
fn later_settings_win() {
    let doc: StrMap<u32> = StrMap::new();
    let merged = overlay(doc, vec![("k".to_string(), 1), ("k".to_string(), 2)]);
    assert_eq!(merged.get("k"), Some(&2));
}

#[test]
fn log_format_text_is_case_insensitive() {
    assert!(text_logs("text"));
    assert!(text_logs("TeXt"));
    assert!(!text_logs("json"));
    assert!(!text_logs("texts"));
    assert!(!text_logs(""));
    assert!(!text_logs("tëxt"));
}

fn yaml(text: &str) -> serde_yaml_ng::Value {
    serde_yaml_ng::from_str(text).unwrap()
}

#[test]
fn merged_config_types_env_values_and_env_wins() {
    let vars = vec![
        ("CFGTEST_ADDR".to_string(), ":7777".to_string()),
        ("CFGTEST_WORKERS".to_string(), "9".to_string()),
        ("CFGTEST_FLAGS".to_string(), "[a, b]".to_string()),
        ("OTHER".to_string(), "x".to_string()),
    ];
    let (m, others) = merge_config(Some("addr: \":9000\"\nworkers: 4\nlevel: info\n1: one\n"), &vars, "CFGTEST_")
        .ok()
        .unwrap();
    assert_eq!(m.get("addr"), Some(&yaml("\":7777\"")));
    assert_eq!(m.get("workers"), Some(&yaml("9")));
    assert!(m.get("workers").unwrap().is_u64());
    assert_eq!(m.get("flags"), Some(&yaml("[a, b]")));
    assert_eq!(m.get("level"), Some(&yaml("info")));
    assert_eq!(m.len(), 4);
    assert_eq!(others.len(), 1);
    assert_eq!(others[0].0, yaml("1"));
}

#[test]
fn missing_file_is_env_only() {
    let vars = vec![("CFGONLY_ADDR".to_string(), ":8080".to_string())];
    let (m, others) = merge_config(None, &vars, "CFGONLY_").ok().unwrap();
    assert_eq!(m.get("addr"), Some(&yaml("\":8080\"")));
    assert_eq!(m.len(), 1);
    assert!(others.is_empty());
}

#[test]
fn bad_files_are_rejected() {
    assert!(matches!(merge_config(Some("a: [1, 2"), &Vec::new(), "X_"), Err(ConfigError::Parse(_))));
    assert!(matches!(merge_config(Some("- 1\n- 2\n"), &Vec::new(), "X_"), Err(ConfigError::RootNotMapping)));
    assert!(matches!(merge_config(Some(""), &Vec::new(), "X_"), Err(ConfigError::RootNotMapping)));
}

#[test]
fn yaml_file_only() {
    let vars = vec![("HOME".to_string(), "/root".to_string())];
    let (m, _) = merge_config(Some("addr: \":9000\"\nworkers: 4\n"), &vars, "APP_").ok().unwrap();
    assert_eq!(m.get("addr").and_then(|v| v.as_str()), Some(":9000"));
    assert_eq!(m.get("workers").and_then(|v| v.as_u64()), Some(4));
}

#[test]
fn env_overlays_file_with_correct_types() {
    let vars = vec![
        ("CFGTEST_ADDR".to_string(), ":7777".to_string()),
        ("CFGTEST_WORKERS".to_string(), "9".to_string()),
    ];
    let (m, _) = merge_config(Some("addr: \":9000\"\nworkers: 4\n"), &vars, "CFGTEST_").ok().unwrap();
    assert_eq!(m.get("addr").and_then(|v| v.as_str()), Some(":7777"), "env wins over the file");
    assert_eq!(m.get("workers").and_then(|v| v.as_u64()), Some(9), "env scalar is typed, not left as a string");
}
