use rust_basics::httpx::problem::Problem;
use rust_basics::tasks::domain::{Task, TaskCreatedEvent};
use rust_basics::tasks::service::{
    create_task, empty_title, internal_error, invalid_body, new_task, not_found,
};
use rust_basics::tasks::store::{listing, newest_first, task_key, INDEX_KEY};

fn member(p: &Problem, key: &str) -> Option<serde_json::Value> {
    p.to_json().get(key).cloned()
}

fn text(p: &Problem, key: &str) -> Option<String> {
    member(p, key).and_then(|v| v.as_str().map(str::to_owned))
}

fn task(id: &str, created_at: u64) -> Task {
    Task { id: id.to_string(), title: format!("t{id}"), done: false, created_at }
}

#[test]
fn store_keys() {
    assert_eq!(task_key("42"), "task:42");
    assert_eq!(task_key(""), "task:");
    assert_eq!(INDEX_KEY, "tasks");
}

#[test]
fn listing_is_newest_first_and_stable() {
    let tasks = vec![task("a", 10), task("b", 30), task("c", 20), task("d", 30), task("e", 10)];
    let ids: Vec<String> = newest_first(tasks).into_iter().map(|t| t.id).collect();
    assert_eq!(ids, vec!["b", "d", "c", "a", "e"]);
    assert!(newest_first(Vec::new()).is_empty());
}

#[test]
fn empty_title_is_rejected() {
    let err = new_task("id-1".to_string(), "", 5).expect_err("empty title");
    assert_eq!(err.status(), 400);
    assert_eq!(text(&err, "detail").as_deref(), Some("task title must not be empty"));
    assert_eq!(
        member(&create_task("").expect_err("empty title"), "code"),
        Some(serde_json::Value::from("empty_title"))
    );
}

#[test]
fn new_task_is_not_done() {
    let t = new_task("id-1".to_string(), "ship it", 1_700_000_000).expect("valid");
    assert_eq!(t.id, "id-1");
    assert_eq!(t.title, "ship it");
    assert!(!t.done);
    assert_eq!(t.created_at, 1_700_000_000);
}

#[test]
fn created_task_gets_a_fresh_uuid() {
    let a = create_task("ship it").expect("valid");
    let b = create_task("ship it").expect("valid");
    assert_eq!(a.title, "ship it");
    assert!(!a.done);
    assert_eq!(a.id.len(), 36);
    assert_ne!(a.id, b.id);
    assert!(a.created_at > 0);
}

#[test]
fn missing_task_problem() {
    let p = not_found("7");
    assert_eq!(p.status(), 404);
    assert_eq!(text(&p, "detail").as_deref(), Some("no task with id 7"));
    assert_eq!(text(&p, "title").as_deref(), Some("Task not found"));
    assert_eq!(text(&p, "instance").as_deref(), Some("/tasks/7"));
    assert_eq!(text(&p, "type").as_deref(), Some("https://rust-basics/errors/task-not-found"));
    assert_eq!(member(&p, "code"), Some(serde_json::Value::from("task_not_found")));
}

#[test]
fn other_problems() {
    let p = empty_title();
    assert_eq!(p.status(), 400);
    let p = invalid_body();
    assert_eq!(p.status(), 400);
    assert_eq!(text(&p, "detail").as_deref(), Some("invalid JSON body"));
    assert!(member(&p, "code").is_none());
    let p = internal_error("valkey down");
    assert_eq!(p.status(), 500);
    assert_eq!(text(&p, "detail").as_deref(), Some("valkey down"));
    assert_eq!(text(&p, "title").as_deref(), Some("Internal Server Error"));
}

#[test]
fn created_event_copies_the_task() {
    let t = task("x", 99);
    let e = TaskCreatedEvent::from(&t);
    assert_eq!(e.id, "x");
    assert_eq!(e.title, "tx");
    assert_eq!(e.created_at, 99);
}

#[test]
fn listing_skips_missing_and_sorts() {
    let found = vec![Some(task("a", 1)), None, Some(task("b", 3)), None, Some(task("c", 2))];
    let ids: Vec<String> = listing(found).into_iter().map(|t| t.id).collect();
    assert_eq!(ids, vec!["b", "c", "a"]);
    assert!(listing(vec![None, None]).is_empty());
}
