//! The rules of the tasks HTTP handlers: validating a new task, building it,
//! and the problem documents of failed requests.
use vstd::prelude::*;
use crate::httpx::problem::{Problem, ProblemView, json_string_of, json_text};
use crate::tasks::domain::Task;
use crate::text::join2;

verus! {

/// The current Unix time in whole seconds (0 if the clock reads before the
/// epoch). Nothing is promised of the value: it is the time.
#[verifier::external_body]
fn now_secs() -> u64 {
    std::time::SystemTime::now()
        .duration_since(std::time::UNIX_EPOCH)
        .unwrap_or_default()
        .as_secs()
}

/// `uuid::Uuid::new_v4().to_string()`: a fresh random id in the hyphenated
/// form, 36 characters long. Nothing more is promised: it is random.
#[verifier::external_body]
fn new_task_id() -> (r: String)
    ensures
        r@.len() == 36,
{
    uuid::Uuid::new_v4().to_string()
}

/// The 404 problem for a task id that does not exist.
pub fn not_found(id: &str) -> (p: Problem)
    ensures
        p@.status == 404,
        p@.detail == Some("no task with id "@ + id@),
        p@.type_uri == Some("https://rust-basics/errors/task-not-found"@),
        p@.title == Some("Task not found"@),
        p@.instance == Some("/tasks/"@ + id@),
        p@.extensions == map!["code"@ => json_string_of("task_not_found"@)],
{
    let detail = join2("no task with id ", id);
    let instance = join2("/tasks/", id);
    Problem::new(404, detail.as_str())
        .with_type("https://rust-basics/errors/task-not-found")
        .with_title("Task not found")
        .with_instance(instance.as_str())
        .with_extension("code", json_text("task_not_found"))
}

/// The problem answered for a task with an empty title: status 400, detail
/// `task title must not be empty`, extension `code` = `"empty_title"`.
pub open spec fn empty_title_problem() -> ProblemView {
    ProblemView {
        status: 400,
        type_uri: None,
        title: None,
        detail: Some("task title must not be empty"@),
        instance: None,
        extensions: map!["code"@ => json_string_of("empty_title"@)],
    }
}

/// The 400 problem for a task with an empty title.
pub fn empty_title() -> (p: Problem)
    ensures
        p@ == empty_title_problem(),
{
    Problem::new(400, "task title must not be empty").with_extension("code", json_text("empty_title"))
}

/// The 400 problem for a request body that is not valid JSON.
pub fn invalid_body() -> (p: Problem)
    ensures
        p@.status == 400,
        p@.detail == Some("invalid JSON body"@),
        p@.extensions.dom() == Set::<Seq<char>>::empty(),
{
    let p = Problem::new(400, "invalid JSON body");
    assert(p@.extensions.dom() =~= Set::<Seq<char>>::empty());
    p
}

/// The 500 problem for a store failure, with its detail.
pub fn internal_error(detail: &str) -> (p: Problem)
    ensures
        p@.status == 500,
        p@.detail == Some(detail@),
        p@.extensions.dom() == Set::<Seq<char>>::empty(),
{
    let p = Problem::new(500, detail);
    assert(p@.extensions.dom() =~= Set::<Seq<char>>::empty());
    p
}

/// A new, not-done task with the given id, title and creation time, or the
/// empty-title problem when `title` is empty.
pub fn new_task(id: String, title: &str, created_at: u64) -> (r: Result<Task, Problem>)
    ensures
        title@.len() == 0 ==> (r matches Err(p) && p@ == empty_title_problem()),
        title@.len() > 0 ==> (r matches Ok(t) && t.id@ == id@ && t.title@ == title@ && !t.done
            && t.created_at == created_at),
{
    if title.is_empty() {
        return Err(empty_title());
    }
    Ok(Task { id, title: String::from_str(title), done: false, created_at })
}

/// Create a task titled `title` with a fresh random id, created now; the
/// empty-title problem when `title` is empty.
pub fn create_task(title: &str) -> (r: Result<Task, Problem>)
    ensures
        title@.len() == 0 ==> (r matches Err(p) && p@ == empty_title_problem()),
        title@.len() > 0 ==> (r matches Ok(t) && t.title@ == title@ && !t.done && t.id@.len() == 36),
{
    if title.is_empty() {
        return Err(empty_title());
    }
    let id = new_task_id();
    let now = now_secs();
    new_task(id, title, now)
}

} // verus!
