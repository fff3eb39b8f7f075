//! The tasks service's core model.
use vstd::prelude::*;

verus! {

/// A single to-do item, persisted as JSON under `task:{id}`, with its id also
/// held in the `tasks` set so the list endpoint can enumerate them.
#[derive(Debug)]
pub struct Task {
    pub id: String,
    pub title: String,
    pub done: bool,
    /// Creation time as Unix epoch seconds.
    pub created_at: u64,
}

/// The event published when a task is created.
#[derive(Debug)]
pub struct TaskCreatedEvent {
    pub id: String,
    pub title: String,
    pub created_at: u64,
}

impl<'a> From<&'a Task> for TaskCreatedEvent {
    fn from(t: &'a Task) -> (e: Self) {
        TaskCreatedEvent { id: t.id.clone(), title: t.title.clone(), created_at: t.created_at }
    }
}

impl<'a> vstd::std_specs::convert::FromSpecImpl<&'a Task> for TaskCreatedEvent {
    open spec fn obeys_from_spec() -> bool {
        true
    }

    open spec fn from_spec(t: &'a Task) -> Self {
        TaskCreatedEvent { id: t.id, title: t.title, created_at: t.created_at }
    }
}

} // verus!
