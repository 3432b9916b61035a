//! A single to-do item and its mathematical view.

use chrono::NaiveDate;
use vstd::prelude::*;

verus! {

/// `chrono::NaiveDate`, a calendar date without a time zone. It is carried
/// through as an opaque value: nothing in this crate looks inside one.
#[verifier::external_type_specification]
#[verifier::external_body]
pub struct ExNaiveDate(chrono::NaiveDate);

/// One user-visible to-do item.
#[derive(Debug, Clone)]
pub struct Task {
    /// Assigned once, when the task is created; never changed or reused.
    pub id: usize,
    /// What is to be done. May be empty only while it is being edited.
    pub description: String,
    /// Reserved: no operation sets or reads it.
    pub due_date: Option<NaiveDate>,
    /// Whether the task has been done.
    pub completed: bool,
}

/// What a [`Task`] is in contracts: the same record with its text as a
/// sequence of characters and its id as a natural number.
pub struct TaskView {
    pub id: nat,
    pub description: Seq<char>,
    pub due_date: Option<NaiveDate>,
    pub completed: bool,
}

impl View for Task {
    type V = TaskView;

    open spec fn view(&self) -> TaskView {
        TaskView {
            id: self.id as nat,
            description: self.description@,
            due_date: self.due_date,
            completed: self.completed,
        }
    }
}

/// The views of a sequence of tasks, in the same order.
pub open spec fn task_views(tasks: Seq<Task>) -> Seq<TaskView> {
    tasks.map_values(|task: Task| task@)
}

/// The views of a sequence of borrowed tasks, in the same order.
pub open spec fn borrowed_task_views(tasks: Seq<&Task>) -> Seq<TaskView> {
    tasks.map_values(|task: &Task| task@)
}

impl TaskView {
    /// A task as it is when first created: not completed, with no due date.
    pub open spec fn fresh(id: nat, description: Seq<char>) -> TaskView {
        TaskView { id, description, due_date: None, completed: false }
    }

    /// The same task with its completion flag replaced.
    pub open spec fn with_completed(self, completed: bool) -> TaskView {
        TaskView { completed, ..self }
    }

    /// The same task with its text replaced.
    pub open spec fn with_description(self, description: Seq<char>) -> TaskView {
        TaskView { description, ..self }
    }
}

impl Task {
    /// Creates a task that is not completed and has no due date.
    pub fn new(id: usize, description: String) -> (task: Task)
        ensures
            task@ == TaskView::fresh(id as nat, description@),
    {
        Task { id, description, due_date: None, completed: false }
    }
}

} // verus!
