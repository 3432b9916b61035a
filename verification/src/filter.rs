//! The three ways of restricting which tasks are shown.

use crate::task::{Task, TaskView};
use vstd::prelude::*;

verus! {

/// A restriction on what is displayed. It never affects what is stored.
#[derive(Debug, Clone, Copy, PartialEq, Eq, Structural)]
pub enum Filter {
    /// Every task.
    All,
    /// The tasks that are not completed.
    Active,
    /// The tasks that are completed.
    Completed,
}

impl Filter {
    /// Whether a task is shown under this filter.
    pub open spec fn admits(self, task: TaskView) -> bool {
        match self {
            Filter::All => true,
            Filter::Active => !task.completed,
            Filter::Completed => task.completed,
        }
    }

    /// [`Filter::admits`] as a predicate on tasks, for use with `Seq::filter`.
    pub open spec fn predicate(self) -> spec_fn(TaskView) -> bool {
        |task: TaskView| self.admits(task)
    }

    /// Decides whether `task` is shown under this filter.
    pub fn matches(&self, task: &Task) -> (shown: bool)
        ensures
            shown == self.admits(task@),
    {
        match self {
            Filter::All => true,
            Filter::Active => !task.completed,
            Filter::Completed => task.completed,
        }
    }
}

} // verus!
