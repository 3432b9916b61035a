//! The closed set of requests that change the application state.

use crate::filter::Filter;
use vstd::prelude::*;

verus! {

/// A request to change the application state, one per user gesture.
#[derive(Debug, Clone)]
pub enum Message {
    /// The text in the "new task" field changed.
    NewTaskDescriptionChanged(String),
    /// The "new task" field was submitted.
    Add,
    /// The checkbox of the task with this id was set to this value.
    ToggleCompleted(usize, bool),
    /// The task with this id is to be removed.
    Delete(usize),
    /// Another filter was selected.
    FilterChanged(Filter),
    /// The task with this id is to be edited.
    Edit(usize),
    /// The text of the task with this id changed.
    TaskDescriptionChanged(usize, String),
    /// The edit of the task with this id is finished.
    Save(usize),
}

/// What a [`Message`] is in contracts: the operation it asks for, with ids as
/// natural numbers and texts as sequences of characters.
pub enum Intent {
    SetDraftDescription(Seq<char>),
    AddTask,
    ToggleCompleted(nat, bool),
    DeleteTask(nat),
    SetFilter(Filter),
    BeginEdit(nat),
    SetTaskDescription(nat, Seq<char>),
    SaveEdit(nat),
}

impl View for Message {
    type V = Intent;

    open spec fn view(&self) -> Intent {
        match *self {
            Message::NewTaskDescriptionChanged(text) => Intent::SetDraftDescription(text@),
            Message::Add => Intent::AddTask,
            Message::ToggleCompleted(id, value) => Intent::ToggleCompleted(id as nat, value),
            Message::Delete(id) => Intent::DeleteTask(id as nat),
            Message::FilterChanged(filter) => Intent::SetFilter(filter),
            Message::Edit(id) => Intent::BeginEdit(id as nat),
            Message::TaskDescriptionChanged(id, text) => Intent::SetTaskDescription(
                id as nat,
                text@,
            ),
            Message::Save(id) => Intent::SaveEdit(id as nat),
        }
    }
}

} // verus!
