//! The mathematical model of the application state and of each operation on
//! it. Everything here is specification: the executable store in
//! [`crate::tasker`] is proved to follow it step by step.

use crate::filter::Filter;
use crate::message::Intent;
use crate::task::TaskView;
use vstd::prelude::*;

verus! {

/// Whether some task in `tasks` has the id `id`.
pub open spec fn has_id(tasks: Seq<TaskView>, id: nat) -> bool {
    exists|i: int| 0 <= i < tasks.len() && (#[trigger] tasks[i]).id == id
}

/// Whether `i` is the position of the first task in `tasks` with the id `id`.
pub open spec fn is_first_with_id(tasks: Seq<TaskView>, id: nat, i: int) -> bool {
    &&& 0 <= i < tasks.len()
    &&& tasks[i].id == id
    &&& forall|j: int| 0 <= j < i ==> (#[trigger] tasks[j]).id != id
}

/// The position of the first task in `tasks` with the id `id`; meaningful
/// only when [`has_id`] holds.
pub open spec fn first_with_id(tasks: Seq<TaskView>, id: nat) -> int {
    choose|i: int| is_first_with_id(tasks, id, i)
}

/// The predicate "has another id than `id`", for use with `Seq::filter`.
pub open spec fn other_than(id: nat) -> spec_fn(TaskView) -> bool {
    |task: TaskView| task.id != id
}

/// The ids of `tasks`, in list order.
pub open spec fn ids(tasks: Seq<TaskView>) -> Seq<nat> {
    tasks.map_values(|task: TaskView| task.id)
}

/// The ids in `tasks` grow strictly from front to back, so no two are equal.
pub open spec fn ids_increase(tasks: Seq<TaskView>) -> bool {
    forall|i: int, j: int|
        0 <= i < j < tasks.len() ==> (#[trigger] tasks[i]).id < (#[trigger] tasks[j]).id
}

/// Every id in `tasks` is below `bound`.
pub open spec fn ids_below(tasks: Seq<TaskView>, bound: nat) -> bool {
    forall|i: int| 0 <= i < tasks.len() ==> (#[trigger] tasks[i]).id < bound
}

/// An optional id as a natural number.
pub open spec fn id_view(id: Option<usize>) -> Option<nat> {
    match id {
        Some(id) => Some(id as nat),
        None => None,
    }
}

/// The whole application state.
pub struct State {
    /// The tasks, in the order in which they were added.
    pub tasks: Seq<TaskView>,
    /// The text typed so far for a task that does not exist yet.
    pub draft: Seq<char>,
    /// Which tasks are shown.
    pub filter: Filter,
    /// The id that the next task will get.
    pub next_id: nat,
    /// The id of the task that is being edited, if any.
    pub editing: Option<nat>,
}

impl State {
    /// The state at startup: no tasks, an empty draft, everything shown,
    /// nothing being edited.
    pub open spec fn initial() -> State {
        State {
            tasks: Seq::empty(),
            draft: Seq::empty(),
            filter: Filter::All,
            next_id: 0,
            editing: None,
        }
    }

    /// The invariant of the task list: ids grow in list order, which is the
    /// order of insertion, and all of them are below the next id to hand out.
    ///
    /// `editing` is not constrained: it may name an id that no task has, in
    /// which case no task is shown as being edited.
    pub open spec fn wf(self) -> bool {
        &&& ids_increase(self.tasks)
        &&& ids_below(self.tasks, self.next_id)
    }

    /// Replaces the draft, whatever the text.
    pub open spec fn set_draft_description(self, text: Seq<char>) -> State {
        State { draft: text, ..self }
    }

    /// With a non-empty draft: appends a fresh task that carries the draft
    /// and the next id, clears the draft and advances the counter. With an
    /// empty draft: nothing.
    pub open spec fn add_task(self) -> State {
        if self.draft.len() == 0 {
            self
        } else {
            State {
                tasks: self.tasks.push(TaskView::fresh(self.next_id, self.draft)),
                draft: Seq::empty(),
                next_id: self.next_id + 1,
                ..self
            }
        }
    }

    /// Sets the completion flag of the first task with the id `id`; nothing
    /// if there is none.
    pub open spec fn toggle_completed(self, id: nat, value: bool) -> State {
        if has_id(self.tasks, id) {
            let i = first_with_id(self.tasks, id);
            State { tasks: self.tasks.update(i, self.tasks[i].with_completed(value)), ..self }
        } else {
            self
        }
    }

    /// Removes every task with the id `id` and keeps the others in order.
    /// An edit in progress goes on, even if it is of the removed task.
    pub open spec fn delete_task(self, id: nat) -> State {
        State { tasks: self.tasks.filter(other_than(id)), ..self }
    }

    /// Replaces the filter; the tasks are untouched.
    pub open spec fn set_filter(self, filter: Filter) -> State {
        State { filter, ..self }
    }

    /// Marks `id` as being edited, whether or not a task has that id.
    pub open spec fn begin_edit(self, id: nat) -> State {
        State { editing: Some(id), ..self }
    }

    /// Replaces the text of the first task with the id `id`, whatever the
    /// text; nothing if there is none.
    pub open spec fn set_task_description(self, id: nat, text: Seq<char>) -> State {
        if has_id(self.tasks, id) {
            let i = first_with_id(self.tasks, id);
            State { tasks: self.tasks.update(i, self.tasks[i].with_description(text)), ..self }
        } else {
            self
        }
    }

    /// Ends the edit of `id` if that is the one in progress; else nothing.
    pub open spec fn save_edit(self, id: nat) -> State {
        if self.editing == Some(id) {
            State { editing: None, ..self }
        } else {
            self
        }
    }

    /// The state after one intent.
    pub open spec fn step(self, intent: Intent) -> State {
        match intent {
            Intent::SetDraftDescription(text) => self.set_draft_description(text),
            Intent::AddTask => self.add_task(),
            Intent::ToggleCompleted(id, value) => self.toggle_completed(id, value),
            Intent::DeleteTask(id) => self.delete_task(id),
            Intent::SetFilter(filter) => self.set_filter(filter),
            Intent::BeginEdit(id) => self.begin_edit(id),
            Intent::SetTaskDescription(id, text) => self.set_task_description(id, text),
            Intent::SaveEdit(id) => self.save_edit(id),
        }
    }

    /// The state after a sequence of intents, applied front to back.
    pub open spec fn run(self, intents: Seq<Intent>) -> State
        decreases intents.len(),
    {
        if intents.len() == 0 {
            self
        } else {
            self.run(intents.drop_last()).step(intents.last())
        }
    }

    /// How many of `intents`, applied front to back from this state, are
    /// additions that went through, that is, found a non-empty draft.
    pub open spec fn successful_adds(self, intents: Seq<Intent>) -> nat
        decreases intents.len(),
    {
        if intents.len() == 0 {
            0
        } else {
            let before = self.run(intents.drop_last());
            let earlier = self.successful_adds(intents.drop_last());
            if intents.last() is AddTask && before.draft.len() > 0 {
                earlier + 1
            } else {
                earlier
            }
        }
    }

    /// The tasks that a filter lets through, in list order.
    pub open spec fn filtered(self, filter: Filter) -> Seq<TaskView> {
        self.tasks.filter(filter.predicate())
    }

    /// The tasks shown under the current filter, in list order.
    pub open spec fn visible(self) -> Seq<TaskView> {
        self.filtered(self.filter)
    }

    /// Whether the task with the id `id` is shown as an editor.
    pub open spec fn is_editing(self, id: nat) -> bool {
        self.editing == Some(id)
    }
}

} // verus!
