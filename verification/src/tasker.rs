//! The task store: the executable application state and the operations that
//! change it, each proved to follow [`crate::model::State`].

use crate::filter::Filter;
use crate::laws::{first_with_id_is_determined, step_preserves_wf};
use crate::message::{Intent, Message};
use crate::model::{first_with_id, has_id, id_view, is_first_with_id, other_than, State};
use crate::task::{borrowed_task_views, task_views, Task};
use crate::theme::CustomTheme;
use vstd::prelude::*;

verus! {

/// The application state: the task list and the transient state of the
/// window. It is created once, at startup, and changed only by the
/// operations below.
pub struct Tasker {
    tasks: Vec<Task>,
    new_task_description: String,
    filter: Filter,
    next_task_id: usize,
    editing: Option<usize>,
}

impl View for Tasker {
    type V = State;

    closed spec fn view(&self) -> State {
        State {
            tasks: task_views(self.tasks@),
            draft: self.new_task_description@,
            filter: self.filter,
            next_id: self.next_task_id as nat,
            editing: id_view(self.editing),
        }
    }
}

impl Tasker {
    /// Creates the state that the application starts with.
    pub fn new() -> (tasker: Tasker)
        ensures
            tasker@ == State::initial(),
            tasker@.wf(),
    {
        let tasker = Tasker {
            tasks: Vec::new(),
            new_task_description: String::new(),
            filter: Filter::All,
            next_task_id: 0,
            editing: None,
        };
        assert(tasker@.tasks =~= Seq::empty());
        tasker
    }

    /// Replaces the draft of the task to be added.
    pub fn set_draft_description(&mut self, text: String)
        ensures
            final(self)@ == old(self)@.set_draft_description(text@),
            old(self)@.wf() ==> final(self)@.wf(),
    {
        self.new_task_description = text;
    }

    /// Turns the draft into a new task at the end of the list, unless the
    /// draft is empty.
    pub fn add_task(&mut self)
        requires
            old(self)@.draft.len() > 0 ==> old(self)@.next_id < usize::MAX,
        ensures
            final(self)@ == old(self)@.add_task(),
            old(self)@.wf() ==> final(self)@.wf(),
    {
        if !self.new_task_description.as_str().is_empty() {
            let mut description = String::new();
            std::mem::swap(&mut description, &mut self.new_task_description);
            let ghost before = self.tasks@;
            let task = Task::new(self.next_task_id, description);
            self.tasks.push(task);
            self.next_task_id = self.next_task_id + 1;
            assert(task_views(before.push(task)) =~= task_views(before).push(task@));
        }
    }

    /// Selects which tasks are shown.
    pub fn set_filter(&mut self, filter: Filter)
        ensures
            final(self)@ == old(self)@.set_filter(filter),
            old(self)@.wf() ==> final(self)@.wf(),
    {
        self.filter = filter;
    }

    /// Marks the task with the id `id` as the one being edited. Whether such
    /// a task exists is not checked.
    pub fn begin_edit(&mut self, id: usize)
        ensures
            final(self)@ == old(self)@.begin_edit(id as nat),
            old(self)@.wf() ==> final(self)@.wf(),
    {
        self.editing = Some(id);
    }

    /// Ends the edit of the task with the id `id`, if that is the one being
    /// edited. The text is kept as it is, even if it is empty.
    pub fn save_edit(&mut self, id: usize)
        ensures
            final(self)@ == old(self)@.save_edit(id as nat),
            old(self)@.wf() ==> final(self)@.wf(),
    {
        match self.editing {
            Some(current) => {
                if current == id {
                    self.editing = None;
                }
            },
            None => {},
        }
    }

    /// Finds the first task with the id `id`.
    fn position(&self, id: usize) -> (found: Option<usize>)
        ensures
            found is Some <==> has_id(self@.tasks, id as nat),
            found matches Some(i) ==> i as int == first_with_id(self@.tasks, id as nat),
            found matches Some(i) ==> i < self.tasks.len(),
    {
        let ghost tasks = self@.tasks;
        let mut i: usize = 0;
        while i < self.tasks.len()
            invariant
                i <= self.tasks.len(),
                tasks == task_views(self.tasks@),
                forall|j: int| 0 <= j < i ==> (#[trigger] tasks[j]).id != id as nat,
            decreases self.tasks.len() - i,
        {
            if self.tasks[i].id == id {
                assert(tasks[i as int].id == id as nat);
                assert(is_first_with_id(tasks, id as nat, i as int));
                proof {
                    first_with_id_is_determined(tasks, id as nat, i as int);
                }
                return Some(i);
            }
            i = i + 1;
        }
        None
    }

    /// Sets the completion flag of the task with the id `id`; nothing happens
    /// if there is no such task.
    pub fn toggle_completed(&mut self, id: usize, completed: bool)
        ensures
            final(self)@ == old(self)@.toggle_completed(id as nat, completed),
            old(self)@.wf() ==> final(self)@.wf(),
    {
        proof {
            if self@.wf() {
                step_preserves_wf(self@, Intent::ToggleCompleted(id as nat, completed));
            }
        }
        match self.position(id) {
            Some(i) => {
                let ghost before = self.tasks@;
                self.tasks[i].completed = completed;
                assert(task_views(self.tasks@) =~= task_views(before).update(
                    i as int,
                    before[i as int]@.with_completed(completed),
                ));
            },
            None => {},
        }
    }

    /// Replaces the text of the task with the id `id`, whatever the text;
    /// nothing happens if there is no such task.
    pub fn set_task_description(&mut self, id: usize, text: String)
        ensures
            final(self)@ == old(self)@.set_task_description(id as nat, text@),
            old(self)@.wf() ==> final(self)@.wf(),
    {
        proof {
            if self@.wf() {
                step_preserves_wf(self@, Intent::SetTaskDescription(id as nat, text@));
            }
        }
        match self.position(id) {
            Some(i) => {
                let ghost before = self.tasks@;
                self.tasks[i].description = text;
                assert(task_views(self.tasks@) =~= task_views(before).update(
                    i as int,
                    before[i as int]@.with_description(text@),
                ));
            },
            None => {},
        }
    }

    /// Removes the task with the id `id` and keeps the others in their
    /// order; nothing happens if there is no such task. Should several tasks
    /// have that id, all of them go. An edit in progress is not ended, even
    /// if it is of the removed task: that task is then simply not shown.
    pub fn delete_task(&mut self, id: usize)
        ensures
            final(self)@ == old(self)@.delete_task(id as nat),
            old(self)@.wf() ==> final(self)@.wf(),
    {
        proof {
            if self@.wf() {
                step_preserves_wf(self@, Intent::DeleteTask(id as nat));
            }
        }
        let ghost before = task_views(self.tasks@);
        let ghost keep = other_than(id as nat);
        let ghost mut seen: int = 0;
        let mut i: usize = 0;
        proof {
            assert(before.take(0) =~= Seq::empty());
            assert(before.take(0).filter(keep) =~= Seq::empty()) by {
                reveal(Seq::filter);
            }
            assert(task_views(self.tasks@).take(0) =~= Seq::empty());
            assert(task_views(self.tasks@).skip(0) =~= before.skip(0));
        }
        while i < self.tasks.len()
            invariant
                i <= self.tasks.len(),
                0 <= seen <= before.len(),
                keep == other_than(id as nat),
                task_views(self.tasks@).take(i as int) == before.take(seen).filter(keep),
                task_views(self.tasks@).skip(i as int) == before.skip(seen),
                self.new_task_description == old(self).new_task_description,
                self.filter == old(self).filter,
                self.next_task_id == old(self).next_task_id,
                self.editing == old(self).editing,
            decreases self.tasks.len() - i,
        {
            let ghost now = task_views(self.tasks@);
            proof {
                assert(now.skip(i as int).len() == now.len() - i);
                assert(before.skip(seen).len() == before.len() - seen);
                assert(now.skip(i as int)[0] == before.skip(seen)[0]);
                assert(now[i as int] == before[seen]);
                assert(before.take(seen + 1) =~= before.take(seen).push(before[seen]));
                before.take(seen).lemma_filter_push(before[seen], keep);
            }
            if self.tasks[i].id == id {
                self.tasks.remove(i);
                proof {
                    let after = task_views(self.tasks@);
                    assert(after =~= now.remove(i as int));
                    assert(after.take(i as int) =~= now.take(i as int));
                    assert(after.skip(i as int) =~= now.skip(i as int).skip(1));
                    assert(before.skip(seen + 1) =~= before.skip(seen).skip(1));
                    seen = seen + 1;
                }
            } else {
                proof {
                    assert(now.take(i as int + 1) =~= now.take(i as int).push(now[i as int]));
                    assert(now.skip(i as int + 1) =~= now.skip(i as int).skip(1));
                    assert(before.skip(seen + 1) =~= before.skip(seen).skip(1));
                    seen = seen + 1;
                }
                i = i + 1;
            }
        }
        proof {
            let after = task_views(self.tasks@);
            assert(before.skip(seen).len() == 0);
            assert(before.take(seen) =~= before);
            assert(after.take(i as int) =~= after);
        }
    }

    /// Applies one message: the single entry point through which the state
    /// changes. Nothing is reported back: a message that does not apply
    /// (an empty draft, an id that no task has) leaves the state as it was.
    pub fn update(&mut self, message: Message)
        requires
            message@ is AddTask && old(self)@.draft.len() > 0 ==> old(self)@.next_id
                < usize::MAX,
        ensures
            final(self)@ == old(self)@.step(message@),
            old(self)@.wf() ==> final(self)@.wf(),
    {
        match message {
            Message::NewTaskDescriptionChanged(text) => self.set_draft_description(text),
            Message::Add => self.add_task(),
            Message::ToggleCompleted(id, completed) => self.toggle_completed(id, completed),
            Message::Delete(id) => self.delete_task(id),
            Message::FilterChanged(filter) => self.set_filter(filter),
            Message::Edit(id) => self.begin_edit(id),
            Message::TaskDescriptionChanged(id, text) => self.set_task_description(id, text),
            Message::Save(id) => self.save_edit(id),
        }
    }

    /// The tasks that `filter` lets through, in list order. The state is not
    /// changed.
    pub fn filtered_tasks(&self, filter: Filter) -> (shown: Vec<&Task>)
        ensures
            borrowed_task_views(shown@) == self@.filtered(filter),
    {
        let ghost all = task_views(self.tasks@);
        let ghost pred = filter.predicate();
        let mut shown: Vec<&Task> = Vec::new();
        let mut i: usize = 0;
        proof {
            assert(all.take(0) =~= Seq::empty());
            assert(all.take(0).filter(pred) =~= Seq::empty()) by {
                reveal(Seq::filter);
            }
            assert(borrowed_task_views(shown@) =~= Seq::empty());
        }
        while i < self.tasks.len()
            invariant
                i <= self.tasks.len(),
                all == task_views(self.tasks@),
                pred == filter.predicate(),
                borrowed_task_views(shown@) == all.take(i as int).filter(pred),
            decreases self.tasks.len() - i,
        {
            let task = &self.tasks[i];
            let ghost so_far = shown@;
            proof {
                assert(all.take(i as int + 1) =~= all.take(i as int).push(all[i as int]));
                all.take(i as int).lemma_filter_push(all[i as int], pred);
            }
            if filter.matches(task) {
                shown.push(task);
                assert(borrowed_task_views(shown@) =~= borrowed_task_views(so_far).push(task@));
            }
            i = i + 1;
        }
        assert(all.take(i as int) =~= all);
        shown
    }

    /// The tasks that the filter in force lets through, in list order: what
    /// the window shows.
    pub fn visible_tasks(&self) -> (shown: Vec<&Task>)
        ensures
            borrowed_task_views(shown@) == self@.visible(),
    {
        self.filtered_tasks(self.filter)
    }

    /// Whether the task with the id `id` is the one being edited, and so is
    /// shown as an editor and not as an item.
    pub fn is_editing(&self, id: usize) -> (editing: bool)
        ensures
            editing == self@.is_editing(id as nat),
    {
        match self.editing {
            Some(current) => current == id,
            None => false,
        }
    }

    /// Whether [`Tasker::update`] may be called with `message`: always,
    /// except for an addition that would need an id beyond the largest
    /// `usize`.
    pub fn accepts(&self, message: &Message) -> (ok: bool)
        ensures
            ok == !(message@ is AddTask && self@.draft.len() > 0 && self@.next_id
                >= usize::MAX),
    {
        match message {
            Message::Add => self.new_task_description.as_str().is_empty() || self.next_task_id
                < usize::MAX,
            _ => true,
        }
    }

    /// The colours that the window is drawn in.
    pub fn theme(&self) -> (theme: CustomTheme)
        ensures
            theme == CustomTheme,
    {
        CustomTheme
    }

    /// The window's title.
    pub fn title(&self) -> (title: String)
        ensures
            title@ == "Tasker"@,
    {
        "Tasker".to_owned()
    }

    /// The tasks, in the order in which they were added.
    pub fn tasks(&self) -> (tasks: &Vec<Task>)
        ensures
            task_views(tasks@) == self@.tasks,
    {
        &self.tasks
    }

    /// The draft of the task to be added.
    pub fn new_task_description(&self) -> (draft: &str)
        ensures
            draft@ == self@.draft,
    {
        self.new_task_description.as_str()
    }

    /// The filter in force.
    pub fn filter(&self) -> (filter: Filter)
        ensures
            filter == self@.filter,
    {
        self.filter
    }

    /// The id that the next task will get.
    pub fn next_task_id(&self) -> (id: usize)
        ensures
            id as nat == self@.next_id,
    {
        self.next_task_id
    }

    /// The id of the task being edited, if any.
    pub fn editing(&self) -> (editing: Option<usize>)
        ensures
            id_view(editing) == self@.editing,
    {
        self.editing
    }
}

} // verus!
