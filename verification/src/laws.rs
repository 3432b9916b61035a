//! Properties of the model that relate several operations or hold of every
//! state. Each is a proof function: calling it makes its `ensures` available
//! to the caller.

use crate::filter::Filter;
use crate::message::Intent;
use crate::model::{
    first_with_id, has_id, ids, ids_below, ids_increase, is_first_with_id, other_than, State,
};
use crate::task::TaskView;
use vstd::prelude::*;

verus! {

/// If `i` is the first position with the id `id`, then some task has that id
/// and [`first_with_id`] is `i`.
pub proof fn first_with_id_is_determined(tasks: Seq<TaskView>, id: nat, i: int)
    requires
        is_first_with_id(tasks, id, i),
    ensures
        has_id(tasks, id),
        first_with_id(tasks, id) == i,
{
    let k = first_with_id(tasks, id);
    assert(is_first_with_id(tasks, id, k));
    if k < i {
        assert(tasks[k].id != id);
    } else if i < k {
        assert(tasks[i].id != id);
    }
}

/// If some task has the id `id`, then [`first_with_id`] is the position of
/// the first such task.
pub proof fn first_with_id_is_first(tasks: Seq<TaskView>, id: nat)
    requires
        has_id(tasks, id),
    ensures
        is_first_with_id(tasks, id, first_with_id(tasks, id)),
    decreases tasks.len(),
{
    let w = choose|i: int| 0 <= i < tasks.len() && (#[trigger] tasks[i]).id == id;
    let front = tasks.take(w);
    if has_id(front, id) {
        first_with_id_is_first(front, id);
        let k = first_with_id(front, id);
        assert(tasks[k] == front[k]);
        assert forall|j: int| 0 <= j < k implies (#[trigger] tasks[j]).id != id by {
            assert(front[j] == tasks[j]);
        }
        assert(is_first_with_id(tasks, id, k));
    } else {
        assert forall|j: int| 0 <= j < w implies (#[trigger] tasks[j]).id != id by {
            assert(front[j] == tasks[j]);
        }
        assert(is_first_with_id(tasks, id, w));
    }
}

/// The state at startup satisfies the invariant.
pub proof fn initial_is_wf()
    ensures
        State::initial().wf(),
{
}

/// Every operation preserves the invariant: ids stay distinct, in insertion
/// order, and below the next id.
pub proof fn step_preserves_wf(s: State, intent: Intent)
    requires
        s.wf(),
    ensures
        s.step(intent).wf(),
{
    match intent {
        Intent::ToggleCompleted(id, _) | Intent::SetTaskDescription(id, _) => {
            if has_id(s.tasks, id) {
                first_with_id_is_first(s.tasks, id);
            }
        },
        Intent::DeleteTask(id) => {
            delete_keeps_wf(s.tasks, id, s.next_id);
        },
        _ => {},
    }
}

/// Removing the tasks with one id keeps the rest in increasing order of id
/// and below the same bound.
proof fn delete_keeps_wf(tasks: Seq<TaskView>, id: nat, bound: nat)
    requires
        ids_increase(tasks),
        ids_below(tasks, bound),
    ensures
        ids_increase(tasks.filter(other_than(id))),
        ids_below(tasks.filter(other_than(id)), bound),
        tasks.len() > 0 ==> ids_below(tasks.filter(other_than(id)), tasks.last().id + 1),
    decreases tasks.len(),
{
    reveal(Seq::filter);
    if tasks.len() > 0 {
        let front = tasks.drop_last();
        delete_keeps_wf(front, id, bound);
        let kept = front.filter(other_than(id));
        if front.len() > 0 {
            assert(front.last() == tasks[tasks.len() - 2]);
            assert(ids_below(kept, tasks.last().id));
        }
    }
}

/// The invariant holds after any sequence of intents.
pub proof fn run_preserves_wf(s: State, intents: Seq<Intent>)
    requires
        s.wf(),
    ensures
        s.run(intents).wf(),
    decreases intents.len(),
{
    if intents.len() > 0 {
        run_preserves_wf(s, intents.drop_last());
        step_preserves_wf(s.run(intents.drop_last()), intents.last());
    }
}

/// Adding with a non-empty draft lengthens the list by exactly one task,
/// which stands last and carries the next id and the draft; the draft is
/// cleared and the counter advances by one. Adding with an empty draft
/// changes nothing.
pub proof fn add_task_effect(s: State)
    ensures
        s.draft.len() > 0 ==> s.add_task().tasks.len() == s.tasks.len() + 1,
        s.draft.len() > 0 ==> s.add_task().tasks.last() == TaskView::fresh(s.next_id, s.draft),
        s.draft.len() > 0 ==> s.add_task().tasks.drop_last() == s.tasks,
        s.draft.len() > 0 ==> s.add_task().draft.len() == 0,
        s.draft.len() > 0 ==> s.add_task().next_id == s.next_id + 1,
        s.add_task().filter == s.filter,
        s.add_task().editing == s.editing,
        s.draft.len() == 0 ==> s.add_task() == s,
{
    if s.draft.len() > 0 {
        assert(s.add_task().tasks.drop_last() =~= s.tasks);
    }
}

/// Only additions and deletions change which ids the list holds and in what
/// order; only additions move the counter.
pub proof fn ids_are_stable(s: State, intent: Intent)
    ensures
        !(intent is AddTask) && !(intent is DeleteTask) ==> ids(s.step(intent).tasks) == ids(
            s.tasks,
        ),
        !(intent is AddTask) ==> s.step(intent).next_id == s.next_id,
{
    match intent {
        Intent::ToggleCompleted(id, _) | Intent::SetTaskDescription(id, _) => {
            if has_id(s.tasks, id) {
                first_with_id_is_first(s.tasks, id);
            }
            assert(ids(s.step(intent).tasks) =~= ids(s.tasks));
        },
        _ => {},
    }
}

/// In a state that satisfies the invariant, the id that the next task gets
/// is one that no task has.
pub proof fn next_id_is_unused(s: State)
    requires
        s.wf(),
    ensures
        !has_id(s.tasks, s.next_id),
{
}

/// Ids are never handed out twice: the counter only counts the additions
/// that went through, whatever else happened in between and however many
/// tasks are left.
pub proof fn next_id_counts_successful_adds(s: State, intents: Seq<Intent>)
    ensures
        s.run(intents).next_id == s.next_id + s.successful_adds(intents),
    decreases intents.len(),
{
    if intents.len() > 0 {
        next_id_counts_successful_adds(s, intents.drop_last());
    }
}

/// From startup, after any sequence of intents of which `n` were additions
/// that went through, the next addition that goes through gives its task the
/// id `n`, and no task in the list has that id yet.
pub proof fn ids_are_never_reused(intents: Seq<Intent>)
    ensures
        ({
            let s = State::initial().run(intents);
            let n = State::initial().successful_adds(intents);
            &&& s.next_id == n
            &&& !has_id(s.tasks, n)
            &&& s.draft.len() > 0 ==> s.add_task().tasks.last().id == n
        }),
{
    next_id_counts_successful_adds(State::initial(), intents);
    run_preserves_wf(State::initial(), intents);
}

/// Setting the completion flag of an id that no task has changes nothing.
pub proof fn toggle_unknown_id_is_noop(s: State, id: nat, value: bool)
    requires
        !has_id(s.tasks, id),
    ensures
        s.toggle_completed(id, value) == s,
{
}

/// Setting the completion flag of a task to `value` and then to the opposite
/// restores the whole state, provided the flag was at the opposite before,
/// as it is when a checkbox is clicked twice. With an id that no task has,
/// both steps change nothing.
pub proof fn toggle_round_trip(s: State, id: nat, value: bool)
    requires
        has_id(s.tasks, id) ==> s.tasks[first_with_id(s.tasks, id)].completed == !value,
    ensures
        s.toggle_completed(id, value).toggle_completed(id, !value) == s,
{
    if has_id(s.tasks, id) {
        first_with_id_is_first(s.tasks, id);
        let i = first_with_id(s.tasks, id);
        let mid = s.toggle_completed(id, value);
        assert(mid.tasks[i].id == id);
        assert forall|j: int| 0 <= j < i implies (#[trigger] mid.tasks[j]).id != id by {
            assert(s.tasks[j].id != id);
        }
        first_with_id_is_determined(mid.tasks, id, i);
        assert(mid.toggle_completed(id, !value).tasks =~= s.tasks);
    }
}

/// Of two settings of the same task's completion flag in a row, the second
/// one stands.
pub proof fn toggle_last_wins(s: State, id: nat, first: bool, second: bool)
    ensures
        s.toggle_completed(id, first).toggle_completed(id, second) == s.toggle_completed(
            id,
            second,
        ),
{
    if has_id(s.tasks, id) {
        first_with_id_is_first(s.tasks, id);
        let i = first_with_id(s.tasks, id);
        let mid = s.toggle_completed(id, first);
        assert(mid.tasks[i].id == id);
        assert forall|j: int| 0 <= j < i implies (#[trigger] mid.tasks[j]).id != id by {
            assert(s.tasks[j].id != id);
        }
        first_with_id_is_determined(mid.tasks, id, i);
        assert(mid.toggle_completed(id, second).tasks =~= s.toggle_completed(id, second).tasks);
    }
}

/// After a deletion no task has the deleted id.
pub proof fn delete_leaves_no_match(s: State, id: nat)
    ensures
        !has_id(s.delete_task(id).tasks, id),
{
    let kept = s.tasks.filter(other_than(id));
    assert forall|i: int| 0 <= i < kept.len() implies (#[trigger] kept[i]).id != id by {
        s.tasks.lemma_filter_pred(other_than(id), i);
    }
}

/// Deleting an id that no task has changes nothing.
pub proof fn delete_unknown_id_is_noop(s: State, id: nat)
    requires
        !has_id(s.tasks, id),
    ensures
        s.delete_task(id) == s,
{
    filter_keeps_all(s.tasks, other_than(id));
}

/// A filter whose predicate holds of every element returns the sequence
/// itself.
proof fn filter_keeps_all(tasks: Seq<TaskView>, pred: spec_fn(TaskView) -> bool)
    requires
        forall|i: int| 0 <= i < tasks.len() ==> pred(#[trigger] tasks[i]),
    ensures
        tasks.filter(pred) == tasks,
    decreases tasks.len(),
{
    reveal(Seq::filter);
    if tasks.len() > 0 {
        let front = tasks.drop_last();
        assert forall|i: int| 0 <= i < front.len() implies pred(#[trigger] front[i]) by {
            assert(front[i] == tasks[i]);
        }
        filter_keeps_all(front, pred);
        assert(front.push(tasks.last()) =~= tasks);
    }
}

/// Deleting the same id twice is the same as deleting it once.
pub proof fn delete_is_idempotent(s: State, id: nat)
    ensures
        s.delete_task(id).delete_task(id) == s.delete_task(id),
{
    delete_leaves_no_match(s, id);
    delete_unknown_id_is_noop(s.delete_task(id), id);
}

/// In a state that satisfies the invariant, deleting an id that a task has
/// removes exactly that task: the list is the old one without that position,
/// so it is shorter by one and all others keep their order. Nothing else in
/// the state changes.
pub proof fn delete_removes_exactly_the_match(s: State, id: nat)
    requires
        s.wf(),
        has_id(s.tasks, id),
    ensures
        s.delete_task(id).tasks == s.tasks.remove(first_with_id(s.tasks, id)),
        s.delete_task(id).tasks.len() == s.tasks.len() - 1,
        s.delete_task(id).draft == s.draft,
        s.delete_task(id).filter == s.filter,
        s.delete_task(id).next_id == s.next_id,
        s.delete_task(id).editing == s.editing,
{
    first_with_id_is_first(s.tasks, id);
    let i = first_with_id(s.tasks, id);
    let keep = other_than(id);
    let front = s.tasks.take(i);
    let back = s.tasks.skip(i + 1);
    assert(s.tasks =~= front.push(s.tasks[i]) + back);
    assert forall|j: int| 0 <= j < front.len() implies keep(#[trigger] front[j]) by {
        assert(front[j] == s.tasks[j]);
    }
    assert forall|j: int| 0 <= j < back.len() implies keep(#[trigger] back[j]) by {
        assert(back[j] == s.tasks[i + 1 + j]);
        assert(s.tasks[i].id < s.tasks[i + 1 + j].id);
    }
    filter_keeps_all(front, keep);
    filter_keeps_all(back, keep);
    front.lemma_filter_push(s.tasks[i], keep);
    Seq::filter_distributes_over_add(front.push(s.tasks[i]), back, keep);
    assert(s.tasks.remove(i) =~= front + back);
}

/// Under `All` every task is shown, so the shown list is as long as the
/// stored one.
pub proof fn all_shows_every_task(s: State)
    ensures
        s.filtered(Filter::All) == s.tasks,
        s.filtered(Filter::All).len() == s.tasks.len(),
{
    filter_keeps_all(s.tasks, Filter::All.predicate());
}

/// Under `Active` no shown task is completed.
pub proof fn active_shows_only_open_tasks(s: State)
    ensures
        forall|i: int|
            0 <= i < s.filtered(Filter::Active).len() ==> !(#[trigger] s.filtered(
                Filter::Active,
            )[i]).completed,
{
    let shown = s.filtered(Filter::Active);
    assert forall|i: int| 0 <= i < shown.len() implies !(#[trigger] shown[i]).completed by {
        s.tasks.lemma_filter_pred(Filter::Active.predicate(), i);
    }
}

/// Under `Completed` every shown task is completed.
pub proof fn completed_shows_only_done_tasks(s: State)
    ensures
        forall|i: int|
            0 <= i < s.filtered(Filter::Completed).len() ==> (#[trigger] s.filtered(
                Filter::Completed,
            )[i]).completed,
{
    let shown = s.filtered(Filter::Completed);
    assert forall|i: int| 0 <= i < shown.len() implies (#[trigger] shown[i]).completed by {
        s.tasks.lemma_filter_pred(Filter::Completed.predicate(), i);
    }
}

/// Every task is shown under exactly one of `Active` and `Completed`: the
/// two counts add up to the number of tasks, which is the count under `All`.
pub proof fn active_and_completed_partition(s: State)
    ensures
        s.filtered(Filter::Active).len() + s.filtered(Filter::Completed).len()
            == s.filtered(Filter::All).len(),
        s.filtered(Filter::All).len() == s.tasks.len(),
{
    all_shows_every_task(s);
    counts_add_up(s.tasks);
}

/// The tasks that are not completed and those that are add up to all.
proof fn counts_add_up(tasks: Seq<TaskView>)
    ensures
        tasks.filter(Filter::Active.predicate()).len() + tasks.filter(
            Filter::Completed.predicate(),
        ).len() == tasks.len(),
    decreases tasks.len(),
{
    reveal(Seq::filter);
    if tasks.len() > 0 {
        counts_add_up(tasks.drop_last());
    }
}

/// What is shown is a selection of what is stored: every shown task is in
/// the list, and changing the filter changes neither the list nor anything
/// but the filter.
pub proof fn filter_never_affects_storage(s: State, filter: Filter)
    ensures
        s.set_filter(filter).tasks == s.tasks,
        s.set_filter(filter).draft == s.draft,
        s.set_filter(filter).next_id == s.next_id,
        s.set_filter(filter).editing == s.editing,
        s.set_filter(filter).visible() == s.filtered(filter),
        forall|i: int|
            0 <= i < s.filtered(filter).len() ==> s.tasks.contains(
                #[trigger] s.filtered(filter)[i],
            ),
{
    let shown = s.filtered(filter);
    assert forall|i: int| 0 <= i < shown.len() implies s.tasks.contains(#[trigger] shown[i]) by {
        s.tasks.lemma_filter_contains_rev(filter.predicate(), shown[i]);
    }
}

/// An edit of an id that no task has shows no editor: no shown task is the
/// one being edited.
pub proof fn dangling_edit_shows_no_editor(s: State)
    requires
        s.editing matches Some(id) && !has_id(s.tasks, id),
    ensures
        forall|i: int|
            0 <= i < s.visible().len() ==> !s.is_editing((#[trigger] s.visible()[i]).id),
{
    let shown = s.visible();
    assert forall|i: int| 0 <= i < shown.len() implies !s.is_editing((#[trigger] shown[i]).id) by {
        s.tasks.lemma_filter_contains_rev(s.filter.predicate(), shown[i]);
        let k = choose|k: int| 0 <= k < s.tasks.len() && s.tasks[k] == shown[i];
        assert(s.tasks[k].id == shown[i].id);
    }
}

/// Saving an edit ends it, and saving any other id leaves it in progress.
pub proof fn edit_then_save(s: State, id: nat, other: nat)
    ensures
        s.begin_edit(id).save_edit(id).editing == None::<nat>,
        other != id ==> s.begin_edit(id).save_edit(other).editing == Some(id),
        s.begin_edit(id).save_edit(id).tasks == s.tasks,
{
}

} // verus!
