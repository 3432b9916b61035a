use tasker::filter::Filter;
use tasker::message::Message;
use tasker::task::Task;
use tasker::tasker::Tasker;

fn add(app: &mut Tasker, text: &str) {
    app.update(Message::NewTaskDescriptionChanged(text.to_string()));
    app.update(Message::Add);
}

fn ids(tasks: &[&Task]) -> Vec<usize> {
    tasks.iter().map(|task| task.id).collect()
}

fn stored_ids(app: &Tasker) -> Vec<usize> {
    app.tasks().iter().map(|task| task.id).collect()
}

#[test]
fn starts_empty() {
    let app = Tasker::new();
    assert!(app.tasks().is_empty());
    assert_eq!(app.new_task_description(), "");
    assert_eq!(app.filter(), Filter::All);
    assert_eq!(app.next_task_id(), 0);
    assert_eq!(app.editing(), None);
    assert!(app.visible_tasks().is_empty());
}

#[test]
fn add_buy_milk() {
    let mut app = Tasker::new();
    app.update(Message::NewTaskDescriptionChanged("Buy milk".to_string()));
    assert_eq!(app.new_task_description(), "Buy milk");
    app.update(Message::Add);
    assert_eq!(app.tasks().len(), 1);
    let task = &app.tasks()[0];
    assert_eq!(task.id, 0);
    assert_eq!(task.description, "Buy milk");
    assert!(!task.completed);
    assert!(task.due_date.is_none());
    assert_eq!(app.next_task_id(), 1);
    assert_eq!(app.new_task_description(), "");
}

#[test]
fn filter_after_toggle() {
    let mut app = Tasker::new();
    add(&mut app, "A");
    add(&mut app, "B");
    assert_eq!(stored_ids(&app), vec![0, 1]);
    app.update(Message::ToggleCompleted(0, true));
    app.update(Message::FilterChanged(Filter::Active));
    assert_eq!(app.filter(), Filter::Active);
    let shown = app.visible_tasks();
    assert_eq!(ids(&shown), vec![1]);
    assert_eq!(shown[0].description, "B");
    assert!(!shown[0].completed);
    app.update(Message::FilterChanged(Filter::Completed));
    let shown = app.visible_tasks();
    assert_eq!(ids(&shown), vec![0]);
    assert_eq!(shown[0].description, "A");
    assert!(shown[0].completed);
    assert_eq!(stored_ids(&app), vec![0, 1]);
}

#[test]
fn edit_and_save() {
    let mut app = Tasker::new();
    add(&mut app, "A");
    app.update(Message::Edit(0));
    assert_eq!(app.editing(), Some(0));
    assert!(app.is_editing(0));
    app.update(Message::TaskDescriptionChanged(0, "A2".to_string()));
    app.update(Message::Save(0));
    assert_eq!(app.tasks()[0].description, "A2");
    assert_eq!(app.tasks()[0].id, 0);
    assert_eq!(app.editing(), None);
    assert!(!app.is_editing(0));
}

#[test]
fn add_with_empty_draft_is_ignored() {
    let mut app = Tasker::new();
    app.update(Message::Add);
    assert!(app.tasks().is_empty());
    assert_eq!(app.next_task_id(), 0);
    add(&mut app, "A");
    app.update(Message::Add);
    assert_eq!(app.tasks().len(), 1);
    assert_eq!(app.next_task_id(), 1);
    app.update(Message::NewTaskDescriptionChanged(String::new()));
    app.update(Message::Add);
    assert_eq!(app.tasks().len(), 1);
    assert_eq!(app.next_task_id(), 1);
}

#[test]
fn add_appends_with_next_id_and_clears_draft() {
    let mut app = Tasker::new();
    add(&mut app, "first");
    add(&mut app, "second");
    app.update(Message::NewTaskDescriptionChanged("third".to_string()));
    let before = app.tasks().len();
    let next = app.next_task_id();
    app.update(Message::Add);
    assert_eq!(app.tasks().len(), before + 1);
    let last = app.tasks().last().unwrap();
    assert_eq!(last.id, next);
    assert_eq!(last.id, 2);
    assert_eq!(last.description, "third");
    assert!(!last.completed);
    assert_eq!(app.new_task_description(), "");
    assert_eq!(app.next_task_id(), 3);
    assert_eq!(app.tasks()[0].description, "first");
    assert_eq!(app.tasks()[1].description, "second");
}

#[test]
fn ids_are_not_reused_after_deletes() {
    let mut app = Tasker::new();
    add(&mut app, "a");
    add(&mut app, "b");
    add(&mut app, "c");
    app.update(Message::Delete(2));
    app.update(Message::Delete(0));
    assert_eq!(stored_ids(&app), vec![1]);
    add(&mut app, "d");
    assert_eq!(stored_ids(&app), vec![1, 3]);
    app.update(Message::Delete(1));
    app.update(Message::Delete(3));
    assert!(app.tasks().is_empty());
    add(&mut app, "e");
    assert_eq!(stored_ids(&app), vec![4]);
    assert_eq!(app.next_task_id(), 5);
}

#[test]
fn toggle_round_trip_restores_flag() {
    let mut app = Tasker::new();
    add(&mut app, "a");
    add(&mut app, "b");
    assert!(!app.tasks()[1].completed);
    app.update(Message::ToggleCompleted(1, true));
    assert!(app.tasks()[1].completed);
    assert!(!app.tasks()[0].completed);
    app.update(Message::ToggleCompleted(1, false));
    assert!(!app.tasks()[1].completed);
    assert_eq!(app.tasks()[1].description, "b");
    assert_eq!(stored_ids(&app), vec![0, 1]);
}

#[test]
fn toggle_to_same_value_twice_keeps_last_value() {
    let mut app = Tasker::new();
    add(&mut app, "a");
    app.update(Message::ToggleCompleted(0, true));
    app.update(Message::ToggleCompleted(0, true));
    assert!(app.tasks()[0].completed);
    app.update(Message::ToggleCompleted(0, false));
    assert!(!app.tasks()[0].completed);
}

#[test]
fn toggle_unknown_id_is_ignored() {
    let mut app = Tasker::new();
    add(&mut app, "a");
    app.update(Message::ToggleCompleted(7, true));
    app.update(Message::ToggleCompleted(7, false));
    assert_eq!(app.tasks().len(), 1);
    assert!(!app.tasks()[0].completed);
    assert_eq!(app.tasks()[0].description, "a");
}

#[test]
fn delete_removes_the_match_and_keeps_order() {
    let mut app = Tasker::new();
    add(&mut app, "a");
    add(&mut app, "b");
    add(&mut app, "c");
    add(&mut app, "d");
    app.update(Message::ToggleCompleted(2, true));
    app.update(Message::Delete(1));
    assert_eq!(stored_ids(&app), vec![0, 2, 3]);
    assert_eq!(app.tasks()[0].description, "a");
    assert_eq!(app.tasks()[1].description, "c");
    assert!(app.tasks()[1].completed);
    assert_eq!(app.tasks()[2].description, "d");
    assert_eq!(app.next_task_id(), 4);
}

#[test]
fn delete_twice_is_idempotent() {
    let mut app = Tasker::new();
    add(&mut app, "a");
    add(&mut app, "b");
    app.update(Message::Delete(0));
    assert_eq!(stored_ids(&app), vec![1]);
    app.update(Message::Delete(0));
    assert_eq!(stored_ids(&app), vec![1]);
    assert_eq!(app.tasks()[0].description, "b");
}

#[test]
fn delete_unknown_id_is_ignored() {
    let mut app = Tasker::new();
    app.update(Message::Delete(0));
    assert!(app.tasks().is_empty());
    add(&mut app, "a");
    app.update(Message::Delete(5));
    assert_eq!(stored_ids(&app), vec![0]);
}

#[test]
fn delete_first_and_last() {
    let mut app = Tasker::new();
    add(&mut app, "a");
    add(&mut app, "b");
    add(&mut app, "c");
    app.update(Message::Delete(0));
    assert_eq!(stored_ids(&app), vec![1, 2]);
    app.update(Message::Delete(2));
    assert_eq!(stored_ids(&app), vec![1]);
    app.update(Message::Delete(1));
    assert!(app.tasks().is_empty());
}

#[test]
fn filters_partition_the_tasks() {
    let mut app = Tasker::new();
    for text in ["a", "b", "c", "d", "e"] {
        add(&mut app, text);
    }
    app.update(Message::ToggleCompleted(1, true));
    app.update(Message::ToggleCompleted(4, true));

    assert_eq!(ids(&app.visible_tasks()), vec![0, 1, 2, 3, 4]);
    assert_eq!(app.visible_tasks().len(), app.tasks().len());

    app.update(Message::FilterChanged(Filter::Active));
    let active = ids(&app.visible_tasks());
    assert_eq!(active, vec![0, 2, 3]);
    assert!(app.visible_tasks().iter().all(|task| !task.completed));

    app.update(Message::FilterChanged(Filter::Completed));
    let completed = ids(&app.visible_tasks());
    assert_eq!(completed, vec![1, 4]);
    assert!(app.visible_tasks().iter().all(|task| task.completed));

    assert_eq!(active.len() + completed.len(), app.tasks().len());

    app.update(Message::FilterChanged(Filter::All));
    assert_eq!(app.visible_tasks().len(), 5);
}

#[test]
fn filter_does_not_touch_storage() {
    let mut app = Tasker::new();
    add(&mut app, "a");
    app.update(Message::NewTaskDescriptionChanged("draft".to_string()));
    app.update(Message::Edit(0));
    app.update(Message::FilterChanged(Filter::Completed));
    assert!(app.visible_tasks().is_empty());
    assert_eq!(stored_ids(&app), vec![0]);
    assert_eq!(app.new_task_description(), "draft");
    assert_eq!(app.editing(), Some(0));
    assert_eq!(app.next_task_id(), 1);
}

#[test]
fn filter_matches_by_completion() {
    let mut task = Task::new(3, "x".to_string());
    assert!(Filter::All.matches(&task));
    assert!(Filter::Active.matches(&task));
    assert!(!Filter::Completed.matches(&task));
    task.completed = true;
    assert!(Filter::All.matches(&task));
    assert!(!Filter::Active.matches(&task));
    assert!(Filter::Completed.matches(&task));
}

#[test]
fn new_task_has_defaults() {
    let task = Task::new(9, "write".to_string());
    assert_eq!(task.id, 9);
    assert_eq!(task.description, "write");
    assert_eq!(task.due_date, None);
    assert!(!task.completed);
}

#[test]
fn task_keeps_a_due_date() {
    let mut task = Task::new(0, "pay rent".to_string());
    let date = chrono::NaiveDate::from_ymd_opt(2024, 2, 29);
    assert!(date.is_some());
    task.due_date = date;
    let copy = task.clone();
    assert_eq!(copy.due_date, date);
    assert_eq!(copy.id, 0);
    assert_eq!(copy.description, "pay rent");
}

#[test]
fn begin_edit_does_not_check_the_id() {
    let mut app = Tasker::new();
    app.update(Message::Edit(42));
    assert_eq!(app.editing(), Some(42));
    assert!(app.is_editing(42));
    assert!(app.visible_tasks().is_empty());
    add(&mut app, "a");
    assert!(!app.is_editing(0));
    app.update(Message::Edit(0));
    assert_eq!(app.editing(), Some(0));
    assert!(!app.is_editing(42));
}

#[test]
fn save_of_another_id_keeps_the_edit() {
    let mut app = Tasker::new();
    add(&mut app, "a");
    add(&mut app, "b");
    app.update(Message::Edit(1));
    app.update(Message::Save(0));
    assert_eq!(app.editing(), Some(1));
    app.update(Message::Save(1));
    assert_eq!(app.editing(), None);
    app.update(Message::Save(1));
    assert_eq!(app.editing(), None);
}

#[test]
fn delete_of_the_edited_task_leaves_a_dangling_edit() {
    let mut app = Tasker::new();
    add(&mut app, "a");
    add(&mut app, "b");
    app.update(Message::Edit(0));
    app.update(Message::Delete(0));
    assert_eq!(app.editing(), Some(0));
    let shown = app.visible_tasks();
    assert_eq!(ids(&shown), vec![1]);
    assert!(shown.iter().all(|task| !app.is_editing(task.id)));
    app.update(Message::Save(0));
    assert_eq!(app.editing(), None);
}

#[test]
fn description_may_be_emptied_by_an_edit() {
    let mut app = Tasker::new();
    add(&mut app, "a");
    app.update(Message::Edit(0));
    app.update(Message::TaskDescriptionChanged(0, String::new()));
    assert_eq!(app.tasks()[0].description, "");
    app.update(Message::Save(0));
    assert_eq!(app.tasks()[0].description, "");
    assert_eq!(app.editing(), None);
    assert_eq!(app.tasks().len(), 1);
}

#[test]
fn set_description_needs_no_edit_in_progress() {
    let mut app = Tasker::new();
    add(&mut app, "a");
    add(&mut app, "b");
    app.update(Message::TaskDescriptionChanged(1, "b2".to_string()));
    assert_eq!(app.tasks()[0].description, "a");
    assert_eq!(app.tasks()[1].description, "b2");
    assert_eq!(app.editing(), None);
}

#[test]
fn set_description_of_unknown_id_is_ignored() {
    let mut app = Tasker::new();
    add(&mut app, "a");
    app.update(Message::TaskDescriptionChanged(3, "zzz".to_string()));
    assert_eq!(app.tasks().len(), 1);
    assert_eq!(app.tasks()[0].description, "a");
}

#[test]
fn draft_is_replaced_not_appended() {
    let mut app = Tasker::new();
    app.update(Message::NewTaskDescriptionChanged("B".to_string()));
    app.update(Message::NewTaskDescriptionChanged("Bu".to_string()));
    app.update(Message::NewTaskDescriptionChanged("x".to_string()));
    assert_eq!(app.new_task_description(), "x");
    assert!(app.tasks().is_empty());
}

#[test]
fn methods_do_what_their_messages_do() {
    let mut by_message = Tasker::new();
    let mut by_method = Tasker::new();

    by_message.update(Message::NewTaskDescriptionChanged("a".to_string()));
    by_method.set_draft_description("a".to_string());
    by_message.update(Message::Add);
    by_method.add_task();
    by_message.update(Message::NewTaskDescriptionChanged("b".to_string()));
    by_method.set_draft_description("b".to_string());
    by_message.update(Message::Add);
    by_method.add_task();
    by_message.update(Message::ToggleCompleted(1, true));
    by_method.toggle_completed(1, true);
    by_message.update(Message::Edit(0));
    by_method.begin_edit(0);
    by_message.update(Message::TaskDescriptionChanged(0, "a2".to_string()));
    by_method.set_task_description(0, "a2".to_string());
    by_message.update(Message::Save(0));
    by_method.save_edit(0);
    by_message.update(Message::FilterChanged(Filter::Completed));
    by_method.set_filter(Filter::Completed);

    for app in [&by_message, &by_method] {
        assert_eq!(stored_ids(app), vec![0, 1]);
        assert_eq!(app.tasks()[0].description, "a2");
        assert!(!app.tasks()[0].completed);
        assert!(app.tasks()[1].completed);
        assert_eq!(app.editing(), None);
        assert_eq!(app.filter(), Filter::Completed);
        assert_eq!(ids(&app.visible_tasks()), vec![1]);
        assert_eq!(app.next_task_id(), 2);
    }

    by_message.update(Message::Delete(1));
    by_method.delete_task(1);
    for app in [&by_message, &by_method] {
        assert_eq!(stored_ids(app), vec![0]);
        assert!(app.visible_tasks().is_empty());
    }
}

#[test]
fn every_message_is_accepted_far_from_the_limit() {
    let mut app = Tasker::new();
    app.update(Message::NewTaskDescriptionChanged("a".to_string()));
    let messages = [
        Message::NewTaskDescriptionChanged("b".to_string()),
        Message::Add,
        Message::ToggleCompleted(0, true),
        Message::Delete(0),
        Message::FilterChanged(Filter::Active),
        Message::Edit(0),
        Message::TaskDescriptionChanged(0, "c".to_string()),
        Message::Save(0),
    ];
    for message in messages.iter() {
        assert!(app.accepts(message));
    }
}

#[test]
fn title_is_the_application_name() {
    assert_eq!(Tasker::new().title(), "Tasker");
}
