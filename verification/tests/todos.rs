use demokit::todos::{
    empty_message, tasks_left, tasks_left_text, visible_tasks, Command, Filter, Message,
    SaveError, SavedState, State, Task, TaskMessage, TaskState, Todos, WindowMode,
};

fn new_id() -> u128 {
    uuid::Uuid::new_v4().as_u128()
}

fn loaded() -> Todos {
    let mut app = Todos::Loading;
    let eff = app.update(Message::Loaded(Err(demokit::todos::LoadError::File)));
    assert_eq!(eff.command, Command::FocusInput);
    assert!(eff.save.is_none());
    app
}

fn state(app: &Todos) -> &State {
    match app {
        Todos::Loaded(s) => s,
        Todos::Loading => panic!("not loaded"),
    }
}

#[test]
fn loading_takes_saved_state() {
    let mut app = Todos::Loading;
    let saved = SavedState {
        input_value: String::from("draft"),
        filter: Filter::Active,
        tasks: vec![Task::new(new_id(), String::from("one"))],
    };
    let eff = app.update(Message::Loaded(Ok(saved)));
    assert_eq!(eff.command, Command::FocusInput);
    let s = state(&app);
    assert_eq!(s.input_value, "draft");
    assert_eq!(s.filter, Filter::Active);
    assert_eq!(s.tasks.len(), 1);
    assert!(!s.dirty && !s.saving);
}

#[test]
fn loading_ignores_other_messages() {
    let mut app = Todos::Loading;
    let eff = app.update(Message::CreateTask(new_id()));
    assert_eq!(eff.command, Command::FocusInput);
    assert!(matches!(app, Todos::Loading));
}

#[test]
fn create_task_appends_and_saves() {
    let mut app = loaded();
    let eff = app.update(Message::InputChanged(String::from("buy milk")));
    assert_eq!(eff.command, Command::Nothing);
    let snap = eff.save.expect("first change starts a save");
    assert_eq!(snap.input_value, "buy milk");
    assert!(state(&app).saving && !state(&app).dirty);

    let id = new_id();
    let eff = app.update(Message::CreateTask(id));
    assert!(eff.save.is_none(), "a save is still running");
    let s = state(&app);
    assert_eq!(s.tasks.len(), 1);
    assert_eq!(s.tasks[0].description, "buy milk");
    assert!(!s.tasks[0].completed);
    assert_eq!(s.tasks[0].state, TaskState::Idle);
    assert_eq!(s.tasks[0].id, id);
    assert_eq!(s.input_value, "");
    assert!(s.dirty && s.saving);

    let eff = app.update(Message::Saved(Ok(())));
    let snap = eff.save.expect("pending changes are saved when a save ends");
    assert_eq!(snap.tasks.len(), 1);
    assert_eq!(snap.tasks[0].description, "buy milk");
    assert!(state(&app).saving && !state(&app).dirty);

    let eff = app.update(Message::Saved(Err(SaveError::Write)));
    assert!(eff.save.is_none());
    assert!(!state(&app).saving && !state(&app).dirty);
}

#[test]
fn create_task_with_empty_input_adds_nothing() {
    let mut app = loaded();
    app.update(Message::CreateTask(new_id()));
    assert_eq!(state(&app).tasks.len(), 0);
}

#[test]
fn task_messages_reach_the_task() {
    let mut app = loaded();
    app.update(Message::InputChanged(String::from("a")));
    app.update(Message::CreateTask(new_id()));
    let eff = app.update(Message::TaskMessageBridge(0, TaskMessage::Edit));
    assert_eq!(eff.command, Command::FocusTask(0));
    assert_eq!(state(&app).tasks[0].state, TaskState::Editing);
    app.update(Message::TaskMessageBridge(0, TaskMessage::DescriptionEdited(String::new())));
    app.update(Message::TaskMessageBridge(0, TaskMessage::FinishEdition));
    assert_eq!(state(&app).tasks[0].state, TaskState::Editing, "empty text keeps editing");
    app.update(Message::TaskMessageBridge(0, TaskMessage::DescriptionEdited(String::from("b"))));
    app.update(Message::TaskMessageBridge(0, TaskMessage::FinishEdition));
    assert_eq!(state(&app).tasks[0].state, TaskState::Idle);
    app.update(Message::TaskMessageBridge(0, TaskMessage::Completed(true)));
    assert!(state(&app).tasks[0].completed);
    let eff = app.update(Message::TaskMessageBridge(5, TaskMessage::Edit));
    assert_eq!(eff.command, Command::Nothing);
    app.update(Message::TaskMessageBridge(0, TaskMessage::Delete));
    assert_eq!(state(&app).tasks.len(), 0);
}

#[test]
fn window_commands() {
    let mut app = loaded();
    assert_eq!(app.update(Message::TabPressed { shift: true }).command, Command::FocusPrevious);
    assert_eq!(app.update(Message::TabPressed { shift: false }).command, Command::FocusNext);
    assert_eq!(
        app.update(Message::ToggleFullscreen(WindowMode::Fullscreen)).command,
        Command::ChangeMode(WindowMode::Fullscreen)
    );
    assert_eq!(app.update(Message::FilterChanged(Filter::Completed)).command, Command::Nothing);
    assert_eq!(state(&app).filter, Filter::Completed);
}

#[test]
fn title_marks_unsaved_changes() {
    let app = Todos::Loading;
    assert_eq!(app.title(), "Todos - Iced");
    let mut app = loaded();
    app.update(Message::InputChanged(String::from("x")));
    app.update(Message::InputChanged(String::from("y")));
    assert!(state(&app).dirty);
    assert_eq!(app.title(), "Todos* - Iced");
}

#[test]
fn filters_and_counts() {
    let mut a = Task::new(new_id(), String::from("a"));
    let b = Task::new(new_id(), String::from("b"));
    let mut c = Task::new(new_id(), String::from("c"));
    a.update(TaskMessage::Completed(true));
    c.update(TaskMessage::Completed(true));
    let tasks = vec![a, b, c];
    assert_eq!(tasks_left(&tasks), 1);
    assert_eq!(tasks_left_text(1), "1 task left");
    assert_eq!(tasks_left_text(0), "0 tasks left");
    assert_eq!(tasks_left_text(12), "12 tasks left");
    assert_eq!(visible_tasks(&tasks, Filter::ALL), vec![0, 1, 2]);
    assert_eq!(visible_tasks(&tasks, Filter::Active), vec![1]);
    assert_eq!(visible_tasks(&tasks, Filter::Completed), vec![0, 2]);
    assert!(Filter::Active.matches(&tasks[1]));
    assert!(!Filter::Active.matches(&tasks[0]));
    assert_eq!(empty_message(Filter::ALL), "You have not crated a task yet");
    assert_eq!(empty_message(Filter::Active), "All you tasks are done! :D");
    assert_eq!(empty_message(Filter::Completed), "You have not completed a task yet...");
    assert_eq!(Filter::default(), Filter::ALL);
}

#[test]
fn tasks_get_fresh_ids_and_input_ids() {
    let a = Task::new(new_id(), String::from("same"));
    let b = Task::new(new_id(), String::from("same"));
    assert_ne!(a.id, b.id);
    for id in [a.id, b.id] {
        assert_eq!((id >> 76) & 0xf, 4);
        assert_eq!((id >> 62) & 0x3, 2);
    }
    let d = Task::new(7, String::from("d"));
    assert_eq!(d.id, 7);
    assert_eq!(d.description, "d");
    assert!(!d.completed);
    assert_eq!(d.state, TaskState::Idle);
    assert_eq!(Task::text_input_id(0), "task-0");
    assert_eq!(Task::text_input_id(42), "task-42");
    let c = a.clone();
    assert_eq!(c.id, a.id);
    assert_eq!(c.description, a.description);
}

#[test]
fn only_delete_removes_tasks() {
    let mut app = loaded();
    for d in ["a", "b", "c"] {
        app.update(Message::InputChanged(String::from(d)));
        app.update(Message::CreateTask(new_id()));
    }
    let ids: Vec<u128> = state(&app).tasks.iter().map(|t| t.id).collect();
    app.update(Message::TaskMessageBridge(1, TaskMessage::Completed(true)));
    app.update(Message::FilterChanged(Filter::Completed));
    app.update(Message::TaskMessageBridge(9, TaskMessage::FinishEdition));
    app.update(Message::Saved(Ok(())));
    let after: Vec<u128> = state(&app).tasks.iter().map(|t| t.id).collect();
    assert_eq!(ids, after);
    app.update(Message::TaskMessageBridge(0, TaskMessage::Delete));
    let after: Vec<u128> = state(&app).tasks.iter().map(|t| t.id).collect();
    assert_eq!(after, ids[1..].to_vec());
}
