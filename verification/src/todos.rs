//! The to-do list: tasks, their filter, and the state machine that decides,
//! for each message of the window, the next state, the window command to
//! run and whether a snapshot must be saved.

use vstd::prelude::*;
use crate::decimal::{decimal, push_decimal};
use crate::keyboard::{Key, Modifiers, NamedKey};

verus! {

/// Which tasks the list shows.
#[derive(Debug, Clone, Copy, PartialEq, Eq, Structural)]
pub enum Filter {
    ALL,
    Active,
    Completed,
}

impl Default for Filter {
    fn default() -> (r: Self)
        ensures
            r == Filter::ALL,
    {
        Filter::ALL
    }
}

/// Whether a filter shows a task whose completion flag is `completed`.
pub open spec fn filter_shows(filter: Filter, completed: bool) -> bool {
    match filter {
        Filter::ALL => true,
        Filter::Active => !completed,
        Filter::Completed => completed,
    }
}

impl Filter {
    /// Whether this filter shows `task`.
    pub fn matches(self, task: &Task) -> (r: bool)
        ensures
            r == filter_shows(self, task.completed),
    {
        match self {
            Filter::ALL => true,
            Filter::Active => !task.completed,
            Filter::Completed => task.completed,
        }
    }
}

/// Whether a task is shown as a checkbox or edited as text.
#[derive(Debug, Clone, Copy, PartialEq, Eq, Structural)]
pub enum TaskState {
    Idle,
    Editing,
}

impl Default for TaskState {
    fn default() -> (r: Self)
        ensures
            r == TaskState::Idle,
    {
        TaskState::Idle
    }
}

/// What the widget of one task asks of it.
#[derive(Debug)]
pub enum TaskMessage {
    Completed(bool),
    Edit,
    DescriptionEdited(String),
    FinishEdition,
    Delete,
}

/// One task of the list. `id` is the 128-bit value of the task's random
/// UUID, by which the list keys its rows.
#[derive(Debug)]
pub struct Task {
    pub id: u128,
    pub description: String,
    pub completed: bool,
    pub state: TaskState,
}

impl Clone for Task {
    fn clone(&self) -> (r: Self)
        ensures
            r == *self,
    {
        Task {
            id: self.id,
            description: self.description.clone(),
            completed: self.completed,
            state: self.state,
        }
    }
}

/// Whether `t` is a task just made with the id `id` from a description
/// `desc`: that id, the description, not completed, not being edited.
pub open spec fn fresh_task(t: Task, id: u128, desc: String) -> bool {
    &&& t.id == id
    &&& t.description == desc
    &&& !t.completed
    &&& t.state == TaskState::Idle
}

/// The task after it handles one of its messages.
pub open spec fn task_after(t: Task, m: TaskMessage) -> Task {
    match m {
        TaskMessage::Completed(c) => Task { completed: c, ..t },
        TaskMessage::Edit => Task { state: TaskState::Editing, ..t },
        TaskMessage::DescriptionEdited(d) => Task { description: d, ..t },
        TaskMessage::FinishEdition => if t.description@.len() > 0 {
            Task { state: TaskState::Idle, ..t }
        } else {
            t
        },
        TaskMessage::Delete => t,
    }
}

impl Task {
    /// The identifier of the text input that edits task `i`: `task-` and `i`.
    pub fn text_input_id(i: usize) -> (r: String)
        ensures
            r@ == "task-"@ + decimal(i as nat),
    {
        let mut s = String::from_str("task-");
        push_decimal(&mut s, i as u64);
        s
    }

    /// A new task with the id `id`, which the program draws at random as a
    /// version-4 UUID.
    pub fn new(id: u128, description: String) -> (r: Task)
        ensures
            fresh_task(r, id, description),
    {
        Task { id, description, completed: false, state: TaskState::Idle }
    }

    /// Handles one message of the task's widget.
    pub fn update(&mut self, message: TaskMessage)
        ensures
            *final(self) == task_after(*old(self), message),
    {
        match message {
            TaskMessage::Completed(completed) => {
                self.completed = completed;
            },
            TaskMessage::Edit => {
                self.state = TaskState::Editing;
            },
            TaskMessage::DescriptionEdited(new_description) => {
                self.description = new_description;
            },
            TaskMessage::FinishEdition => {
                if !self.description.as_str().is_empty() {
                    self.state = TaskState::Idle;
                }
            },
            TaskMessage::Delete => {},
        }
    }
}

/// The state of a loaded list.
#[derive(Debug)]
pub struct State {
    pub input_value: String,
    pub filter: Filter,
    pub tasks: Vec<Task>,
    /// Changes were made that no save has taken yet.
    pub dirty: bool,
    /// A save is running.
    pub saving: bool,
}

impl Default for State {
    fn default() -> (r: Self)
        ensures
            r.input_value@.len() == 0,
            r.filter == Filter::ALL,
            r.tasks@.len() == 0,
            !r.dirty,
            !r.saving,
    {
        State {
            input_value: String::new(),
            filter: Filter::ALL,
            tasks: Vec::new(),
            dirty: false,
            saving: false,
        }
    }
}

/// The application: loading its saved state, or running.
#[derive(Debug)]
pub enum Todos {
    Loading,
    Loaded(State),
}

/// What is written to, and read from, the saved file.
#[derive(Debug)]
pub struct SavedState {
    pub input_value: String,
    pub filter: Filter,
    pub tasks: Vec<Task>,
}

/// Why the saved state could not be read.
#[derive(Debug, Clone, Copy, PartialEq, Eq, Structural)]
pub enum LoadError {
    File,
    Format,
}

/// Why the state could not be saved.
#[derive(Debug, Clone, Copy, PartialEq, Eq, Structural)]
pub enum SaveError {
    File,
    Write,
    Format,
}

/// The icon font could not be loaded.
#[derive(Debug, Clone, Copy, PartialEq, Eq, Structural)]
pub struct FontError;

/// How the window is shown.
#[derive(Debug, Clone, Copy, PartialEq, Eq, Structural)]
pub enum WindowMode {
    Windowed,
    Fullscreen,
    Hidden,
}

/// What the window tells the application.
#[derive(Debug)]
pub enum Message {
    Loaded(Result<SavedState, LoadError>),
    FontLoaded(Result<(), FontError>),
    Saved(Result<(), SaveError>),
    InputChanged(String),
    /// Create a task from the input, with the id the program drew for it.
    CreateTask(u128),
    FilterChanged(Filter),
    TaskMessageBridge(usize, TaskMessage),
    TabPressed { shift: bool },
    ToggleFullscreen(WindowMode),
}

/// A window command other than saving.
#[derive(Debug, Clone, Copy, PartialEq, Eq, Structural)]
pub enum Command {
    Nothing,
    /// Focus the text input that creates tasks.
    FocusInput,
    /// Focus the text input of task `i` and select all its text.
    FocusTask(usize),
    FocusPrevious,
    FocusNext,
    ChangeMode(WindowMode),
}

/// Everything one update asks the window to do: a command, and the
/// snapshot to save, if a save is to start.
#[derive(Debug)]
pub struct Effects {
    pub command: Command,
    pub save: Option<SavedState>,
}

/// The state after a message and before the save decision, with its command.
pub open spec fn message_step(s: State, msg: Message, m: State, cmd: Command) -> bool {
    match msg {
        Message::InputChanged(v) => m == State { input_value: v, ..s } && cmd == Command::Nothing,
        Message::CreateTask(id) => {
            &&& cmd == Command::Nothing
            &&& if s.input_value@.len() > 0 {
                &&& m.tasks@.len() == s.tasks@.len() + 1
                &&& m.tasks@.drop_last() == s.tasks@
                &&& fresh_task(m.tasks@.last(), id, s.input_value)
                &&& m.input_value@.len() == 0
                &&& m.filter == s.filter
                &&& m.dirty == s.dirty
                &&& m.saving == s.saving
            } else {
                m == s
            }
        },
        Message::FilterChanged(f) => m == State { filter: f, ..s } && cmd == Command::Nothing,
        Message::TaskMessageBridge(i, tm) => match tm {
            TaskMessage::Delete => m == State { tasks: m.tasks, ..s } && m.tasks@ == s.tasks@.remove(
                i as int,
            ) && cmd == Command::Nothing,
            _ => if i < s.tasks@.len() {
                &&& m == State { tasks: m.tasks, ..s }
                &&& m.tasks@ == s.tasks@.update(i as int, task_after(s.tasks@[i as int], tm))
                &&& cmd == (if tm is Edit {
                    Command::FocusTask(i)
                } else {
                    Command::Nothing
                })
            } else {
                m == s && cmd == Command::Nothing
            },
        },
        Message::Saved(_) => m == State { saving: false, ..s } && cmd == Command::Nothing,
        Message::TabPressed { shift } => m == s && cmd == (if shift {
            Command::FocusPrevious
        } else {
            Command::FocusNext
        }),
        Message::ToggleFullscreen(mode) => m == s && cmd == Command::ChangeMode(mode),
        Message::Loaded(_) => m == s && cmd == Command::Nothing,
        Message::FontLoaded(_) => m == s && cmd == Command::Nothing,
    }
}

/// The snapshot that saving `s` writes.
pub open spec fn snapshot_of(snap: SavedState, s: State) -> bool {
    &&& snap.input_value == s.input_value
    &&& snap.filter == s.filter
    &&& snap.tasks@ == s.tasks@
}

/// The save decision after a message: every message but `Saved` marks the
/// list dirty; a dirty list that is not being saved starts a save of what
/// it holds, and is no longer dirty but saving.
pub open spec fn save_step(m: State, was_saved: bool, n: State, save: Option<SavedState>) -> bool {
    let dirty = m.dirty || !was_saved;
    if dirty && !m.saving {
        &&& n == State { dirty: false, saving: true, ..m }
        &&& save matches Some(snap) && snapshot_of(snap, m)
    } else {
        &&& n == State { dirty, ..m }
        &&& save is None
    }
}

/// What an update of a loaded list does.
pub open spec fn loaded_step(s: State, msg: Message, n: Todos, eff: Effects) -> bool {
    let was_saved = msg is Saved;
    exists|m: State|
        {
            &&& message_step(s, msg, m, eff.command)
            &&& n matches Todos::Loaded(ns) && save_step(m, was_saved, ns, eff.save)
        }
}

/// What an update of a loading list does: the loaded state is taken in,
/// whether it was read or not, and the input is focused.
pub open spec fn loading_step(msg: Message, n: Todos, eff: Effects) -> bool {
    &&& eff.command == Command::FocusInput
    &&& eff.save is None
    &&& match msg {
        Message::Loaded(Ok(saved)) => n matches Todos::Loaded(ns) && ns == State {
            input_value: saved.input_value,
            filter: saved.filter,
            tasks: saved.tasks,
            dirty: false,
            saving: false,
        },
        Message::Loaded(Err(_)) => n matches Todos::Loaded(ns) && ns.input_value@.len() == 0
            && ns.filter == Filter::ALL && ns.tasks@.len() == 0 && !ns.dirty && !ns.saving,
        _ => n is Loading,
    }
}

/// The requirement of an update: a task to delete exists. A list that is
/// still loading takes every message.
pub open spec fn update_allowed(t: Todos, msg: Message) -> bool {
    match t {
        Todos::Loaded(s) => (msg matches Message::TaskMessageBridge(i, TaskMessage::Delete) ==> i
            < s.tasks@.len()),
        Todos::Loading => true,
    }
}

/// Whether a list keeps its save discipline: a loaded list with unsaved
/// changes always has a save running.
pub open spec fn save_pending_covered(t: Todos) -> bool {
    match t {
        Todos::Loaded(s) => s.dirty ==> s.saving,
        Todos::Loading => true,
    }
}

fn clone_tasks(tasks: &Vec<Task>) -> (r: Vec<Task>)
    ensures
        r@ == tasks@,
{
    let r = tasks.clone();
    assert forall|i: int| 0 <= i < tasks.len() implies r@[i] == tasks@[i] by {
        assert(vstd::pervasive::cloned::<Task>(tasks[i], r[i]));
    }
    assert(r@ =~= tasks@);
    r
}

fn apply_message(s: &mut State, message: Message) -> (cmd: Command)
    requires
        message matches Message::TaskMessageBridge(i, TaskMessage::Delete) ==> i < old(
            s,
        ).tasks@.len(),
    ensures
        message_step(*old(s), message, *final(s), cmd),
{
    match message {
        Message::InputChanged(value) => {
            s.input_value = value;
            Command::Nothing
        },
        Message::CreateTask(id) => {
            if !s.input_value.as_str().is_empty() {
                let t = Task::new(id, s.input_value.clone());
                s.tasks.push(t);
                s.input_value = String::new();
                assert(s.tasks@.drop_last() =~= old(s).tasks@);
            }
            Command::Nothing
        },
        Message::FilterChanged(filter) => {
            s.filter = filter;
            Command::Nothing
        },
        Message::TaskMessageBridge(i, TaskMessage::Delete) => {
            s.tasks.remove(i);
            Command::Nothing
        },
        Message::TaskMessageBridge(i, task_message) => {
            if i < s.tasks.len() {
                let should_focus = matches!(task_message, TaskMessage::Edit);
                let mut task = s.tasks[i].clone();
                task.update(task_message);
                s.tasks.set(i, task);
                if should_focus {
                    Command::FocusTask(i)
                } else {
                    Command::Nothing
                }
            } else {
                Command::Nothing
            }
        },
        Message::Saved(_result) => {
            s.saving = false;
            Command::Nothing
        },
        Message::TabPressed { shift } => {
            if shift {
                Command::FocusPrevious
            } else {
                Command::FocusNext
            }
        },
        Message::ToggleFullscreen(mode) => Command::ChangeMode(mode),
        _ => Command::Nothing,
    }
}

impl Todos {
    /// The window title: `Todos - Iced`, with a `*` after `Todos` while
    /// changes wait for a save.
    pub fn title(&self) -> (r: String)
        ensures
            r@ == (if self matches Todos::Loaded(s) && s.dirty {
                "Todos* - Iced"@
            } else {
                "Todos - Iced"@
            }),
    {
        let dirty = match self {
            Todos::Loading => false,
            Todos::Loaded(state) => state.dirty,
        };
        if dirty {
            String::from_str("Todos* - Iced")
        } else {
            String::from_str("Todos - Iced")
        }
    }

    /// Handles one message: the next state, the command to run, and the
    /// snapshot to save, if a save starts.
    pub fn update(&mut self, message: Message) -> (eff: Effects)
        requires
            update_allowed(*old(self), message),
        ensures
            *old(self) is Loading ==> loading_step(message, *final(self), eff),
            *old(self) matches Todos::Loaded(s) ==> loaded_step(s, message, *final(self), eff),
            save_pending_covered(*final(self)),
    {
        let mut current = Todos::Loading;
        std::mem::swap(&mut current, self);
        match current {
            Todos::Loading => {
                match message {
                    Message::Loaded(Ok(state)) => {
                        *self = Todos::Loaded(
                            State {
                                input_value: state.input_value,
                                filter: state.filter,
                                tasks: state.tasks,
                                dirty: false,
                                saving: false,
                            },
                        );
                    },
                    Message::Loaded(Err(_)) => {
                        *self = Todos::Loaded(State::default());
                    },
                    _ => {},
                }
                Effects { command: Command::FocusInput, save: None }
            },
            Todos::Loaded(mut state) => {
                let ghost s0 = state;
                let was_saved = matches!(message, Message::Saved(_));
                let command = apply_message(&mut state, message);
                let ghost m = state;
                if !was_saved {
                    state.dirty = true;
                }
                let save = if state.dirty && !state.saving {
                    state.dirty = false;
                    state.saving = true;
                    Some(
                        SavedState {
                            input_value: state.input_value.clone(),
                            filter: state.filter,
                            tasks: clone_tasks(&state.tasks),
                        },
                    )
                } else {
                    None
                };
                *self = Todos::Loaded(state);
                let eff = Effects { command, save };
                assert(message_step(s0, message, m, eff.command));
                eff
            },
        }
    }
}

/// Law: after a loaded list handles any message, it is still loaded, it is
/// never left dirty without a save running, a message other than `Saved`
/// always leaves a save running, and a save that starts leaves the list
/// clean and saving.
pub proof fn lemma_loaded_save_discipline(s: State, msg: Message, n: Todos, eff: Effects)
    requires
        loaded_step(s, msg, n, eff),
    ensures
        n matches Todos::Loaded(ns) && {
            &&& ns.dirty ==> ns.saving
            &&& !(msg is Saved) ==> ns.saving
            &&& eff.save is Some ==> ns.saving && !ns.dirty
        },
{
}

/// Law: only deleting takes tasks away; every other message keeps each
/// task where it was, and creating adds one at the end.
pub proof fn lemma_only_delete_removes(s: State, msg: Message, n: Todos, eff: Effects)
    requires
        loaded_step(s, msg, n, eff),
        !(msg matches Message::TaskMessageBridge(_, TaskMessage::Delete)),
    ensures
        n matches Todos::Loaded(ns) && ns.tasks@.len() >= s.tasks@.len() && (forall|i: int|
            0 <= i < s.tasks@.len() ==> #[trigger] ns.tasks@[i].id == s.tasks@[i].id),
{
    let m = choose|m: State|
        {
            &&& message_step(s, msg, m, eff.command)
            &&& n matches Todos::Loaded(ns) && save_step(m, msg is Saved, ns, eff.save)
        };
    if msg is CreateTask && s.input_value@.len() > 0 {
        assert forall|i: int| 0 <= i < s.tasks@.len() implies m.tasks@[i].id == s.tasks@[i].id by {
            assert(m.tasks@.drop_last()[i] == m.tasks@[i]);
        }
    }
}

/// Law: a task's check box sets its completed flag to exactly what was
/// clicked, so a completed task can be unchecked again; the task keeps its
/// id and description.
pub proof fn lemma_completed_sets_flag(t: Task, c: bool)
    ensures
        task_after(t, TaskMessage::Completed(c)).completed == c,
        task_after(t, TaskMessage::Completed(c)).id == t.id,
        task_after(t, TaskMessage::Completed(c)).description == t.description,
{
}

/// Law: editing a task's text replaces its description with exactly the
/// new text, and finishing an edition leaves editing only when the text is
/// not empty; neither changes the task's id or completed flag.
pub proof fn lemma_edit_messages(t: Task, d: String)
    ensures
        task_after(t, TaskMessage::DescriptionEdited(d)).description == d,
        task_after(t, TaskMessage::DescriptionEdited(d)).id == t.id,
        task_after(t, TaskMessage::DescriptionEdited(d)).completed == t.completed,
        task_after(t, TaskMessage::Edit).state == TaskState::Editing,
        task_after(t, TaskMessage::FinishEdition).state == (if t.description@.len() > 0 {
            TaskState::Idle
        } else {
            t.state
        }),
        task_after(t, TaskMessage::FinishEdition).description == t.description,
        task_after(t, TaskMessage::FinishEdition).completed == t.completed,
{
}

/// Law: in a loaded list, the check box of task `i` sets that task's
/// completed flag to what was clicked and leaves every other task as it
/// was.
pub proof fn lemma_list_completed_sets_flag(s: State, i: usize, c: bool, n: Todos, eff: Effects)
    requires
        loaded_step(s, Message::TaskMessageBridge(i, TaskMessage::Completed(c)), n, eff),
        i < s.tasks@.len(),
    ensures
        n matches Todos::Loaded(ns) && {
            &&& ns.tasks@.len() == s.tasks@.len()
            &&& ns.tasks@[i as int].completed == c
            &&& ns.tasks@[i as int].id == s.tasks@[i as int].id
            &&& forall|j: int| 0 <= j < s.tasks@.len() && j != i ==> ns.tasks@[j] == s.tasks@[j]
        },
{
    let msg = Message::TaskMessageBridge(i, TaskMessage::Completed(c));
    let m = choose|m: State|
        {
            &&& message_step(s, msg, m, eff.command)
            &&& n matches Todos::Loaded(ns) && save_step(m, msg is Saved, ns, eff.save)
        };
    lemma_completed_sets_flag(s.tasks@[i as int], c);
    assert(m.tasks@[i as int] == task_after(s.tasks@[i as int], TaskMessage::Completed(c)));
}

/// Law: when a save finishes while more changes wait, a new save of the
/// current list starts at once.
pub proof fn lemma_saved_restarts_dirty(s: State, r: Result<(), SaveError>, n: Todos, eff: Effects)
    requires
        loaded_step(s, Message::Saved(r), n, eff),
        s.dirty,
    ensures
        eff.save matches Some(snap) && snap.input_value == s.input_value && snap.filter == s.filter
            && snap.tasks@ == s.tasks@,
        n matches Todos::Loaded(ns) && ns.saving && !ns.dirty,
{
}

/// The message of a key press: tab moves the focus, backwards with shift;
/// shift and up fills the screen, shift and down returns to a window; other
/// keys mean nothing to the list.
pub fn key_message(key: &Key, modifiers: Modifiers) -> (r: Option<Message>)
    ensures
        match key {
            Key::Named(NamedKey::Tab) => r matches Some(Message::TabPressed { shift }) && shift
                == modifiers.shift,
            Key::Named(NamedKey::ArrowUp) => if modifiers.only_shift() {
                r matches Some(Message::ToggleFullscreen(m)) && m == WindowMode::Fullscreen
            } else {
                r is None
            },
            Key::Named(NamedKey::ArrowDown) => if modifiers.only_shift() {
                r matches Some(Message::ToggleFullscreen(m)) && m == WindowMode::Windowed
            } else {
                r is None
            },
            _ => r is None,
        },
{
    match key {
        Key::Named(NamedKey::Tab) => Some(Message::TabPressed { shift: modifiers.shift }),
        Key::Named(NamedKey::ArrowUp) => {
            if modifiers.is_only_shift() {
                Some(Message::ToggleFullscreen(WindowMode::Fullscreen))
            } else {
                None
            }
        },
        Key::Named(NamedKey::ArrowDown) => {
            if modifiers.is_only_shift() {
                Some(Message::ToggleFullscreen(WindowMode::Windowed))
            } else {
                None
            }
        },
        _ => None,
    }
}

/// How many of `tasks` are not completed.
pub open spec fn count_active(tasks: Seq<Task>) -> nat
    decreases tasks.len(),
{
    if tasks.len() == 0 {
        0
    } else {
        count_active(tasks.drop_last()) + if tasks.last().completed {
            0nat
        } else {
            1nat
        }
    }
}

/// How many tasks are left to do.
pub fn tasks_left(tasks: &[Task]) -> (r: usize)
    ensures
        r == count_active(tasks@),
{
    let mut n: usize = 0;
    let mut i: usize = 0;
    while i < tasks.len()
        invariant
            i <= tasks@.len(),
            n == count_active(tasks@.subrange(0, i as int)),
            n <= i,
        decreases tasks@.len() - i,
    {
        assert(tasks@.subrange(0, i + 1).drop_last() =~= tasks@.subrange(0, i as int));
        if !tasks[i].completed {
            n = n + 1;
        }
        i = i + 1;
    }
    assert(tasks@.subrange(0, i as int) =~= tasks@);
    n
}

/// The summary of the controls bar: `N task left` or `N tasks left`.
pub fn tasks_left_text(tasks_left: usize) -> (r: String)
    ensures
        r@ == decimal(tasks_left as nat) + (if tasks_left == 1 {
            " task left"@
        } else {
            " tasks left"@
        }),
{
    let mut s = String::new();
    push_decimal(&mut s, tasks_left as u64);
    if tasks_left == 1 {
        s.append(" task left");
    } else {
        s.append(" tasks left");
    }
    s
}

/// The indices, in order, of the tasks that `filter` shows.
pub open spec fn shown_indices(tasks: Seq<Task>, filter: Filter) -> Seq<usize>
    decreases tasks.len(),
{
    if tasks.len() == 0 {
        Seq::empty()
    } else {
        let rest = shown_indices(tasks.drop_last(), filter);
        if filter_shows(filter, tasks.last().completed) {
            rest.push((tasks.len() - 1) as usize)
        } else {
            rest
        }
    }
}

/// Law: the active filter shows exactly the tasks left to do, the
/// completed filter the others, and together they show every task once,
/// as the `ALL` filter does.
pub proof fn lemma_filters_partition(tasks: Seq<Task>)
    ensures
        shown_indices(tasks, Filter::Active).len() == count_active(tasks),
        shown_indices(tasks, Filter::Active).len() + shown_indices(tasks, Filter::Completed).len()
            == tasks.len(),
        shown_indices(tasks, Filter::ALL).len() == tasks.len(),
    decreases tasks.len(),
{
    if tasks.len() > 0 {
        lemma_filters_partition(tasks.drop_last());
    }
}

/// The rows that the list shows: the indices of the tasks that `filter`
/// shows, in order.
pub fn visible_tasks(tasks: &[Task], filter: Filter) -> (r: Vec<usize>)
    ensures
        r@ == shown_indices(tasks@, filter),
{
    let mut r: Vec<usize> = Vec::new();
    let mut i: usize = 0;
    while i < tasks.len()
        invariant
            i <= tasks@.len(),
            r@ == shown_indices(tasks@.subrange(0, i as int), filter),
        decreases tasks@.len() - i,
    {
        let ghost pre = tasks@.subrange(0, i + 1);
        assert(pre.drop_last() =~= tasks@.subrange(0, i as int));
        if filter.matches(&tasks[i]) {
            r.push(i);
        }
        i = i + 1;
    }
    assert(tasks@.subrange(0, i as int) =~= tasks@);
    r
}

/// What the list says when `filter` shows no task.
pub fn empty_message(filter: Filter) -> (r: &'static str)
    ensures
        r@ == match filter {
            Filter::ALL => "You have not crated a task yet"@,
            Filter::Active => "All you tasks are done! :D"@,
            Filter::Completed => "You have not completed a task yet..."@,
        },
{
    match filter {
        Filter::ALL => "You have not crated a task yet",
        Filter::Active => "All you tasks are done! :D",
        Filter::Completed => "You have not completed a task yet...",
    }
}

} // verus!
