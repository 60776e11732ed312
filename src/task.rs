use vstd::prelude::*;

verus! {

/// A task as the user sees it: an identifier, a title, whether it is done,
/// how many pomodoros went into it, how many were planned for it, and when it
/// was created (an encoded date and time).
#[derive(Clone, Debug, PartialEq, Eq)]
pub struct Task {
    id: String,
    title: String,
    completed: bool,
    pomodoros_completed: u32,
    estimated_pomodoros: u32,
    created_at: String,
}

/// The six fields of a task, as plain values.
pub struct TaskModel {
    pub id: Seq<char>,
    pub title: Seq<char>,
    pub completed: bool,
    pub pomodoros_completed: u32,
    pub estimated_pomodoros: u32,
    pub created_at: Seq<char>,
}

/// The flat field record that a task is written to and read back from, in
/// declaration order.
pub type TaskFields = (String, String, bool, u32, u32, String);

/// The model of a flat field record.
pub open spec fn fields_model(f: TaskFields) -> TaskModel {
    TaskModel {
        id: f.0@,
        title: f.1@,
        completed: f.2,
        pomodoros_completed: f.3,
        estimated_pomodoros: f.4,
        created_at: f.5@,
    }
}

impl View for Task {
    type V = TaskModel;

    closed spec fn view(&self) -> TaskModel {
        TaskModel {
            id: self.id@,
            title: self.title@,
            completed: self.completed,
            pomodoros_completed: self.pomodoros_completed,
            estimated_pomodoros: self.estimated_pomodoros,
            created_at: self.created_at@,
        }
    }
}

impl Task {
    /// A task with the given fields, taken as they are.
    pub fn new(
        id: String,
        title: String,
        completed: bool,
        pomodoros_completed: u32,
        estimated_pomodoros: u32,
        created_at: String,
    ) -> (r: Task)
        ensures
            r@ == fields_model((id, title, completed, pomodoros_completed, estimated_pomodoros, created_at)),
    {
        Task { id, title, completed, pomodoros_completed, estimated_pomodoros, created_at }
    }

    /// Reads a task back from its flat field record.
    pub fn from_fields(f: TaskFields) -> (r: Task)
        ensures
            r@ == fields_model(f),
    {
        let (id, title, completed, pomodoros_completed, estimated_pomodoros, created_at) = f;
        Task::new(id, title, completed, pomodoros_completed, estimated_pomodoros, created_at)
    }

    /// Writes a task out as its flat field record.
    pub fn into_fields(self) -> (r: TaskFields)
        ensures
            fields_model(r) == self@,
    {
        (
            self.id,
            self.title,
            self.completed,
            self.pomodoros_completed,
            self.estimated_pomodoros,
            self.created_at,
        )
    }

    pub fn id(&self) -> (r: &String)
        ensures
            r@ == self@.id,
    {
        &self.id
    }

    pub fn title(&self) -> (r: &String)
        ensures
            r@ == self@.title,
    {
        &self.title
    }

    pub fn completed(&self) -> (r: bool)
        ensures
            r == self@.completed,
    {
        self.completed
    }

    pub fn pomodoros_completed(&self) -> (r: u32)
        ensures
            r == self@.pomodoros_completed,
    {
        self.pomodoros_completed
    }

    pub fn estimated_pomodoros(&self) -> (r: u32)
        ensures
            r == self@.estimated_pomodoros,
    {
        self.estimated_pomodoros
    }

    pub fn created_at(&self) -> (r: &String)
        ensures
            r@ == self@.created_at,
    {
        &self.created_at
    }
}

/// Writing a task out and reading it back loses no field: the field record
/// of a task holds each of its six fields, and the task read back from that
/// record has the same six fields as the one written.
pub proof fn lemma_task_round_trip(t: TaskModel, f: TaskFields)
    requires
        fields_model(f) == t,
    ensures
        f.0@ == t.id,
        f.1@ == t.title,
        f.2 == t.completed,
        f.3 == t.pomodoros_completed,
        f.4 == t.estimated_pomodoros,
        f.5@ == t.created_at,
{
}

} // verus!
