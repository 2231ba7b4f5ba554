use vstd::prelude::*;

verus! {

/// A point in time, in microseconds since the Unix epoch.
#[derive(Clone, Copy, Debug, PartialEq, Eq, Structural)]
pub struct Timestamp {
    pub micros: i64,
}

/// Relies on `chrono::Local::now` and `DateTime::timestamp_micros`: the current
/// wall-clock time. Nothing is promised of the value.
#[verifier::external_body]
pub(crate) fn now() -> (r: Timestamp) {
    Timestamp { micros: chrono::Local::now().timestamp_micros() }
}

/// What a task is made of, as compared by `==`.
pub struct TaskView {
    pub name: Seq<char>,
    pub cycles: u8,
    pub started_at: Option<Timestamp>,
}

/// A unit of work: a name, how many work cycles it takes, and when it was
/// last started.
#[derive(Clone, Debug)]
pub struct Task {
    pub name: String,
    pub cycles: u8,
    pub started_at: Option<Timestamp>,
}

impl View for Task {
    type V = TaskView;

    open spec fn view(&self) -> TaskView {
        TaskView { name: self.name@, cycles: self.cycles, started_at: self.started_at }
    }
}

impl PartialEq for Task {
    fn eq(&self, other: &Task) -> (r: bool) {
        let same_start = match (self.started_at, other.started_at) {
            (Some(a), Some(b)) => a.micros == b.micros,
            (None, None) => true,
            _ => false,
        };
        self.cycles == other.cycles && same_start && self.name == other.name
    }
}

impl vstd::std_specs::cmp::PartialEqSpecImpl for Task {
    open spec fn obeys_eq_spec() -> bool {
        true
    }

    open spec fn eq_spec(&self, other: &Task) -> bool {
        self@ == other@
    }
}

impl Task {
    /// A task that has never been started.
    pub fn new(name: String, cycles: u8) -> (r: Task)
        requires
            cycles >= 1,
        ensures
            r.name == name,
            r.cycles == cycles,
            r.started_at is None,
    {
        Task { name, cycles, started_at: None }
    }

    /// A copy of the task, equal to it field by field.
    pub fn duplicate(&self) -> (r: Task)
        ensures
            r == *self,
    {
        Task { name: self.name.clone(), cycles: self.cycles, started_at: self.started_at }
    }
}

} // verus!
