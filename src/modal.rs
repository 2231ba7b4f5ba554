use vstd::prelude::*;
use vstd::string::*;

use crate::task::Task;

verus! {

/// Shown when the name field is cleared.
pub const NAME_REQUIRED: &'static str = "You must provide a name for the task";

/// Shown when a task is submitted without a name.
pub const TEXT_REQUIRED: &'static str = "You must provide a text for the task";

/// Shown when a task is submitted with a cycle count outside the allowed range.
pub const CYCLES_OUT_OF_RANGE: &'static str = "The cycle count must be between 1 and 10";

/// Fewest cycles a task may have.
pub const MIN_CYCLES: u8 = 1;

/// Most cycles a task may have.
pub const MAX_CYCLES: u8 = 10;

/// An input event for the task-creation form.
#[derive(Clone, Debug)]
pub enum Message {
    /// The name field now holds this text.
    TaskNameChanged(String),
    /// The cycle count field now holds this value.
    CyclesChanged(u8),
    Cancel,
    CreateNewTask,
}

/// The state of the task-creation form.
#[derive(Debug)]
pub struct Modal {
    pub task_name: String,
    pub cycles: u8,
    pub error_msg: Option<String>,
}

/// `m` is the blank form: no name, one cycle, no error.
pub open spec fn is_blank(m: Modal) -> bool {
    &&& m.task_name@ == Seq::<char>::empty()
    &&& m.cycles == MIN_CYCLES
    &&& m.error_msg is None
}

/// `m` shows the error text `e`.
pub open spec fn shows_error(m: Modal, e: Seq<char>) -> bool {
    m.error_msg is Some && m.error_msg->0@ == e
}

impl Default for Modal {
    fn default() -> (r: Modal)
        ensures
            is_blank(r),
    {
        Modal { cycles: MIN_CYCLES, task_name: String::new(), error_msg: None }
    }
}

impl Modal {
    /// Handles an edit of the form. Cancelling and submitting are left to the
    /// owner of the form.
    pub fn update(&mut self, msg: Message)
        ensures
            match msg {
                Message::TaskNameChanged(name) => {
                    &&& final(self).task_name == name
                    &&& final(self).cycles == old(self).cycles
                    &&& if name@.len() == 0 {
                        shows_error(*final(self), NAME_REQUIRED@)
                    } else {
                        final(self).error_msg is None
                    }
                },
                Message::CyclesChanged(c) => {
                    &&& final(self).task_name == old(self).task_name
                    &&& final(self).cycles == c
                    &&& final(self).error_msg == old(self).error_msg
                },
                _ => *final(self) == *old(self),
            },
    {
        match msg {
            Message::TaskNameChanged(name) => {
                self.task_name = name;
                if self.task_name.as_str().is_empty() {
                    self.set_error(NAME_REQUIRED)
                } else {
                    self.error_msg = None
                }
            },
            Message::CyclesChanged(cycles) => self.cycles = cycles,
            Message::Cancel | Message::CreateNewTask => {},
        }
    }

    /// Puts the form back to blank.
    pub fn reset(&mut self)
        ensures
            is_blank(*final(self)),
    {
        *self = Self::default()
    }

    /// Shows `error` on the form.
    pub fn set_error(&mut self, error: &str)
        ensures
            final(self).task_name == old(self).task_name,
            final(self).cycles == old(self).cycles,
            shows_error(*final(self), error@),
    {
        self.error_msg = Some(String::from_str(error))
    }

    /// Submits the form. A nameless form, or one whose cycle count lies
    /// outside `MIN_CYCLES..=MAX_CYCLES`, yields no task and shows why; any
    /// other yields the task it describes, not yet started, and is blanked.
    pub fn create_task(&mut self) -> (r: Option<Task>)
        ensures
            old(self).task_name@.len() == 0 ==> {
                &&& r is None
                &&& final(self).task_name == old(self).task_name
                &&& final(self).cycles == old(self).cycles
                &&& shows_error(*final(self), TEXT_REQUIRED@)
            },
            old(self).task_name@.len() != 0 && !(MIN_CYCLES <= old(self).cycles <= MAX_CYCLES) ==> {
                &&& r is None
                &&& final(self).task_name == old(self).task_name
                &&& final(self).cycles == old(self).cycles
                &&& shows_error(*final(self), CYCLES_OUT_OF_RANGE@)
            },
            old(self).task_name@.len() != 0 && MIN_CYCLES <= old(self).cycles <= MAX_CYCLES ==> {
                &&& r is Some
                &&& r->0.name == old(self).task_name
                &&& r->0.cycles == old(self).cycles
                &&& r->0.started_at is None
                &&& is_blank(*final(self))
            },
    {
        if self.task_name.as_str().is_empty() {
            self.set_error(TEXT_REQUIRED);
            return None;
        }
        if self.cycles < MIN_CYCLES || self.cycles > MAX_CYCLES {
            self.set_error(CYCLES_OUT_OF_RANGE);
            return None;
        }
        let task = Task::new(self.task_name.clone(), self.cycles);
        self.reset();
        Some(task)
    }
}

} // verus!
