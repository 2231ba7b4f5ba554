//! Task-list state engine of a pomodoro timer: the ordered task store with its
//! drag-and-drop reordering, the single active task, the cycle duration
//! formatter and the state of the task-creation form.

pub mod duration;
pub mod modal;
pub mod progress;
pub mod task;
pub mod tasks;
pub mod tracker;
