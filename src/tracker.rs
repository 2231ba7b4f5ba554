use vstd::prelude::*;

use crate::task::{now, Task, Timestamp};
use crate::tasks::{
    accepts, reindexed, started, update_result, updated, Card, Cards, Message, TaskError,
};

verus! {

/// `active` holds a task equal, field by field, to `t`.
pub open spec fn is_active(active: Option<Task>, t: Task) -> bool {
    active is Some && active->0@ == t@
}

/// The cards and the active task after the task at storage index `i` is
/// started at `at`: nothing changes when that task is already the active one;
/// otherwise it is stamped and becomes the active task.
pub open spec fn start_outcome(s: Seq<Card>, active: Option<Task>, i: int, at: Timestamp) -> (
    Seq<Card>,
    Option<Task>,
) {
    if is_active(active, s[i].task) {
        (s, active)
    } else {
        (s.update(i, started(s[i], at)), Some(started(s[i], at).task))
    }
}

/// The active task after the card at storage index `i` is deleted from `s`:
/// cleared when it is the deleted card's task.
pub open spec fn active_after_delete(s: Seq<Card>, active: Option<Task>, i: int) -> Option<Task> {
    if 0 <= i < s.len() && is_active(active, s[i].task) {
        None
    } else {
        active
    }
}

/// The cards and the active task after `msg` is handled, a start being
/// stamped `at`.
pub open spec fn tracker_outcome(s: Seq<Card>, active: Option<Task>, msg: Message, at: Timestamp) -> (
    Seq<Card>,
    Option<Task>,
) {
    match msg {
        Message::Start(i) => start_outcome(s, active, i as int, at),
        Message::Delete(i) => (updated(s, msg, at), active_after_delete(s, active, i as int)),
        _ => (updated(s, msg, at), active),
    }
}

/// The task list together with the one task, if any, that is running.
pub struct Tracker {
    pub cards: Cards,
    pub started_task: Option<Task>,
}

impl Tracker {
    /// No task, none running.
    pub fn new() -> (r: Tracker)
        ensures
            r.cards@ == Seq::<Card>::empty(),
            r.cards.wf(),
            r.started_task is None,
    {
        Tracker { cards: Cards::new(Vec::new()), started_task: None }
    }

    /// The running task, if any.
    pub fn started_task(&self) -> (r: &Option<Task>)
        ensures
            *r == self.started_task,
    {
        &self.started_task
    }

    /// Appends `task` to the list.
    pub fn add_task(&mut self, task: Task)
        requires
            old(self).cards@.len() < usize::MAX,
        ensures
            final(self).cards@ == old(self).cards@.push(
                Card { task, index: old(self).cards@.len() as usize, hovered: false },
            ),
            final(self).started_task == old(self).started_task,
            old(self).cards.wf() ==> final(self).cards.wf(),
    {
        self.cards.add_card(task);
    }

    /// Starts the task at storage index `index`, stamped `at`, unless it is
    /// already the running task.
    pub fn start_task_at(&mut self, index: usize, at: Timestamp)
        requires
            index < old(self).cards@.len(),
        ensures
            (final(self).cards@, final(self).started_task) == start_outcome(
                old(self).cards@,
                old(self).started_task,
                index as int,
                at,
            ),
    {
        let already = match &self.started_task {
            Some(active) => *active == self.cards.get(index).task,
            None => false,
        };
        if !already {
            self.cards.start_at(index, at);
            self.started_task = Some(self.cards.get(index).task.duplicate());
        }
    }

    /// Starts the task at storage index `index` now, unless it is already the
    /// running task.
    pub fn start_task(&mut self, index: usize)
        requires
            index < old(self).cards@.len(),
        ensures
            exists|at: Timestamp|
                (final(self).cards@, final(self).started_task) == start_outcome(
                    old(self).cards@,
                    old(self).started_task,
                    index as int,
                    at,
                ),
    {
        let at = now();
        self.start_task_at(index, at);
    }

    /// Deletes the card at storage index `index`; the running task stops
    /// being tracked when it is the deleted card's task. Refused, with nothing
    /// changed, past the end of the list.
    pub fn remove_task(&mut self, index: usize) -> (r: Result<(), TaskError>)
        ensures
            r == update_result(old(self).cards@.len(), Message::Delete(index)),
            final(self).cards@ == (if index < old(self).cards@.len() {
                reindexed(old(self).cards@.remove(index as int))
            } else {
                old(self).cards@
            }),
            final(self).started_task == active_after_delete(
                old(self).cards@,
                old(self).started_task,
                index as int,
            ),
            r is Ok ==> final(self).cards.wf(),
    {
        if index < self.cards.len() {
            let clear = match &self.started_task {
                Some(active) => *active == self.cards.get(index).task,
                None => false,
            };
            if clear {
                self.started_task = None;
            }
        }
        self.cards.delete(index)
    }

    /// Handles `msg`: starts and deletions go through the running-task
    /// bookkeeping, everything else straight to the list.
    pub fn update(&mut self, msg: Message) -> (r: Result<(), TaskError>)
        requires
            accepts(old(self).cards@.len(), msg),
        ensures
            r == update_result(old(self).cards@.len(), msg),
            exists|at: Timestamp|
                (final(self).cards@, final(self).started_task) == tracker_outcome(
                    old(self).cards@,
                    old(self).started_task,
                    msg,
                    at,
                ),
    {
        let ghost mut at = Timestamp { micros: 0 };
        let r = match msg {
            Message::Start(index) => {
                self.start_task(index);
                proof {
                    at = choose|at: Timestamp|
                        (self.cards@, self.started_task) == start_outcome(
                            old(self).cards@,
                            old(self).started_task,
                            index as int,
                            at,
                        );
                }
                Ok(())
            },
            Message::Delete(index) => self.remove_task(index),
            Message::Stop => self.stop_task(),
            _ => {
                let r = self.cards.update(msg);
                proof {
                    at = choose|at: Timestamp| self.cards@ == updated(old(self).cards@, msg, at);
                }
                r
            },
        };
        assert((self.cards@, self.started_task) == tracker_outcome(
            old(self).cards@,
            old(self).started_task,
            msg,
            at,
        ));
        r
    }

    /// Stopping a running task is not supported: always refused, nothing
    /// changed.
    pub fn stop_task(&self) -> (r: Result<(), TaskError>)
        ensures
            r == Err::<(), TaskError>(TaskError::Unsupported),
    {
        Err(TaskError::Unsupported)
    }
}

/// Starting the same task twice leaves what starting it once left: the
/// second start keeps the first start's time.
pub proof fn lemma_start_idempotent(
    s: Seq<Card>,
    active: Option<Task>,
    i: int,
    first: Timestamp,
    second: Timestamp,
)
    requires
        0 <= i < s.len(),
    ensures
        start_outcome(
            start_outcome(s, active, i, first).0,
            start_outcome(s, active, i, first).1,
            i,
            second,
        ) == start_outcome(s, active, i, first),
{
}

/// Deleting the card whose task is running leaves no running task.
pub proof fn lemma_delete_clears_active(s: Seq<Card>, active: Option<Task>, i: int)
    requires
        0 <= i < s.len(),
        is_active(active, s[i].task),
    ensures
        active_after_delete(s, active, i) is None,
{
}

} // verus!
