use vstd::prelude::*;
use vstd::seq_lib::*;

use crate::task::{now, Task, TaskView, Timestamp};

verus! {

/// Where a dragged card is dropped relative to the card under it.
#[derive(Clone, Copy, Debug, PartialEq, Eq, Structural)]
pub enum DropPosition {
    Before,
    After,
    Swap,
}

/// The progress of a drag gesture over the displayed list. Indices are
/// display indices: the list is shown newest first.
#[derive(Clone, Copy, Debug, PartialEq, Eq, Structural)]
pub enum DragEvent {
    Picked { index: usize },
    Dropped { index: usize, target_index: usize, drop_position: DropPosition },
    Canceled { index: usize },
}

/// An input event for the task list. Indices are storage indices.
#[derive(Clone, Copy, Debug, PartialEq, Eq, Structural)]
pub enum Message {
    Start(usize),
    Delete(usize),
    Stop,
    StartHover(usize),
    EndHover(usize),
    Reorder(DragEvent),
}

/// Why a task-list operation was refused.
#[derive(Clone, Copy, Debug, PartialEq, Eq, Structural)]
pub enum TaskError {
    /// No card stands at the given index.
    IndexOutOfRange,
    /// The operation is not supported.
    Unsupported,
}

/// A task as shown in the list: the task, its storage index and whether the
/// pointer is over it.
#[derive(Debug)]
pub struct Card {
    pub task: Task,
    pub index: usize,
    pub hovered: bool,
}

/// `c` with its index set to `i`.
pub open spec fn with_index(c: Card, i: int) -> Card {
    Card { task: c.task, index: i as usize, hovered: c.hovered }
}

/// `c` with its hover flag set to `h`.
pub open spec fn with_hover(c: Card, h: bool) -> Card {
    Card { task: c.task, index: c.index, hovered: h }
}

/// `c` with its task started at `at`.
pub open spec fn started(c: Card, at: Timestamp) -> Card {
    Card {
        task: Task { name: c.task.name, cycles: c.task.cycles, started_at: Some(at) },
        index: c.index,
        hovered: c.hovered,
    }
}

/// Every card knows its own storage index.
pub open spec fn well_indexed(s: Seq<Card>) -> bool {
    forall|i: int| 0 <= i < s.len() ==> #[trigger] s[i].index == i
}

/// The cards of `s`, in the same order, each given its storage index.
pub open spec fn reindexed(s: Seq<Card>) -> Seq<Card> {
    Seq::new(s.len(), |i: int| with_index(s[i], i))
}

/// The tasks of `s`, in storage order.
pub open spec fn tasks_of(s: Seq<Card>) -> Seq<TaskView> {
    s.map_values(|c: Card| c.task@)
}

/// The storage index of display index `d` in a list of `len` cards: the list
/// is displayed in reverse.
pub open spec fn display_to_storage(len: int, d: int) -> int {
    len - 1 - d
}

/// `s` after the card at display index `source` is dropped on the card at
/// display index `target`.
pub open spec fn reordered<A>(s: Seq<A>, source: int, target: int, pos: DropPosition) -> Seq<A> {
    let len = s.len() as int;
    if len <= 1 || source < 0 || target < 0 || source >= len || target >= len {
        s
    } else {
        let src = display_to_storage(len, source);
        let tgt = display_to_storage(len, target);
        match pos {
            DropPosition::Swap => {
                if tgt == src {
                    s
                } else {
                    s.update(src, s[tgt]).update(tgt, s[src])
                }
            },
            _ => {
                if tgt == src || tgt == src + 1 {
                    s
                } else {
                    let at = if src < tgt {
                        tgt - 1
                    } else {
                        tgt
                    };
                    s.remove(src).insert(at, s[src])
                }
            },
        }
    }
}

/// `s` after the drag event `e`: only a drop moves anything.
pub open spec fn drag_outcome<A>(s: Seq<A>, e: DragEvent) -> Seq<A> {
    match e {
        DragEvent::Dropped { index, target_index, drop_position } => reordered(
            s,
            index as int,
            target_index as int,
            drop_position,
        ),
        _ => s,
    }
}

/// The message names a card that exists, where it must.
pub open spec fn accepts(len: nat, msg: Message) -> bool {
    match msg {
        Message::Start(i) => i < len,
        Message::StartHover(i) => i < len,
        Message::EndHover(i) => i < len,
        _ => true,
    }
}

/// What handling `msg` on `len` cards reports.
pub open spec fn update_result(len: nat, msg: Message) -> Result<(), TaskError> {
    match msg {
        Message::Delete(i) => if i < len {
            Ok(())
        } else {
            Err(TaskError::IndexOutOfRange)
        },
        Message::Stop => Err(TaskError::Unsupported),
        _ => Ok(()),
    }
}

/// The cards after `msg` is handled, a start being stamped `at`.
pub open spec fn updated(s: Seq<Card>, msg: Message, at: Timestamp) -> Seq<Card> {
    match msg {
        Message::Start(i) => s.update(i as int, started(s[i as int], at)),
        Message::Delete(i) => if i < s.len() {
            reindexed(s.remove(i as int))
        } else {
            s
        },
        Message::Stop => s,
        Message::StartHover(i) => s.update(i as int, with_hover(s[i as int], true)),
        Message::EndHover(i) => s.update(i as int, with_hover(s[i as int], false)),
        Message::Reorder(e) => reindexed(drag_outcome(s, e)),
    }
}

impl Card {
    /// A card for `task` at storage index `index`, not hovered.
    pub fn new(index: usize, task: Task) -> (r: Card)
        ensures
            r == (Card { task, index, hovered: false }),
    {
        Card { task, index, hovered: false }
    }

    fn update(&mut self, msg: Message)
        ensures
            *final(self) == (match msg {
                Message::StartHover(_) => with_hover(*old(self), true),
                Message::EndHover(_) => with_hover(*old(self), false),
                _ => *old(self),
            }),
    {
        match msg {
            Message::StartHover(_) => self.hovered = true,
            Message::EndHover(_) => self.hovered = false,
            _ => {},
        }
    }

    fn set_index(&mut self, new_index: usize)
        ensures
            *final(self) == with_index(*old(self), new_index as int),
    {
        self.index = new_index
    }
}

/// The ordered task list, oldest task first (storage order).
pub struct Cards {
    elements: Vec<Card>,
}

impl View for Cards {
    type V = Seq<Card>;

    closed spec fn view(&self) -> Seq<Card> {
        self.elements@
    }
}

impl Default for Cards {
    fn default() -> (r: Cards)
        ensures
            r@ == Seq::<Card>::empty(),
    {
        Cards { elements: Vec::new() }
    }
}

impl Cards {
    /// Every card knows its own storage index.
    pub open spec fn wf(&self) -> bool {
        well_indexed(self@)
    }

    fn resequence(&mut self)
        ensures
            final(self)@ == reindexed(old(self)@),
    {
        let n = self.elements.len();
        let mut i: usize = 0;
        while i < n
            invariant
                n == old(self)@.len(),
                self.elements@.len() == n,
                i <= n,
                forall|j: int| 0 <= j < i ==> #[trigger] self.elements@[j] == with_index(old(self)@[j], j),
                forall|j: int| i <= j < n ==> #[trigger] self.elements@[j] == old(self)@[j],
            decreases n - i,
        {
            self.elements[i].set_index(i);
            i = i + 1;
        }
        assert(self.elements@ =~= reindexed(old(self)@));
    }

    /// A list of the given cards, in the given order, each given its storage
    /// index.
    pub fn new(cards: Vec<Card>) -> (r: Cards)
        ensures
            r@ == reindexed(cards@),
            r.wf(),
    {
        let n = cards.len();
        let mut r = Cards { elements: cards };
        r.resequence();
        proof {
            lemma_reindexed_well_indexed(cards@);
        }
        r
    }

    /// The cards, in storage order.
    pub fn elements(&self) -> (r: &Vec<Card>)
        ensures
            r@ == self@,
    {
        &self.elements
    }

    /// The cards, in storage order, for the caller to change.
    pub fn mut_elements(&mut self) -> (r: &mut Vec<Card>)
        ensures
            r@ == old(self)@,
            final(self)@ == final(r)@,
    {
        &mut self.elements
    }

    /// Number of cards.
    pub fn len(&self) -> (r: usize)
        ensures
            r == self@.len(),
    {
        self.elements.len()
    }

    /// Whether there is no card.
    pub fn is_empty(&self) -> (r: bool)
        ensures
            r == (self@.len() == 0),
    {
        self.elements.len() == 0
    }

    /// The card at storage index `index`.
    pub fn get(&self, index: usize) -> (r: &Card)
        requires
            index < self@.len(),
        ensures
            *r == self@[index as int],
    {
        &self.elements[index]
    }

    /// Appends a card for `task`, indexed by its position.
    pub fn add_card(&mut self, task: Task)
        requires
            old(self)@.len() < usize::MAX,
        ensures
            final(self)@ == old(self)@.push(Card { task, index: old(self)@.len() as usize, hovered: false }),
            old(self).wf() ==> final(self).wf(),
    {
        let index = self.elements.len();
        self.elements.push(Card::new(index, task));
    }

    /// Removes the card at storage index `index` and gives every remaining
    /// card its new index; refused, with nothing changed, past the end.
    pub fn delete(&mut self, index: usize) -> (r: Result<(), TaskError>)
        ensures
            r == update_result(old(self)@.len(), Message::Delete(index)),
            final(self)@ == (if index < old(self)@.len() {
                reindexed(old(self)@.remove(index as int))
            } else {
                old(self)@
            }),
            r is Ok ==> final(self).wf(),
            r is Err ==> final(self)@ == old(self)@,
    {
        if index >= self.elements.len() {
            return Err(TaskError::IndexOutOfRange);
        }
        self.elements.remove(index);
        self.resequence();
        proof {
            lemma_reindexed_well_indexed(old(self)@.remove(index as int));
        }
        Ok(())
    }

    /// Stamps the task at storage index `index` as started at `at`.
    pub fn start_at(&mut self, index: usize, at: Timestamp)
        requires
            index < old(self)@.len(),
        ensures
            final(self)@ == old(self)@.update(index as int, started(old(self)@[index as int], at)),
    {
        self.elements[index].task.started_at = Some(at);
    }

    /// Stamps the task at storage index `index` as started now.
    pub fn start(&mut self, index: usize)
        requires
            index < old(self)@.len(),
        ensures
            exists|at: Timestamp|
                final(self)@ == old(self)@.update(index as int, started(old(self)@[index as int], at)),
    {
        let at = now();
        self.start_at(index, at);
    }

    /// Records whether the pointer is over the card at storage index `index`.
    pub fn set_hovered(&mut self, index: usize, hovered: bool)
        requires
            index < old(self)@.len(),
        ensures
            final(self)@ == old(self)@.update(index as int, with_hover(old(self)@[index as int], hovered)),
    {
        let msg = if hovered {
            Message::StartHover(index)
        } else {
            Message::EndHover(index)
        };
        self.elements[index].update(msg);
    }

    /// Moves cards as a finished drag gesture asks, then gives every card its
    /// index. Every other drag event, and every drop that names no two distinct
    /// cards, leaves the order as it is.
    pub fn handle_reorder(&mut self, event: DragEvent)
        ensures
            final(self)@ == reindexed(drag_outcome(old(self)@, event)),
    {
        if let DragEvent::Dropped { index, target_index, drop_position } = event {
            let len = self.elements.len();
            if len > 1 && index < len && target_index < len {
                let source = len - 1 - index;
                let target = len - 1 - target_index;
                match drop_position {
                    DropPosition::Swap => {
                        if target != source {
                            self.swap_cards(source, target);
                        }
                    },
                    _ => {
                        if target != source && target != source + 1 {
                            let item = self.elements.remove(source);
                            let insert_at = if source < target {
                                target - 1
                            } else {
                                target
                            };
                            self.elements.insert(insert_at, item);
                        }
                    },
                }
            }
        }
        self.resequence();
    }

    fn swap_cards(&mut self, a: usize, b: usize)
        requires
            a < old(self)@.len(),
            b < old(self)@.len(),
            a != b,
        ensures
            final(self)@ == old(self)@.update(a as int, old(self)@[b as int]).update(
                b as int,
                old(self)@[a as int],
            ),
    {
        let (lo, hi) = if a < b {
            (a, b)
        } else {
            (b, a)
        };
        let upper = self.elements.remove(hi);
        let lower = self.elements.remove(lo);
        self.elements.insert(lo, upper);
        self.elements.insert(hi, lower);
        assert(self.elements@ =~= old(self)@.update(a as int, old(self)@[b as int]).update(
            b as int,
            old(self)@[a as int],
        ));
    }

    /// Handles `msg`, a start being stamped with the current time.
    pub fn update(&mut self, msg: Message) -> (r: Result<(), TaskError>)
        requires
            accepts(old(self)@.len(), msg),
        ensures
            r == update_result(old(self)@.len(), msg),
            exists|at: Timestamp| final(self)@ == updated(old(self)@, msg, at),
    {
        let ghost mut at = Timestamp { micros: 0 };
        let r = match msg {
            Message::Start(index) => {
                self.start(index);
                proof {
                    at = choose|at: Timestamp|
                        self@ == old(self)@.update(
                            index as int,
                            started(old(self)@[index as int], at),
                        );
                }
                Ok(())
            },
            Message::Delete(index) => self.delete(index),
            Message::Stop => Err(TaskError::Unsupported),
            Message::StartHover(index) => {
                self.set_hovered(index, true);
                Ok(())
            },
            Message::EndHover(index) => {
                self.set_hovered(index, false);
                Ok(())
            },
            Message::Reorder(event) => {
                self.handle_reorder(event);
                Ok(())
            },
        };
        assert(self@ == updated(old(self)@, msg, at));
        r
    }
}

/// A reindexed list is well indexed.
pub proof fn lemma_reindexed_well_indexed(s: Seq<Card>)
    requires
        s.len() <= usize::MAX,
    ensures
        well_indexed(reindexed(s)),
{
}

/// Giving every card its index leaves a well-indexed list as it is.
pub proof fn lemma_reindexed_identity(s: Seq<Card>)
    requires
        well_indexed(s),
    ensures
        reindexed(s) == s,
{
    assert forall|i: int| 0 <= i < s.len() implies #[trigger] reindexed(s)[i] == s[i] by {
        assert(s[i].index == i);
    }
    assert(reindexed(s) =~= s);
}

/// Giving every card its index changes no task.
pub proof fn lemma_reindexed_tasks(s: Seq<Card>)
    ensures
        tasks_of(reindexed(s)) == tasks_of(s),
{
    assert(tasks_of(reindexed(s)) =~= tasks_of(s));
}

/// A drag event only permutes a sequence: no item is added or lost.
pub proof fn lemma_drag_outcome_permutes<A>(s: Seq<A>, e: DragEvent)
    ensures
        drag_outcome(s, e).len() == s.len(),
        drag_outcome(s, e).to_multiset() == s.to_multiset(),
{
    broadcast use {to_multiset_remove, to_multiset_insert, to_multiset_update};
    broadcast use vstd::multiset::group_multiset_axioms;

    if let DragEvent::Dropped { index, target_index, drop_position } = e {
        let len = s.len() as int;
        if !(len <= 1 || index >= len || target_index >= len) {
            let src = display_to_storage(len, index as int);
            let tgt = display_to_storage(len, target_index as int);
            match drop_position {
                DropPosition::Swap => {
                    if tgt != src {
                        let s1 = s.update(src, s[tgt]);
                        to_multiset_update(s, src, s[tgt]);
                        to_multiset_update(s1, tgt, s[src]);
                        to_multiset_contains(s, s[src]);
                        to_multiset_contains(s, s[tgt]);
                        assert(s1.update(tgt, s[src]).to_multiset() =~= s.to_multiset());
                    }
                },
                _ => {
                    if tgt != src && tgt != src + 1 {
                        let at = if src < tgt {
                            tgt - 1
                        } else {
                            tgt
                        };
                        to_multiset_remove(s, src);
                        to_multiset_insert(s.remove(src), at, s[src]);
                        to_multiset_contains(s, s[src]);
                        assert(s.remove(src).insert(at, s[src]).to_multiset() =~= s.to_multiset());
                    }
                },
            }
        }
    }
}

/// Reordering keeps every task and adds none; the list keeps its length.
pub proof fn lemma_reorder_keeps_tasks(s: Seq<Card>, e: DragEvent)
    ensures
        reindexed(drag_outcome(s, e)).len() == s.len(),
        tasks_of(reindexed(drag_outcome(s, e))).to_multiset() == tasks_of(s).to_multiset(),
{
    lemma_drag_outcome_permutes(s, e);
    lemma_reindexed_tasks(drag_outcome(s, e));
    lemma_tasks_of_drag_outcome(s, e);
    lemma_drag_outcome_permutes(tasks_of(s), e);
}

/// Listing the tasks commutes with a drag event.
pub proof fn lemma_tasks_of_drag_outcome(s: Seq<Card>, e: DragEvent)
    ensures
        tasks_of(drag_outcome(s, e)) == drag_outcome(tasks_of(s), e),
{
    if let DragEvent::Dropped { index, target_index, drop_position } = e {
        let len = s.len() as int;
        if !(len <= 1 || index >= len || target_index >= len) {
            let src = display_to_storage(len, index as int);
            let tgt = display_to_storage(len, target_index as int);
            match drop_position {
                DropPosition::Swap => {
                    assert(tasks_of(drag_outcome(s, e)) =~= drag_outcome(tasks_of(s), e));
                },
                _ => {
                    if tgt != src && tgt != src + 1 {
                        let at = if src < tgt {
                            tgt - 1
                        } else {
                            tgt
                        };
                        assert(tasks_of(s.remove(src).insert(at, s[src])) =~= tasks_of(s).remove(
                            src,
                        ).insert(at, tasks_of(s)[src]));
                    }
                },
            }
        }
    }
}

/// Appending a card appends its task and keeps every card indexed.
pub proof fn lemma_add_keeps_tasks(s: Seq<Card>, t: Task)
    requires
        s.len() < usize::MAX,
    ensures
        tasks_of(s.push(Card { task: t, index: s.len() as usize, hovered: false })) == tasks_of(
            s,
        ).push(t@),
        well_indexed(s) ==> well_indexed(
            s.push(Card { task: t, index: s.len() as usize, hovered: false }),
        ),
{
    assert(tasks_of(s.push(Card { task: t, index: s.len() as usize, hovered: false }))
        =~= tasks_of(s).push(t@));
}

/// Deleting a card removes exactly its task and keeps every card indexed.
pub proof fn lemma_delete_keeps_tasks(s: Seq<Card>, i: int)
    requires
        0 <= i < s.len(),
        s.len() <= usize::MAX,
    ensures
        tasks_of(reindexed(s.remove(i))) == tasks_of(s).remove(i),
        well_indexed(reindexed(s.remove(i))),
{
    lemma_reindexed_tasks(s.remove(i));
    assert(tasks_of(s.remove(i)) =~= tasks_of(s).remove(i));
    lemma_reindexed_well_indexed(s.remove(i));
}

/// Dropping a card before or after itself, or just where it already stands,
/// and swapping a card with itself, leave a well-indexed list unchanged.
pub proof fn lemma_reorder_noop_guards(s: Seq<Card>, source: usize, target: usize, pos: DropPosition)
    requires
        well_indexed(s),
        source < s.len(),
        target < s.len(),
        ({
            let src = display_to_storage(s.len() as int, source as int);
            let tgt = display_to_storage(s.len() as int, target as int);
            match pos {
                DropPosition::Swap => tgt == src,
                _ => tgt == src || tgt == src + 1,
            }
        }),
    ensures
        reindexed(
            drag_outcome(s, DragEvent::Dropped { index: source, target_index: target, drop_position: pos }),
        ) == s,
{
    lemma_reindexed_identity(s);
}

/// On a list of at most one card, every drag event leaves the list unchanged.
pub proof fn lemma_single_card_reorder_noop(s: Seq<Card>, e: DragEvent)
    requires
        well_indexed(s),
        s.len() <= 1,
    ensures
        reindexed(drag_outcome(s, e)) == s,
{
    lemma_reindexed_identity(s);
}

} // verus!
