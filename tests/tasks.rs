use trackit::task::{Task, Timestamp};
use trackit::tasks::{Card, Cards, DragEvent, DropPosition, Message, TaskError};

fn store(names: &[&str]) -> Cards {
    let mut cards = Cards::new(Vec::new());
    for n in names {
        cards.add_card(Task::new(n.to_string(), 1));
    }
    cards
}

fn names(cards: &Cards) -> Vec<String> {
    cards.elements().iter().map(|c| c.task.name.clone()).collect()
}

fn assert_indexed(cards: &Cards) {
    for (i, c) in cards.elements().iter().enumerate() {
        assert_eq!(c.index, i);
    }
}

fn drop(index: usize, target_index: usize, drop_position: DropPosition) -> DragEvent {
    DragEvent::Dropped { index, target_index, drop_position }
}

#[test]
fn add_appends_with_position() {
    let cards = store(&["A", "B", "C"]);
    assert_eq!(names(&cards), vec!["A", "B", "C"]);
    assert_indexed(&cards);
    assert_eq!(cards.len(), 3);
    assert!(!cards.is_empty());
    assert!(Cards::new(Vec::new()).is_empty());
}

#[test]
fn new_reindexes_given_cards() {
    let cards = Cards::new(vec![
        Card::new(7, Task::new("A".to_string(), 1)),
        Card::new(7, Task::new("B".to_string(), 2)),
    ]);
    assert_indexed(&cards);
    assert!(!cards.get(0).hovered);
    assert_eq!(cards.get(1).task.cycles, 2);
}

#[test]
fn delete_reindexes_remaining_cards() {
    let mut cards = store(&["A", "B", "C", "D"]);
    assert_eq!(cards.delete(1), Ok(()));
    assert_eq!(names(&cards), vec!["A", "C", "D"]);
    assert_indexed(&cards);
    assert_eq!(cards.delete(0), Ok(()));
    assert_eq!(names(&cards), vec!["C", "D"]);
    assert_indexed(&cards);
}

#[test]
fn delete_past_end_is_refused_without_change() {
    let mut cards = store(&["A", "B"]);
    assert_eq!(cards.delete(2), Err(TaskError::IndexOutOfRange));
    assert_eq!(names(&cards), vec!["A", "B"]);
    let mut empty = Cards::new(Vec::new());
    assert_eq!(empty.delete(0), Err(TaskError::IndexOutOfRange));
}

#[test]
fn drop_after_moves_newest_to_front_of_storage() {
    let mut cards = store(&["A", "B", "C"]);
    cards.handle_reorder(drop(0, 2, DropPosition::After));
    assert_eq!(names(&cards), vec!["C", "A", "B"]);
    let display: Vec<String> = names(&cards).into_iter().rev().collect();
    assert_eq!(display, vec!["B", "A", "C"]);
    assert_indexed(&cards);
}

#[test]
fn drop_before_moving_forward_in_storage() {
    let mut cards = store(&["A", "B", "C", "D"]);
    // display [D, C, B, A]: drag A (display 3) onto D (display 0)
    cards.handle_reorder(drop(3, 0, DropPosition::Before));
    assert_eq!(names(&cards), vec!["B", "C", "A", "D"]);
    assert_indexed(&cards);
}

#[test]
fn swap_exchanges_two_cards() {
    let mut cards = store(&["A", "B", "C", "D"]);
    cards.handle_reorder(drop(0, 3, DropPosition::Swap));
    assert_eq!(names(&cards), vec!["D", "B", "C", "A"]);
    assert_indexed(&cards);
    cards.handle_reorder(drop(2, 1, DropPosition::Swap));
    assert_eq!(names(&cards), vec!["D", "C", "B", "A"]);
    assert_indexed(&cards);
}

#[test]
fn drop_on_itself_or_adjacent_is_noop() {
    let mut cards = store(&["A", "B", "C"]);
    for pos in [DropPosition::Before, DropPosition::After] {
        // B is display 1, storage 1; storage 2 is display 0
        cards.handle_reorder(drop(1, 1, pos));
        assert_eq!(names(&cards), vec!["A", "B", "C"]);
        cards.handle_reorder(drop(1, 0, pos));
        assert_eq!(names(&cards), vec!["A", "B", "C"]);
    }
    cards.handle_reorder(drop(2, 2, DropPosition::Swap));
    assert_eq!(names(&cards), vec!["A", "B", "C"]);
    assert_indexed(&cards);
}

#[test]
fn single_card_reorder_is_noop() {
    let mut cards = store(&["A"]);
    for pos in [DropPosition::Before, DropPosition::After, DropPosition::Swap] {
        for (i, t) in [(0, 0), (0, 5), (5, 0), (3, 9)] {
            cards.handle_reorder(drop(i, t, pos));
            assert_eq!(names(&cards), vec!["A"]);
            assert_indexed(&cards);
        }
    }
}

#[test]
fn stale_or_unfinished_drag_is_noop() {
    let mut cards = store(&["A", "B", "C"]);
    cards.handle_reorder(drop(3, 0, DropPosition::After));
    cards.handle_reorder(drop(0, 3, DropPosition::Swap));
    cards.handle_reorder(DragEvent::Picked { index: 0 });
    cards.handle_reorder(DragEvent::Canceled { index: 0 });
    assert_eq!(names(&cards), vec!["A", "B", "C"]);
}

#[test]
fn reorder_keeps_the_same_tasks() {
    let mut cards = store(&["A", "B", "C", "D", "E"]);
    let moves = [(0, 4, DropPosition::Before), (1, 3, DropPosition::After), (2, 0, DropPosition::Swap), (4, 1, DropPosition::After)];
    for (i, t, p) in moves {
        cards.handle_reorder(drop(i, t, p));
        let mut sorted = names(&cards);
        sorted.sort();
        assert_eq!(sorted, vec!["A", "B", "C", "D", "E"]);
        assert_indexed(&cards);
    }
}

#[test]
fn hover_follows_enter_and_exit() {
    let mut cards = store(&["A", "B"]);
    assert_eq!(cards.update(Message::StartHover(1)), Ok(()));
    assert!(cards.get(1).hovered);
    assert!(!cards.get(0).hovered);
    cards.set_hovered(0, true);
    assert_eq!(cards.update(Message::EndHover(1)), Ok(()));
    assert!(!cards.get(1).hovered);
    assert!(cards.get(0).hovered);
}

#[test]
fn start_stamps_the_task() {
    let mut cards = store(&["A", "B"]);
    cards.start_at(1, Timestamp { micros: 42 });
    assert_eq!(cards.get(1).task.started_at, Some(Timestamp { micros: 42 }));
    assert_eq!(cards.get(0).task.started_at, None);
    assert_eq!(cards.update(Message::Start(0)), Ok(()));
    assert!(cards.get(0).task.started_at.is_some());
}

#[test]
fn update_stop_is_unsupported() {
    let mut cards = store(&["A"]);
    assert_eq!(cards.update(Message::Stop), Err(TaskError::Unsupported));
    assert_eq!(names(&cards), vec!["A"]);
}

#[test]
fn update_delete_and_reorder() {
    let mut cards = store(&["A", "B", "C"]);
    assert_eq!(cards.update(Message::Reorder(drop(0, 2, DropPosition::After))), Ok(()));
    assert_eq!(names(&cards), vec!["C", "A", "B"]);
    assert_eq!(cards.update(Message::Delete(0)), Ok(()));
    assert_eq!(names(&cards), vec!["A", "B"]);
    assert_indexed(&cards);
    assert_eq!(cards.update(Message::Delete(9)), Err(TaskError::IndexOutOfRange));
}

#[test]
fn mut_elements_changes_the_store() {
    let mut cards = store(&["A", "B"]);
    cards.mut_elements().pop();
    assert_eq!(names(&cards), vec!["A"]);
}

#[test]
fn default_store_is_empty() {
    let cards = Cards::default();
    assert!(cards.is_empty());
    assert_eq!(cards.len(), 0);
}
