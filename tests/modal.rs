use trackit::modal::{Message, Modal, CYCLES_OUT_OF_RANGE, NAME_REQUIRED, TEXT_REQUIRED};

#[test]
fn default_is_blank() {
    let m = Modal::default();
    assert_eq!(m.task_name, "");
    assert_eq!(m.cycles, 1);
    assert_eq!(m.error_msg, None);
}

#[test]
fn clearing_the_name_shows_an_error() {
    let mut m = Modal::default();
    m.update(Message::TaskNameChanged("x".to_string()));
    assert_eq!(m.error_msg, None);
    m.update(Message::TaskNameChanged(String::new()));
    assert_eq!(m.error_msg.as_deref(), Some(NAME_REQUIRED));
    m.update(Message::TaskNameChanged("y".to_string()));
    assert_eq!(m.error_msg, None);
}

#[test]
fn cycles_change() {
    let mut m = Modal::default();
    m.update(Message::CyclesChanged(7));
    assert_eq!(m.cycles, 7);
    m.update(Message::Cancel);
    assert_eq!(m.cycles, 7);
}

#[test]
fn create_without_name_is_refused() {
    let mut m = Modal::default();
    assert!(m.create_task().is_none());
    assert_eq!(m.error_msg.as_deref(), Some(TEXT_REQUIRED));
}

#[test]
fn create_with_bad_cycles_is_refused() {
    let mut m = Modal::default();
    m.update(Message::TaskNameChanged("Write".to_string()));
    m.update(Message::CyclesChanged(11));
    assert!(m.create_task().is_none());
    assert_eq!(m.error_msg.as_deref(), Some(CYCLES_OUT_OF_RANGE));
    m.update(Message::CyclesChanged(0));
    assert!(m.create_task().is_none());
    assert_eq!(m.task_name, "Write");
}

#[test]
fn create_yields_task_and_resets() {
    let mut m = Modal::default();
    m.update(Message::TaskNameChanged("Write".to_string()));
    m.update(Message::CyclesChanged(10));
    let task = m.create_task().unwrap();
    assert_eq!(task.name, "Write");
    assert_eq!(task.cycles, 10);
    assert_eq!(task.started_at, None);
    assert_eq!(m.task_name, "");
    assert_eq!(m.cycles, 1);
}

#[test]
fn set_error_and_reset() {
    let mut m = Modal::default();
    m.set_error("boom");
    assert_eq!(m.error_msg.as_deref(), Some("boom"));
    m.reset();
    assert_eq!(m.error_msg, None);
}
