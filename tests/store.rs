use kanban::tasks::{Board, IndexError, Task, TaskStatus};

fn texts(b: &Board, c: TaskStatus) -> Vec<String> {
    b.texts(c)
}

fn board_of(backlog: &[&str], in_progress: &[&str], done: &[&str]) -> Board {
    let mut b = Board::new();
    for t in backlog {
        b.append(TaskStatus::Backlog, t.to_string());
    }
    for t in in_progress {
        b.append(TaskStatus::InProgress, t.to_string());
    }
    for t in done {
        b.append(TaskStatus::Done, t.to_string());
    }
    b
}

#[test]
fn create_new_task_keeps_text_and_status() {
    let t = Task::create_new_task("Write report".to_string(), TaskStatus::InProgress);
    assert_eq!(t.text, "Write report");
    assert_eq!(t.status, TaskStatus::InProgress);
}

#[test]
fn change_status_keeps_text() {
    let mut t = Task::create_new_task("Write report".to_string(), TaskStatus::Backlog);
    t.change_status(TaskStatus::Done);
    assert_eq!(t.status, TaskStatus::Done);
    assert_eq!(t.text, "Write report");
}

#[test]
fn new_board_is_empty() {
    let b = Board::new();
    assert_eq!(b.len(TaskStatus::Backlog), 0);
    assert_eq!(b.len(TaskStatus::InProgress), 0);
    assert_eq!(b.len(TaskStatus::Done), 0);
}

#[test]
fn append_keeps_insertion_order_and_duplicates() {
    let b = board_of(&["a", "b", "a"], &[], &["a"]);
    assert_eq!(texts(&b, TaskStatus::Backlog), vec!["a", "b", "a"]);
    assert_eq!(texts(&b, TaskStatus::InProgress), Vec::<String>::new());
    assert_eq!(texts(&b, TaskStatus::Done), vec!["a"]);
}

#[test]
fn remove_returns_the_task_and_keeps_order() {
    let mut b = board_of(&["a", "b", "c"], &[], &[]);
    let t = b.remove(TaskStatus::Backlog, 1).unwrap();
    assert_eq!(t.text, "b");
    assert_eq!(t.status, TaskStatus::Backlog);
    assert_eq!(texts(&b, TaskStatus::Backlog), vec!["a", "c"]);
}

#[test]
fn remove_past_the_end_is_an_index_error() {
    let mut b = board_of(&["a"], &[], &[]);
    let e = b.remove(TaskStatus::Backlog, 1).unwrap_err();
    assert_eq!(e, IndexError { index: 1, len: 1 });
    assert_eq!(texts(&b, TaskStatus::Backlog), vec!["a"]);
    let e = b.remove(TaskStatus::Done, 0).unwrap_err();
    assert_eq!(e, IndexError { index: 0, len: 0 });
}

#[test]
fn move_task_appends_to_the_destination() {
    let mut b = board_of(&["a", "b"], &["x"], &[]);
    b.move_task(TaskStatus::Backlog, 0, TaskStatus::InProgress).unwrap();
    assert_eq!(texts(&b, TaskStatus::Backlog), vec!["b"]);
    assert_eq!(texts(&b, TaskStatus::InProgress), vec!["x", "a"]);
    let cols = b.into_columns();
    assert_eq!(cols[1][1].status, TaskStatus::InProgress);
}

#[test]
fn move_task_within_one_column_goes_to_its_end() {
    let mut b = board_of(&[], &[], &["a", "b", "c"]);
    b.move_task(TaskStatus::Done, 0, TaskStatus::Done).unwrap();
    assert_eq!(texts(&b, TaskStatus::Done), vec!["b", "c", "a"]);
}

#[test]
fn move_task_past_the_end_is_an_index_error() {
    let mut b = board_of(&[], &["x"], &[]);
    let e = b.move_task(TaskStatus::InProgress, 3, TaskStatus::Done).unwrap_err();
    assert_eq!(e, IndexError { index: 3, len: 1 });
    assert_eq!(texts(&b, TaskStatus::InProgress), vec!["x"]);
    assert_eq!(b.len(TaskStatus::Done), 0);
}

#[test]
fn save_then_load_gives_the_same_board() {
    let b = board_of(&["A"], &[], &["B"]);
    let saved = b.into_columns();
    assert_eq!(saved.len(), 3);
    assert_eq!(saved[0][0].status, TaskStatus::Backlog);
    assert_eq!(saved[2][0].status, TaskStatus::Done);
    let l = Board::from_columns(Some(saved));
    assert_eq!(texts(&l, TaskStatus::Backlog), vec!["A"]);
    assert_eq!(texts(&l, TaskStatus::InProgress), Vec::<String>::new());
    assert_eq!(texts(&l, TaskStatus::Done), vec!["B"]);
    let again = l.into_columns();
    assert_eq!(again[0][0].status, TaskStatus::Backlog);
    assert_eq!(again[2][0].status, TaskStatus::Done);
}

#[test]
fn load_of_a_missing_document_is_an_empty_board() {
    let b = Board::from_columns(None);
    assert_eq!(b.len(TaskStatus::Backlog), 0);
    assert_eq!(b.len(TaskStatus::InProgress), 0);
    assert_eq!(b.len(TaskStatus::Done), 0);
}

#[test]
fn load_of_fewer_than_three_lists_is_an_empty_board() {
    let cols = vec![
        vec![Task::create_new_task("a".to_string(), TaskStatus::Backlog)],
        vec![],
    ];
    let b = Board::from_columns(Some(cols));
    assert_eq!(b.len(TaskStatus::Backlog), 0);
    assert_eq!(b.len(TaskStatus::InProgress), 0);
    assert_eq!(b.len(TaskStatus::Done), 0);
}

#[test]
fn load_takes_the_first_three_lists_and_retags() {
    let cols = vec![
        vec![Task::create_new_task("a".to_string(), TaskStatus::Done)],
        vec![Task::create_new_task("b".to_string(), TaskStatus::Backlog)],
        vec![],
        vec![Task::create_new_task("z".to_string(), TaskStatus::Done)],
    ];
    let b = Board::from_columns(Some(cols));
    assert_eq!(texts(&b, TaskStatus::Backlog), vec!["a"]);
    assert_eq!(texts(&b, TaskStatus::InProgress), vec!["b"]);
    assert_eq!(texts(&b, TaskStatus::Done), Vec::<String>::new());
    let saved = b.into_columns();
    assert_eq!(saved[0][0].status, TaskStatus::Backlog);
    assert_eq!(saved[1][0].status, TaskStatus::InProgress);
}
