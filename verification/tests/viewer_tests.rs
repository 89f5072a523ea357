use todo_list::report::{Channel, Operation};
use todo_list::viewer::{Action, Choice, Viewer};

#[test]
fn new_viewer_is_empty() {
    let viewer = Viewer::new();
    assert_eq!(viewer.plain(), "List: ");
    assert_eq!(viewer.list(), "List: ");
    assert_eq!(viewer.path(), "");
}

#[test]
fn menu_entries_in_order() {
    let items = Viewer::menu();
    assert_eq!(items.len(), 5);
    assert_eq!(items[0], "add");
    assert_eq!(items[1], "done");
    assert_eq!(items[2], "list");
    assert_eq!(items[3], "clear");
    assert!(items[4].contains("quit"));
}

#[test]
fn choice_by_place() {
    assert_eq!(Viewer::choice(Some(0)), Choice::Add);
    assert_eq!(Viewer::choice(Some(1)), Choice::Done);
    assert_eq!(Viewer::choice(Some(2)), Choice::List);
    assert_eq!(Viewer::choice(Some(3)), Choice::Clear);
    assert_eq!(Viewer::choice(Some(4)), Choice::Quit);
    assert_eq!(Viewer::choice(Some(5)), Choice::Quit);
    assert_eq!(Viewer::choice(Some(usize::MAX)), Choice::Quit);
    assert_eq!(Viewer::choice(None), Choice::Quit);
}

#[test]
fn add_then_done_then_list() {
    let mut viewer = Viewer::new();
    let first = viewer.add("buy milk".to_string());
    assert_eq!(first.sql(), "INSERT INTO todolist (name, state) VALUES (?1, ?2)");
    assert_eq!(first.params(), &vec!["buy milk".to_string(), "on going".to_string()]);
    viewer.add("call mom".to_string());
    let update = viewer.done("buy milk".to_string()).unwrap();
    assert_eq!(update.sql(), "UPDATE todolist SET state = ?1 WHERE name = ?2");
    assert_eq!(update.params(), &vec!["done".to_string(), "buy milk".to_string()]);
    assert_eq!(viewer.plain(), "List: (Task (buy milk, done)) (Task (call mom, on going)) ");
    let shown = viewer.list();
    assert!(shown.starts_with("List: (Task (buy milk, "));
    assert!(shown.find("buy milk").unwrap() < shown.find("call mom").unwrap());
    assert_eq!(shown.matches("Task (").count(), 2);
}

#[test]
fn done_on_a_miss_leaves_everything_as_it_was() {
    let mut viewer = Viewer::new();
    viewer.add("buy milk".to_string());
    let before = viewer.plain();
    assert!(viewer.done("buy bread".to_string()).is_none());
    assert_eq!(viewer.plain(), before);
    assert!(Viewer::new().done("x".to_string()).is_none());
}

#[test]
fn done_marks_the_first_match_only() {
    let mut viewer = Viewer::new();
    viewer.add("a".to_string());
    viewer.add("a".to_string());
    assert!(viewer.done("a".to_string()).is_some());
    assert_eq!(viewer.plain(), "List: (Task (a, done)) (Task (a, on going)) ");
    assert!(viewer.done("a".to_string()).is_some());
    assert_eq!(viewer.plain(), "List: (Task (a, done)) (Task (a, on going)) ");
}

#[test]
fn clear_and_load() {
    let mut viewer = Viewer::new();
    viewer.add("a".to_string());
    let statement = viewer.clear();
    assert_eq!(statement.sql(), "DELETE FROM todolist");
    assert_eq!(viewer.plain(), "List: ");
    assert_eq!(viewer.select_all().sql(), "SELECT * FROM todolist");
    viewer.load(vec![("x".to_string(), "done".to_string()), ("y".to_string(), "on going".to_string())]);
    assert_eq!(viewer.plain(), "List: (Task (x, done)) (Task (y, on going)) ");
}

#[test]
fn init_db_sets_the_path() {
    let mut viewer = Viewer::new();
    let statement = viewer.init_db(Some("here"));
    assert_eq!(viewer.path(), "here\\todo_list.db3");
    assert!(statement.sql().starts_with("CREATE TABLE IF NOT EXISTS todolist"));
}

#[test]
fn prompts_for_the_choices_that_need_a_text() {
    assert_eq!(Viewer::prompt(Choice::Add), Some("Task:"));
    assert_eq!(Viewer::prompt(Choice::Done), Some("Task >"));
    assert_eq!(Viewer::prompt(Choice::List), None);
    assert_eq!(Viewer::prompt(Choice::Clear), None);
    assert_eq!(Viewer::prompt(Choice::Quit), None);
}

#[test]
fn steps_of_a_session() {
    let mut viewer = Viewer::new();
    match viewer.step(Choice::Add, "buy milk".to_string()) {
        Action::Send(op, statement) => {
            assert_eq!(op, Operation::Add);
            assert_eq!(statement.sql(), "INSERT INTO todolist (name, state) VALUES (?1, ?2)");
            assert_eq!(statement.params(), &vec!["buy milk".to_string(), "on going".to_string()]);
        }
        other => panic!("{:?}", other),
    }
    viewer.step(Choice::Add, "call mom".to_string());
    match viewer.step(Choice::Done, "buy milk".to_string()) {
        Action::Send(op, statement) => {
            assert_eq!(op, Operation::SetDone);
            assert_eq!(statement.params(), &vec!["done".to_string(), "buy milk".to_string()]);
        }
        other => panic!("{:?}", other),
    }
    assert_eq!(viewer.plain(), "List: (Task (buy milk, done)) (Task (call mom, on going)) ");
    match viewer.step(Choice::List, String::new()) {
        Action::Print(text) => {
            assert!(text.starts_with("List: (Task (buy milk, "));
            assert!(text.ends_with(")) "));
            assert_eq!(text.matches("Task (").count(), 2);
        }
        other => panic!("{:?}", other),
    }
    assert_eq!(viewer.plain(), "List: (Task (buy milk, done)) (Task (call mom, on going)) ");
    match viewer.step(Choice::Clear, String::new()) {
        Action::Send(op, statement) => {
            assert_eq!(op, Operation::Clear);
            assert_eq!(statement.sql(), "DELETE FROM todolist");
        }
        other => panic!("{:?}", other),
    }
    assert_eq!(viewer.plain(), "List: ");
    assert_eq!(viewer.step(Choice::Quit, "ignored".to_string()), Action::Quit);
    assert_eq!(viewer.plain(), "List: ");
}

#[test]
fn step_done_on_a_miss_shows_a_notice_and_changes_nothing() {
    let mut viewer = Viewer::new();
    viewer.step(Choice::Add, "buy milk".to_string());
    match viewer.step(Choice::Done, "buy bread".to_string()) {
        Action::Show(notice) => {
            assert_eq!(notice.channel(), Channel::Output);
            assert_eq!(notice.text(), "task not found");
        }
        other => panic!("{:?}", other),
    }
    assert_eq!(viewer.plain(), "List: (Task (buy milk, on going)) ");
}
