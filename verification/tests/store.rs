use todo_server::db::{ResponseMessage, TodoDb};
use todo_server::model::todo::{CreateTodo, Todo, UpdateTodo};

fn item(id: &str, text: &str, completed: bool) -> Todo {
    let mut todo = Todo::with_id(id.to_string(), CreateTodo::new(text));
    todo.modify_completed(completed);
    todo
}

fn sorted(todos: Vec<Todo>) -> Vec<(String, String, bool)> {
    let mut rows: Vec<(String, String, bool)> = todos
        .iter()
        .map(|t| (t.get_id().to_string(), t.get_text().to_string(), t.get_completed()))
        .collect();
    rows.sort();
    rows
}

fn row(id: &str, text: &str, completed: bool) -> (String, String, bool) {
    (id.to_string(), text.to_string(), completed)
}

#[test]
fn new_store_is_empty() {
    let db = TodoDb::new();
    assert!(db.get_all_todo().is_empty());
}

#[test]
fn store_keeps_one_item_per_identity() {
    let mut db = TodoDb::new();
    db.store(item("a", "first", false));
    db.store(item("b", "other", true));
    db.store(item("a", "second", false));
    assert_eq!(
        sorted(db.get_all_todo()),
        vec![row("a", "second", false), row("b", "other", true)]
    );
}

#[test]
fn insert_todo_returns_the_stored_item() {
    let mut db = TodoDb::new();
    let todo = db.insert_todo(CreateTodo::new("buy milk"));
    assert_eq!(todo.get_text(), "buy milk");
    assert!(!todo.get_completed());
    assert_eq!(todo.get_id().len(), 36);
    assert_eq!(sorted(db.get_all_todo()), vec![row(todo.get_id(), "buy milk", false)]);
}

#[test]
fn created_identities_are_pairwise_distinct() {
    let mut db = TodoDb::new();
    let mut ids: Vec<String> = Vec::new();
    for i in 0..200 {
        let todo = db.insert_todo(CreateTodo::new(&format!("item {}", i)));
        ids.push(todo.get_id().to_string());
    }
    let mut unique = ids.clone();
    unique.sort();
    unique.dedup();
    assert_eq!(unique.len(), 200);
    let listed = sorted(db.get_all_todo());
    assert_eq!(listed.len(), 200);
    let listed_ids: Vec<String> = listed.into_iter().map(|r| r.0).collect();
    assert_eq!(listed_ids, unique);
}

#[test]
fn get_all_todo_is_a_snapshot() {
    let mut db = TodoDb::new();
    db.store(item("a", "one", false));
    let before = db.get_all_todo();
    db.store(item("b", "two", false));
    db.update_todo("a", UpdateTodo::new("a".to_string()).set_text("changed").clone());
    assert_eq!(sorted(before), vec![row("a", "one", false)]);
    assert_eq!(
        sorted(db.get_all_todo()),
        vec![row("a", "changed", false), row("b", "two", false)]
    );
}

#[test]
fn update_with_text_only_keeps_completion() {
    let mut db = TodoDb::new();
    db.store(item("a", "old", true));
    let mut patch = UpdateTodo::new("a".to_string());
    patch.set_text("x");
    let updated = db.update_todo("a", patch).unwrap();
    assert_eq!(updated.get_id(), "a");
    assert_eq!(updated.get_text(), "x");
    assert!(updated.get_completed());
    assert_eq!(sorted(db.get_all_todo()), vec![row("a", "x", true)]);
}

#[test]
fn update_with_completed_only_keeps_text() {
    let mut db = TodoDb::new();
    db.store(item("a", "text", false));
    let mut patch = UpdateTodo::new("a".to_string());
    patch.set_completed(true);
    let updated = db.update_todo("a", patch).unwrap();
    assert_eq!(updated.get_text(), "text");
    assert!(updated.get_completed());
    assert_eq!(sorted(db.get_all_todo()), vec![row("a", "text", true)]);
}

#[test]
fn update_with_both_fields_sets_both() {
    let mut db = TodoDb::new();
    db.store(item("a", "text", true));
    db.store(item("b", "other", true));
    let mut patch = UpdateTodo::new("a".to_string());
    patch.set_text("new");
    patch.set_completed(false);
    let updated = db.update_todo("a", patch).unwrap();
    assert_eq!(updated.get_text(), "new");
    assert!(!updated.get_completed());
    assert_eq!(
        sorted(db.get_all_todo()),
        vec![row("a", "new", false), row("b", "other", true)]
    );
}

#[test]
fn empty_update_succeeds_and_changes_nothing() {
    let mut db = TodoDb::new();
    db.store(item("a", "text", true));
    let updated = db.update_todo("a", UpdateTodo::new("a".to_string())).unwrap();
    assert_eq!(updated.get_id(), "a");
    assert_eq!(updated.get_text(), "text");
    assert!(updated.get_completed());
    assert_eq!(sorted(db.get_all_todo()), vec![row("a", "text", true)]);
}

#[test]
fn update_goes_by_the_given_identity_not_the_payload_target() {
    let mut db = TodoDb::new();
    db.store(item("a", "one", false));
    db.store(item("b", "two", false));
    let mut patch = UpdateTodo::new("b".to_string());
    patch.set_text("x");
    let updated = db.update_todo("a", patch).unwrap();
    assert_eq!(updated.get_id(), "a");
    assert_eq!(
        sorted(db.get_all_todo()),
        vec![row("a", "x", false), row("b", "two", false)]
    );
}

#[test]
fn update_of_unknown_identity_is_none_and_changes_nothing() {
    let mut db = TodoDb::new();
    db.store(item("a", "text", false));
    let mut patch = UpdateTodo::new("missing".to_string());
    patch.set_text("x");
    patch.set_completed(true);
    assert!(db.update_todo("missing", patch).is_none());
    assert_eq!(sorted(db.get_all_todo()), vec![row("a", "text", false)]);
}

#[test]
fn delete_returns_the_item_and_removes_it() {
    let mut db = TodoDb::new();
    db.store(item("a", "one", false));
    db.store(item("b", "two", true));
    db.store(item("c", "three", false));
    let removed = db.delete_todo("b").unwrap();
    assert_eq!(removed.get_id(), "b");
    assert_eq!(removed.get_text(), "two");
    assert!(removed.get_completed());
    assert_eq!(
        sorted(db.get_all_todo()),
        vec![row("a", "one", false), row("c", "three", false)]
    );
}

#[test]
fn delete_of_unknown_identity_is_none_and_changes_nothing() {
    let mut db = TodoDb::new();
    db.store(item("a", "one", false));
    assert!(db.delete_todo("A").is_none());
    assert!(db.delete_todo("").is_none());
    assert_eq!(sorted(db.get_all_todo()), vec![row("a", "one", false)]);
}

#[test]
fn clone_of_store_is_independent() {
    let mut db = TodoDb::new();
    db.store(item("a", "one", false));
    let copy = db.clone();
    db.delete_todo("a");
    assert!(db.get_all_todo().is_empty());
    assert_eq!(sorted(copy.get_all_todo()), vec![row("a", "one", false)]);
}

#[test]
fn create_answers_with_the_new_item() {
    let mut db = TodoDb::new();
    match db.create(CreateTodo::new("a")) {
        ResponseMessage::Contents(todo) => {
            assert_eq!(todo.get_text(), "a");
            assert!(!todo.get_completed());
            assert_eq!(sorted(db.get_all_todo()), vec![row(todo.get_id(), "a", false)]);
        }
        other => panic!("unexpected reply {:?}", other),
    }
}

#[test]
fn read_answers_with_every_item() {
    let mut db = TodoDb::new();
    db.store(item("a", "one", false));
    db.store(item("b", "two", true));
    match db.read() {
        ResponseMessage::Contents(todos) => {
            assert_eq!(sorted(todos), vec![row("a", "one", false), row("b", "two", true)]);
        }
        other => panic!("unexpected reply {:?}", other),
    }
}

#[test]
fn update_answers_with_new_state_or_not_found() {
    let mut db = TodoDb::new();
    db.store(item("a", "one", true));
    let mut patch = UpdateTodo::new("a".to_string());
    patch.set_text("x");
    match db.update("a", patch) {
        ResponseMessage::Contents(todo) => {
            assert_eq!(todo.get_text(), "x");
            assert!(todo.get_completed());
        }
        other => panic!("unexpected reply {:?}", other),
    }
    assert!(matches!(
        db.update("never", UpdateTodo::new("never".to_string())),
        ResponseMessage::NotFound
    ));
    assert_eq!(sorted(db.get_all_todo()), vec![row("a", "x", true)]);
}

#[test]
fn delete_twice_answers_no_contents_then_not_found() {
    let mut db = TodoDb::new();
    db.store(item("a", "one", false));
    assert!(matches!(db.delete("a"), ResponseMessage::NoContents));
    assert!(db.get_all_todo().is_empty());
    assert!(matches!(db.delete("a"), ResponseMessage::NotFound));
    assert!(db.get_all_todo().is_empty());
}

#[test]
fn delete_of_never_created_identity_answers_not_found() {
    let mut db = TodoDb::new();
    assert!(matches!(db.delete("never"), ResponseMessage::NotFound));
    db.store(item("a", "one", false));
    assert!(matches!(db.delete("never"), ResponseMessage::NotFound));
    assert_eq!(sorted(db.get_all_todo()), vec![row("a", "one", false)]);
}
