use todos::store::TodoStore;
use todos::task_state::TaskState;
use todos::todo::Todo;

fn record(id: u128, text: &str, state: TaskState) -> Todo {
    Todo { id, text: String::from(text), state }
}

fn sorted(mut todos: Vec<Todo>) -> Vec<Todo> {
    todos.sort_by_key(|todo| todo.id);
    todos
}

#[test]
fn a_new_store_is_empty() {
    let store = TodoStore::new();
    assert_eq!(store.len(), 0);
    assert!(store.list().is_empty());
    assert!(!store.contains(0));
    assert_eq!(store.get(0), None);
}

#[test]
fn the_default_store_is_empty() {
    let store = TodoStore::default();
    assert_eq!(store.len(), 0);
    assert!(store.list().is_empty());
}

#[test]
fn insert_then_get_gives_a_copy() {
    let mut store = TodoStore::new();
    store.insert(record(5, "five", TaskState::Going));
    assert!(store.contains(5));
    assert_eq!(store.len(), 1);
    assert_eq!(store.get(5), Some(record(5, "five", TaskState::Going)));
    assert_eq!(store.get(6), None);
    // the copy is the caller's: changing it leaves the store alone
    let mut copy = store.get(5).unwrap();
    copy.text.push_str(" and more");
    assert_eq!(store.get(5), Some(record(5, "five", TaskState::Going)));
}

#[test]
fn insert_overwrites_the_record_under_the_same_id() {
    let mut store = TodoStore::new();
    store.insert(record(5, "first", TaskState::New));
    store.insert(record(5, "second", TaskState::Done));
    assert_eq!(store.len(), 1);
    assert_eq!(store.get(5), Some(record(5, "second", TaskState::Done)));
    assert_eq!(store.list(), vec![record(5, "second", TaskState::Done)]);
}

#[test]
fn remove_says_whether_the_record_existed() {
    let mut store = TodoStore::new();
    store.insert(record(1, "one", TaskState::New));
    store.insert(record(2, "two", TaskState::New));
    assert!(store.remove(1));
    assert!(!store.remove(1));
    assert!(!store.remove(3));
    assert_eq!(store.len(), 1);
    assert!(!store.contains(1));
    assert_eq!(store.get(2), Some(record(2, "two", TaskState::New)));
}

#[test]
fn list_holds_every_record_once() {
    let mut store = TodoStore::new();
    store.insert(record(30, "c", TaskState::Done));
    store.insert(record(10, "a", TaskState::New));
    store.insert(record(20, "b", TaskState::Going));
    let listed = sorted(store.list());
    assert_eq!(
        listed,
        vec![
            record(10, "a", TaskState::New),
            record(20, "b", TaskState::Going),
            record(30, "c", TaskState::Done),
        ]
    );
    assert_eq!(store.len(), 3);
}

#[test]
fn list_is_a_snapshot() {
    let mut store = TodoStore::new();
    store.insert(record(1, "one", TaskState::New));
    let before = store.list();
    store.insert(record(2, "two", TaskState::New));
    store.remove(1);
    assert_eq!(before, vec![record(1, "one", TaskState::New)]);
    assert_eq!(store.list(), vec![record(2, "two", TaskState::New)]);
}

#[test]
fn the_largest_and_smallest_ids_are_ordinary_keys() {
    let mut store = TodoStore::new();
    store.insert(record(0, "zero", TaskState::New));
    store.insert(record(u128::MAX, "max", TaskState::New));
    assert_eq!(store.len(), 2);
    assert_eq!(store.get(0).unwrap().text, "zero");
    assert_eq!(store.get(u128::MAX).unwrap().text, "max");
}
