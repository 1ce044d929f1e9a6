use todos::ident::{has_random_layout, LAYOUT_MASK, RANDOM_LAYOUT};
use todos::task_state::TaskState;
use todos::todo::{Todo, UpdateTodo};

#[test]
fn new_record_starts_in_state_new() {
    let todo = Todo::with_id(7, String::from("write"));
    assert_eq!(todo.id, 7);
    assert_eq!(todo.text, "write");
    assert_eq!(todo.state, TaskState::New);
}

#[test]
fn new_record_keeps_an_empty_text() {
    let todo = Todo::with_id(u128::MAX, String::new());
    assert_eq!(todo.id, u128::MAX);
    assert_eq!(todo.text, "");
    assert_eq!(todo.state, TaskState::New);
}

#[test]
fn drawn_record_has_text_state_and_random_layout() {
    let todo = Todo::new(String::from("buy milk"));
    assert_eq!(todo.text, "buy milk");
    assert_eq!(todo.state, TaskState::New);
    assert!(has_random_layout(todo.id));
    assert_eq!(todo.id & LAYOUT_MASK, RANDOM_LAYOUT);
}

#[test]
fn drawn_identifier_is_a_version_4_uuid() {
    for _ in 0..64 {
        let todo = Todo::new(String::from("x"));
        let id = uuid::Uuid::from_u128(todo.id);
        assert_eq!(id.get_version_num(), 4);
        assert_eq!(id.get_variant(), uuid::Variant::RFC4122);
        assert_eq!(id.as_u128(), todo.id);
    }
}

#[test]
fn drawn_identifiers_differ() {
    let a = Todo::new(String::from("a"));
    let b = Todo::new(String::from("b"));
    assert_ne!(a.id, b.id);
}

#[test]
fn layout_test_tells_identifiers_apart() {
    assert!(has_random_layout(RANDOM_LAYOUT));
    assert!(has_random_layout(0xffff_ffff_ffff_4fff_bfff_ffff_ffff_ffff));
    assert!(!has_random_layout(0));
    assert!(!has_random_layout(u128::MAX));
    // version 1 in place of 4
    assert!(!has_random_layout(0x0000_0000_0000_1000_8000_0000_0000_0000));
    // variant bits 11 in place of 10
    assert!(!has_random_layout(0x0000_0000_0000_4000_c000_0000_0000_0000));
}

#[test]
fn clone_copies_every_field() {
    let todo = Todo { id: 3, text: String::from("call"), state: TaskState::Going };
    let copy = todo.clone();
    assert_eq!(copy, todo);
    assert_eq!(copy.id, 3);
    assert_eq!(copy.text, "call");
    assert_eq!(copy.state, TaskState::Going);
}

#[test]
fn update_with_text_only_keeps_state() {
    let todo = Todo { id: 1, text: String::from("old"), state: TaskState::Going };
    let patch = UpdateTodo { text: Some(String::from("new")), state: None };
    let updated = patch.apply(todo);
    assert_eq!(updated, Todo { id: 1, text: String::from("new"), state: TaskState::Going });
}

#[test]
fn update_with_state_only_keeps_text() {
    let todo = Todo { id: 1, text: String::from("old"), state: TaskState::New };
    let patch = UpdateTodo { text: None, state: Some(TaskState::Done) };
    let updated = patch.apply(todo);
    assert_eq!(updated, Todo { id: 1, text: String::from("old"), state: TaskState::Done });
}

#[test]
fn update_with_both_fields_sets_both() {
    let todo = Todo { id: 9, text: String::from("old"), state: TaskState::Done };
    let patch = UpdateTodo { text: Some(String::from("new")), state: Some(TaskState::New) };
    let updated = patch.apply(todo);
    assert_eq!(updated, Todo { id: 9, text: String::from("new"), state: TaskState::New });
}

#[test]
fn update_with_no_field_changes_nothing() {
    let todo = Todo { id: 9, text: String::from("old"), state: TaskState::Going };
    let patch = UpdateTodo { text: None, state: None };
    let updated = patch.apply(todo.clone());
    assert_eq!(updated, todo);
}

#[test]
fn states_progress_to_done_and_stay() {
    assert_eq!(TaskState::New.next(), TaskState::Going);
    assert_eq!(TaskState::Going.next(), TaskState::Done);
    assert_eq!(TaskState::Done.next(), TaskState::Done);
    assert_eq!(TaskState::New.next().next().next(), TaskState::Done);
}

#[test]
fn states_have_their_wire_names() {
    assert_eq!(TaskState::New.name(), "New");
    assert_eq!(TaskState::Going.name(), "Going");
    assert_eq!(TaskState::Done.name(), "Done");
}
