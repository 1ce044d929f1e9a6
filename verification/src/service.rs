//! What each operation of the service decides: the change to the store and
//! the answer, as functions from plain values to plain values. Reading the
//! request and sending the response is the caller's part.

use vstd::prelude::*;
use vstd::string::StringExecFns;
use crate::ident::is_random_id;
use crate::status::Status;
use crate::store::{is_listing, views, Records, TodoStore};
use crate::todo::{CreateTodo, Todo, TodoView, UpdateTodo, UpdateTodoView};

verus! {

/// The store after a record with `id` and `text` was created.
pub open spec fn create_spec(store: Records, id: u128, text: Seq<char>) -> Records {
    store.insert(id, TodoView::created(id, text))
}

/// The store and the answer after an update of `id`.
pub open spec fn update_spec(store: Records, id: u128, patch: UpdateTodoView) -> (
    Records,
    Result<TodoView, Status>,
) {
    if store.contains_key(id) {
        let updated = patch.apply(store[id]);
        (store.insert(id, updated), Ok(updated))
    } else {
        (store, Err(Status::NotFound))
    }
}

/// The store after the second half of an update: the record that was
/// read, with the update applied, stands under its identifier.
pub open spec fn write_back_spec(
    store: Records,
    read: TodoView,
    patch: UpdateTodoView,
) -> Records {
    store.insert(read.id, patch.apply(read))
}

/// The store and the answer after a delete of `id`.
pub open spec fn delete_spec(store: Records, id: u128) -> (Records, Status) {
    if store.contains_key(id) {
        (store.remove(id), Status::NoContent)
    } else {
        (store, Status::NotFound)
    }
}

/// The mathematical value of what a read of one record gives.
pub open spec fn read_view(read: Result<Todo, Status>) -> Result<TodoView, Status> {
    match read {
        Ok(todo) => Ok(todo@),
        Err(status) => Err(status),
    }
}

/// The record in the answer to an update, as a mathematical value.
pub open spec fn answer_view(answer: Result<(Status, Todo), Status>) -> Result<TodoView, Status> {
    match answer {
        Ok(reply) => Ok(reply.1@),
        Err(status) => Err(status),
    }
}

/// The first half of an update: reads the record under `id`. An unknown
/// `id` is answered with `NotFound`.
pub fn todos_update_read(store: &TodoStore, id: u128) -> (r: Result<Todo, Status>)
    ensures
        store@.contains_key(id) ==> read_view(r) == Ok::<TodoView, Status>(store@[id]),
        !store@.contains_key(id) ==> r == Err::<Todo, Status>(Status::NotFound),
        r matches Ok(todo) ==> todo.id == id,
{
    match store.get(id) {
        Some(todo) => Ok(todo),
        None => Err(Status::NotFound),
    }
}

/// The second half of an update: applies the fields that `input` holds to
/// the record that was read, and writes the result back under the record's
/// identifier.
///
/// The store is not asked again. If it was changed since the record was
/// read, the write still happens: it replaces whatever stands under the
/// identifier by then, and puts the record back if it was deleted.
pub fn todos_update_write(store: &mut TodoStore, todo: Todo, input: UpdateTodo) -> (r: (
    Status,
    Todo,
))
    ensures
        r.0 == Status::Okay,
        r.1@ == input@.apply(todo@),
        final(store)@ == write_back_spec(old(store)@, todo@, input@),
{
    let updated = input.apply(todo);
    store.insert(updated.clone());
    (Status::Okay, updated)
}

/// Updates the record under `id`: both halves of the update on one store,
/// with nothing in between. The record is read, the fields that `input`
/// holds are applied, and the result is written back and answered with
/// `Okay`. An unknown `id` is answered with `NotFound` and changes nothing.
pub fn todos_update(store: &mut TodoStore, id: u128, input: UpdateTodo) -> (r: Result<
    (Status, Todo),
    Status,
>)
    ensures
        (final(store)@, answer_view(r)) == update_spec(old(store)@, id, input@),
        r is Ok <==> old(store)@.contains_key(id),
        r matches Ok(reply) ==> reply.0 == Status::Okay,
        r matches Err(status) ==> status == Status::NotFound && final(store)@ == old(store)@,
{
    match todos_update_read(store, id) {
        Ok(todo) => Ok(todos_update_write(store, todo, input)),
        Err(status) => Err(status),
    }
}

/// Deletes the record under `id`: `NoContent` if there was one,
/// `NotFound`, with the store unchanged, if not.
pub fn todos_delete(store: &mut TodoStore, id: u128) -> (status: Status)
    ensures
        (final(store)@, status) == delete_spec(old(store)@, id),
{
    if store.remove(id) {
        Status::NoContent
    } else {
        assert(store@ =~= old(store)@);
        Status::NotFound
    }
}

/// Creates a record under a given identifier and stores it.
pub fn todos_create_with_id(store: &mut TodoStore, id: u128, input: CreateTodo) -> (r: (
    Status,
    Todo,
))
    ensures
        r.0 == Status::Created,
        r.1@ == TodoView::created(id, input.text@),
        final(store)@ == create_spec(old(store)@, id, input.text@),
{
    let todo = Todo::with_id(id, input.text);
    store.insert(todo.clone());
    (Status::Created, todo)
}

/// Creates a record under a freshly drawn random identifier and stores
/// it.
///
/// Which identifier is drawn is not determined; whatever it is, the store
/// gains exactly the record that is returned.
pub fn todos_create(store: &mut TodoStore, input: CreateTodo) -> (r: (Status, Todo))
    ensures
        r.0 == Status::Created,
        is_random_id(r.1.id),
        r.1@ == TodoView::created(r.1.id, input.text@),
        final(store)@ == create_spec(old(store)@, r.1.id, input.text@),
{
    let todo = Todo::new(input.text);
    store.insert(todo.clone());
    (Status::Created, todo)
}

/// All records, in no particular order, answered with `Okay`.
pub fn todos_read(store: &TodoStore) -> (r: (Status, Vec<Todo>))
    ensures
        r.0 == Status::Okay,
        is_listing(views(r.1@), store@),
{
    (Status::Okay, store.list())
}

/// The text before the detail in the body of an internal-error answer.
pub open spec fn internal_error_prefix() -> Seq<char> {
    "Unhandled internal error: "@
}

/// Answers a request that failed outside the handlers: a timeout becomes
/// `RequestTimeout`, anything else `InternalServerError` with a body that
/// carries the failure's description.
pub fn handle_error(timed_out: bool, detail: &str) -> (r: Result<Status, (Status, String)>)
    ensures
        timed_out ==> r == Ok::<Status, (Status, String)>(Status::RequestTimeout),
        !timed_out ==> (r matches Err(answer) && answer.0 == Status::InternalServerError
            && answer.1@ == internal_error_prefix() + detail@),
{
    if timed_out {
        Ok(Status::RequestTimeout)
    } else {
        let mut body = String::from_str("Unhandled internal error: ");
        body.append(detail);
        Err((Status::InternalServerError, body))
    }
}

} // verus!
