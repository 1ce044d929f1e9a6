//! Laws of the service: what follows, for every store and every request,
//! from what the operations are stated to do.

use vstd::prelude::*;
use crate::service::{create_spec, delete_spec, update_spec, write_back_spec};
use crate::status::Status;
use crate::store::{is_listing, keyed_by_id, Records};
use crate::task_state::TaskState;
use crate::todo::{TodoView, UpdateTodoView};

verus! {

/// `list` holds `todo` at exactly one place, and no other record with its
/// identifier.
pub open spec fn listed_once(list: Seq<TodoView>, todo: TodoView) -> bool {
    exists|i: int|
        {
            &&& 0 <= i < list.len()
            &&& #[trigger] list[i] == todo
            &&& forall|j: int| 0 <= j < list.len() && (#[trigger] list[j]).id == todo.id ==> j == i
        }
}

/// After a record is created, a listing of the store holds that record,
/// with state `New` and the given text, exactly once.
pub proof fn lemma_created_record_is_listed_once(
    store: Records,
    id: u128,
    text: Seq<char>,
    list: Seq<TodoView>,
)
    requires
        is_listing(list, create_spec(store, id, text)),
    ensures
        listed_once(list, TodoView::created(id, text)),
{
    let after = create_spec(store, id, text);
    assert(after.contains_key(id));
    let i = choose|i: int| 0 <= i < list.len() && list[i] == after[id];
    assert(list[i] == TodoView::created(id, text));
    assert forall|j: int| 0 <= j < list.len() && (#[trigger] list[j]).id == id implies j == i by {
        if j < i {
            assert(list[j].id != list[i].id);
        } else if i < j {
            assert(list[i].id != list[j].id);
        }
    }
}

/// Where the identifier was not in use, creation adds one record and
/// leaves every other record as it was.
pub proof fn lemma_create_with_fresh_id_adds_one(store: Records, id: u128, text: Seq<char>)
    requires
        store.dom().finite(),
        !store.contains_key(id),
    ensures
        create_spec(store, id, text).len() == store.len() + 1,
        forall|other: u128|
            store.contains_key(other) ==> create_spec(store, id, text).contains_key(other)
                && #[trigger] create_spec(store, id, text)[other] == store[other],
{
}

/// A listing of the store right after the first creation is that one
/// record.
pub proof fn lemma_first_created_record_is_the_listing(
    id: u128,
    text: Seq<char>,
    list: Seq<TodoView>,
)
    requires
        is_listing(list, create_spec(Map::empty(), id, text)),
    ensures
        list == seq![TodoView::created(id, text)],
{
    let after = create_spec(Map::empty(), id, text);
    assert(after.dom() =~= set![id]);
    assert(list.len() == 1);
    assert(after.contains_key(list[0].id));
    assert(list =~= seq![TodoView::created(id, text)]);
}

/// An update of an identifier that is not in the store is answered with
/// `NotFound` and leaves the store as it was.
pub proof fn lemma_update_of_unknown_id_changes_nothing(
    store: Records,
    id: u128,
    patch: UpdateTodoView,
)
    requires
        !store.contains_key(id),
    ensures
        update_spec(store, id, patch) == (store, Err::<TodoView, Status>(Status::NotFound)),
{
}

/// An update that holds only a text changes the text of the record and
/// keeps its state and its identifier.
pub proof fn lemma_update_of_text_keeps_state(store: Records, id: u128, text: Seq<char>)
    requires
        store.contains_key(id),
    ensures
        ({
            let patch = UpdateTodoView { text: Some(text), state: None };
            let (after, answer) = update_spec(store, id, patch);
            &&& answer == Ok::<TodoView, Status>(after[id])
            &&& after[id].text == text
            &&& after[id].state == store[id].state
            &&& after[id].id == store[id].id
            &&& after.dom() == store.dom()
        }),
{
    let patch = UpdateTodoView { text: Some(text), state: None };
    assert(update_spec(store, id, patch).0.dom() =~= store.dom());
}

/// An update that holds only a state changes the state of the record and
/// keeps its text and its identifier.
pub proof fn lemma_update_of_state_keeps_text(store: Records, id: u128, state: TaskState)
    requires
        store.contains_key(id),
    ensures
        ({
            let patch = UpdateTodoView { text: None, state: Some(state) };
            let (after, answer) = update_spec(store, id, patch);
            &&& answer == Ok::<TodoView, Status>(after[id])
            &&& after[id].state == state
            &&& after[id].text == store[id].text
            &&& after[id].id == store[id].id
            &&& after.dom() == store.dom()
        }),
{
    let patch = UpdateTodoView { text: None, state: Some(state) };
    assert(update_spec(store, id, patch).0.dom() =~= store.dom());
}

/// An update that holds nothing leaves the store as it was.
pub proof fn lemma_empty_update_changes_nothing(store: Records, id: u128)
    ensures
        update_spec(store, id, UpdateTodoView { text: None, state: None }).0 == store,
{
    let patch = UpdateTodoView { text: None, state: None };
    assert(update_spec(store, id, patch).0 =~= store);
}

/// An update whose two halves run with nothing in between is the read of
/// the record followed by the write of the changed record.
pub proof fn lemma_update_is_read_then_write(store: Records, id: u128, patch: UpdateTodoView)
    requires
        keyed_by_id(store),
        store.contains_key(id),
    ensures
        update_spec(store, id, patch).0 == write_back_spec(store, store[id], patch),
{
}

/// Where two updates read the same record and then write one after the
/// other, the last write wins: the store is as if the first update had
/// never been made.
pub proof fn lemma_last_write_wins(
    store: Records,
    read: TodoView,
    first: UpdateTodoView,
    second: UpdateTodoView,
)
    ensures
        write_back_spec(write_back_spec(store, read, first), read, second) == write_back_spec(
            store,
            read,
            second,
        ),
{
    assert(write_back_spec(write_back_spec(store, read, first), read, second) =~= write_back_spec(
        store,
        read,
        second,
    ));
}

/// Where a record is deleted between the two halves of an update, the
/// write puts it back, changed.
pub proof fn lemma_write_after_delete_restores(store: Records, id: u128, patch: UpdateTodoView)
    requires
        keyed_by_id(store),
        store.contains_key(id),
    ensures
        ({
            let after = write_back_spec(delete_spec(store, id).0, store[id], patch);
            &&& after.contains_key(id)
            &&& after[id] == patch.apply(store[id])
            &&& after == update_spec(store, id, patch).0
        }),
{
    let after = write_back_spec(delete_spec(store, id).0, store[id], patch);
    assert(after =~= update_spec(store, id, patch).0);
}

/// Of two deletes of one identifier that is in the store, the first is
/// answered with `NoContent` and the second with `NotFound`; the second
/// changes nothing.
pub proof fn lemma_delete_twice(store: Records, id: u128)
    requires
        store.contains_key(id),
    ensures
        ({
            let (after_first, first) = delete_spec(store, id);
            let (after_second, second) = delete_spec(after_first, id);
            &&& first == Status::NoContent
            &&& second == Status::NotFound
            &&& after_second == after_first
            &&& !after_first.contains_key(id)
        }),
{
}

/// Every operation keeps each record under its own identifier.
pub proof fn lemma_operations_keep_records_keyed(
    store: Records,
    id: u128,
    text: Seq<char>,
    patch: UpdateTodoView,
)
    requires
        keyed_by_id(store),
    ensures
        keyed_by_id(create_spec(store, id, text)),
        keyed_by_id(update_spec(store, id, patch).0),
        keyed_by_id(delete_spec(store, id).0),
{
}

} // verus!
