//! Histories: what a store holds after a run of creates and deletes.

use vstd::prelude::*;
use crate::service::{create_spec, delete_spec};
use crate::status::Status;
use crate::store::{is_listing, keyed_by_id, Records};
use crate::task_state::TaskState;
use crate::todo::TodoView;

verus! {

/// One request that changes which records the store holds.
pub enum Request {
    /// A create, with the identifier that was drawn for it.
    Create { id: u128, text: Seq<char> },
    /// A delete.
    Delete { id: u128 },
}

/// The store after one request.
pub open spec fn step(store: Records, request: Request) -> Records {
    match request {
        Request::Create { id, text } => create_spec(store, id, text),
        Request::Delete { id } => delete_spec(store, id).0,
    }
}

/// The store after a history of requests on an empty store.
pub open spec fn replay(history: Seq<Request>) -> Records
    decreases history.len(),
{
    if history.len() == 0 {
        Map::empty()
    } else {
        step(replay(history.drop_last()), history.last())
    }
}

/// The request at place `i` of the history, if it is a create, drew an
/// identifier that no record of the store had at that moment.
pub open spec fn draws_fresh_id_at(history: Seq<Request>, i: int) -> bool {
    history[i] matches Request::Create { id, .. } ==> !replay(history.take(i)).contains_key(id)
}

/// Every create of the history drew an identifier that no record of the
/// store had at that moment.
pub open spec fn draws_fresh_ids(history: Seq<Request>) -> bool {
    forall|i: int| 0 <= i < history.len() ==> #[trigger] draws_fresh_id_at(history, i)
}

/// The number of creates in a history.
pub open spec fn creates(history: Seq<Request>) -> nat
    decreases history.len(),
{
    if history.len() == 0 {
        0
    } else {
        creates(history.drop_last()) + if history.last() is Create {
            1nat
        } else {
            0nat
        }
    }
}

/// The number of deletes in a history that found their record, that is,
/// were answered with `NoContent`.
pub open spec fn deletes(history: Seq<Request>) -> nat
    decreases history.len(),
{
    if history.len() == 0 {
        0
    } else {
        deletes(history.drop_last()) + if history.last() matches Request::Delete { id }
            && delete_spec(replay(history.drop_last()), id).1 == Status::NoContent {
            1nat
        } else {
            0nat
        }
    }
}

/// The number of deletes in a history, whether they found a record or not.
pub open spec fn delete_requests(history: Seq<Request>) -> nat
    decreases history.len(),
{
    if history.len() == 0 {
        0
    } else {
        delete_requests(history.drop_last()) + if history.last() is Delete {
            1nat
        } else {
            0nat
        }
    }
}

/// The request at place `i` of the history, if it is a delete, found a
/// record under its identifier.
pub open spec fn finds_record_at(history: Seq<Request>, i: int) -> bool {
    history[i] matches Request::Delete { id } ==> replay(history.take(i)).contains_key(id)
}

/// Every delete of the history found a record under its identifier.
pub open spec fn deletes_find_records(history: Seq<Request>) -> bool {
    forall|i: int| 0 <= i < history.len() ==> #[trigger] finds_record_at(history, i)
}

/// The request at place `i` of the history created `todo`, and no later
/// request of the history deleted it.
pub open spec fn created_at_and_kept(history: Seq<Request>, todo: TodoView, i: int) -> bool {
    &&& 0 <= i < history.len()
    &&& history[i] == (Request::Create { id: todo.id, text: todo.text })
    &&& todo.state == TaskState::New
    &&& forall|j: int|
        i < j < history.len() ==> #[trigger] history[j] != (Request::Delete { id: todo.id })
}

/// `todo` is a record as some create of the history made it, and no
/// later request of the history deleted it.
pub open spec fn created_and_kept(history: Seq<Request>, todo: TodoView) -> bool {
    exists|i: int| #[trigger] created_at_and_kept(history, todo, i)
}

/// A history that draws fresh identifiers still does so when its last
/// request is left out.
proof fn lemma_prefix_draws_fresh_ids(history: Seq<Request>)
    requires
        history.len() > 0,
        draws_fresh_ids(history),
    ensures
        draws_fresh_ids(history.drop_last()),
{
    let prefix = history.drop_last();
    assert forall|i: int| 0 <= i < prefix.len() implies #[trigger] draws_fresh_id_at(
        prefix,
        i,
    ) by {
        assert(draws_fresh_id_at(history, i));
        assert(prefix[i] == history[i]);
        assert(prefix.take(i) =~= history.take(i));
    }
}

/// After any history the store is finite and keeps each record under its
/// own identifier.
pub proof fn lemma_replay_is_a_store(history: Seq<Request>)
    ensures
        replay(history).dom().finite(),
        keyed_by_id(replay(history)),
    decreases history.len(),
{
    if history.len() > 0 {
        lemma_replay_is_a_store(history.drop_last());
    }
}

/// After a history in which every create drew a fresh identifier, the
/// store holds as many records as were created less those that were
/// deleted.
pub proof fn lemma_replay_counts(history: Seq<Request>)
    requires
        draws_fresh_ids(history),
    ensures
        replay(history).len() + deletes(history) == creates(history),
    decreases history.len(),
{
    if history.len() > 0 {
        let prefix = history.drop_last();
        lemma_prefix_draws_fresh_ids(history);
        lemma_replay_counts(prefix);
        lemma_replay_is_a_store(prefix);
        let last = history.len() - 1;
        assert(draws_fresh_id_at(history, last));
        assert(history.take(last) =~= prefix);
    }
}

/// In a history in which every delete found its record, every delete
/// counts.
pub proof fn lemma_every_delete_counts(history: Seq<Request>)
    requires
        deletes_find_records(history),
    ensures
        deletes(history) == delete_requests(history),
    decreases history.len(),
{
    if history.len() > 0 {
        let prefix = history.drop_last();
        let last = history.len() - 1;
        assert forall|i: int| 0 <= i < prefix.len() implies #[trigger] finds_record_at(
            prefix,
            i,
        ) by {
            assert(finds_record_at(history, i));
            assert(prefix[i] == history[i]);
            assert(prefix.take(i) =~= history.take(i));
        }
        lemma_every_delete_counts(prefix);
        assert(finds_record_at(history, last));
        assert(history.take(last) =~= prefix);
    }
}

/// After any history, each record of the store is one that a create of
/// the history made and that no later delete took out.
pub proof fn lemma_replay_holds_what_was_created_and_kept(history: Seq<Request>, id: u128)
    requires
        replay(history).contains_key(id),
    ensures
        created_and_kept(history, replay(history)[id]),
    decreases history.len(),
{
    let prefix = history.drop_last();
    let last = history.len() - 1;
    let todo = replay(history)[id];
    lemma_replay_is_a_store(history);
    assert(todo.id == id);
    if history.last() == (Request::Create { id: todo.id, text: todo.text }) && todo.state
        == TaskState::New {
        assert(created_at_and_kept(history, todo, last));
    } else {
        assert(replay(prefix).contains_key(id) && replay(prefix)[id] == todo);
        lemma_replay_holds_what_was_created_and_kept(prefix, id);
        let i = choose|i: int| #[trigger] created_at_and_kept(prefix, todo, i);
        assert(history[i] == prefix[i]);
        assert forall|j: int| i < j < history.len() implies #[trigger] history[j] != (
        Request::Delete { id: todo.id }) by {
            if j < last {
                assert(history[j] == prefix[j]);
            }
        }
        assert(created_at_and_kept(history, todo, i));
    }
}

/// A listing taken after `n` creates, each with a fresh identifier, and
/// `m` deletes that found their record holds exactly `n - m` records, and
/// each of them is one that was created and not deleted since. Where every
/// delete of the history found its record, `m` is the number of deletes.
pub proof fn lemma_listing_after_history(history: Seq<Request>, list: Seq<TodoView>)
    requires
        draws_fresh_ids(history),
        is_listing(list, replay(history)),
    ensures
        deletes(history) <= creates(history),
        list.len() == creates(history) - deletes(history),
        deletes_find_records(history) ==> list.len() == creates(history) - delete_requests(
            history,
        ),
        forall|i: int| 0 <= i < list.len() ==> created_and_kept(history, #[trigger] list[i]),
        forall|i: int, j: int|
            0 <= i < j < list.len() ==> (#[trigger] list[i]).id != (#[trigger] list[j]).id,
{
    lemma_replay_counts(history);
    if deletes_find_records(history) {
        lemma_every_delete_counts(history);
    }
    assert forall|i: int| 0 <= i < list.len() implies created_and_kept(
        history,
        #[trigger] list[i],
    ) by {
        lemma_replay_holds_what_was_created_and_kept(history, list[i].id);
    }
}

} // verus!
