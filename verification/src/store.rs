//! The store: every record of the service, keyed by its identifier.

use std::collections::HashMap;
use vstd::prelude::*;
use vstd::std_specs::iter::IteratorSpec;
use crate::todo::{Todo, TodoView};

verus! {

broadcast use vstd::std_specs::hash::group_hash_axioms;

/// The mathematical value of a store: a finite map from identifier to
/// record.
pub type Records = Map<u128, TodoView>;

/// Every record sits under its own identifier.
pub open spec fn keyed_by_id(store: Records) -> bool {
    forall|id: u128| store.contains_key(id) ==> (#[trigger] store[id]).id == id
}

/// The values of a sequence of records.
pub open spec fn views(todos: Seq<Todo>) -> Seq<TodoView> {
    Seq::new(todos.len(), |i: int| todos[i]@)
}

/// `list` is a snapshot of `store`: it holds every record of the store
/// once and nothing else, in some order.
pub open spec fn is_listing(list: Seq<TodoView>, store: Records) -> bool {
    &&& list.len() == store.len()
    &&& forall|i: int|
        0 <= i < list.len() ==> store.contains_key((#[trigger] list[i]).id) && store[list[i].id]
            == list[i]
    &&& forall|id: u128| #[trigger]
        store.contains_key(id) ==> exists|i: int| 0 <= i < list.len() && list[i] == store[id]
    &&& forall|i: int, j: int|
        0 <= i < j < list.len() ==> (#[trigger] list[i]).id != (#[trigger] list[j]).id
}

/// The records of the service, each under its identifier.
pub struct TodoStore {
    todos: HashMap<u128, Todo>,
}

impl View for TodoStore {
    type V = Records;

    closed spec fn view(&self) -> Records {
        Map::new(|id: u128| self.todos@.contains_key(id), |id: u128| self.todos@[id]@)
    }
}

impl TodoStore {
    #[verifier::type_invariant]
    spec fn keys_match(self) -> bool {
        forall|id: u128| self.todos@.contains_key(id) ==> (#[trigger] self.todos@[id]).id == id
    }

    /// Moves the map out and leaves an empty one, so that it can be
    /// changed and put back in one assignment.
    fn take_map(&mut self) -> (todos: HashMap<u128, Todo>)
        ensures
            todos == old(self).todos,
            final(self).todos@ == Map::<u128, Todo>::empty(),
    {
        let mut todos: HashMap<u128, Todo> = HashMap::new();
        std::mem::swap(&mut self.todos, &mut todos);
        todos
    }

    /// An empty store.
    pub fn new() -> (store: TodoStore)
        ensures
            store@ == Map::<u128, TodoView>::empty(),
    {
        let store = TodoStore { todos: HashMap::new() };
        assert(store@ =~= Map::<u128, TodoView>::empty());
        store
    }

    /// The number of records.
    pub fn len(&self) -> (n: usize)
        ensures
            n == self@.len(),
            self@.dom().finite(),
            keyed_by_id(self@),
    {
        proof {
            use_type_invariant(self);
        }
        assert(self@.dom() =~= self.todos@.dom());
        self.todos.len()
    }

    /// Whether a record stands under `id`.
    pub fn contains(&self, id: u128) -> (r: bool)
        ensures
            r == self@.contains_key(id),
    {
        self.todos.contains_key(&id)
    }

    /// Puts `todo` under its own identifier, in place of any record that
    /// stood there.
    pub fn insert(&mut self, todo: Todo)
        ensures
            final(self)@ == old(self)@.insert(todo.id, todo@),
            keyed_by_id(final(self)@),
    {
        proof {
            use_type_invariant(&*self);
        }
        let id: u128 = todo.id;
        let mut todos = self.take_map();
        todos.insert(id, todo);
        self.todos = todos;
        assert(self@ =~= old(self)@.insert(todo.id, todo@));
    }

    /// A copy of the record under `id`, if there is one.
    pub fn get(&self, id: u128) -> (r: Option<Todo>)
        ensures
            r is Some <==> self@.contains_key(id),
            r matches Some(todo) ==> todo@ == self@[id] && todo.id == id,
            keyed_by_id(self@),
    {
        proof {
            use_type_invariant(self);
        }
        match self.todos.get(&id) {
            Some(todo) => Some(todo.clone()),
            None => None,
        }
    }

    /// A snapshot of all records, in no particular order.
    pub fn list(&self) -> (todos: Vec<Todo>)
        ensures
            is_listing(views(todos@), self@),
            keyed_by_id(self@),
    {
        proof {
            use_type_invariant(self);
        }
        let mut todos: Vec<Todo> = Vec::new();
        let ghost pairs = self.todos.iter().remaining();
        for pair in it: self.todos.iter()
            invariant
                it.seq() == pairs,
                todos.len() == it.index(),
                forall|i: int| 0 <= i < todos.len() ==> todos[i] == *(#[trigger] pairs[i]).1,
        {
            todos.push(pair.1.clone());
        }
        proof {
            let list = views(todos@);
            assert(self@.dom() =~= self.todos@.dom());
            assert(pairs.no_duplicates());
            assert forall|i: int| 0 <= i < list.len() implies self@.contains_key(
                (#[trigger] list[i]).id,
            ) && self@[list[i].id] == list[i] by {
                let id = *pairs[i].0;
                assert(self.todos@.contains_key(id) && self.todos@[id] == *pairs[i].1);
            }
            assert forall|id: u128| #[trigger] self@.contains_key(id) implies exists|i: int|
                0 <= i < list.len() && list[i] == self@[id] by {
                let pair = (&id, &self.todos@[id]);
                assert(pairs.contains(pair));
                let i = choose|i: int| 0 <= i < pairs.len() && pairs[i] == pair;
                assert(list[i] == self@[id]);
            }
            assert forall|i: int, j: int| 0 <= i < j < list.len() implies (#[trigger] list[i]).id
                != (#[trigger] list[j]).id by {
                let a = *pairs[i].0;
                let b = *pairs[j].0;
                assert(self.todos@.contains_key(a) && self.todos@[a] == *pairs[i].1);
                assert(self.todos@.contains_key(b) && self.todos@[b] == *pairs[j].1);
                if a == b {
                    assert(pairs[i] == pairs[j]);
                }
            }
        }
        todos
    }

    /// Takes the record under `id` out; says whether there was one.
    pub fn remove(&mut self, id: u128) -> (existed: bool)
        ensures
            existed == old(self)@.contains_key(id),
            final(self)@ == old(self)@.remove(id),
            keyed_by_id(final(self)@),
    {
        proof {
            use_type_invariant(&*self);
        }
        let mut todos = self.take_map();
        let taken = todos.remove(&id);
        self.todos = todos;
        assert(self@ =~= old(self)@.remove(id));
        taken.is_some()
    }
}

impl Default for TodoStore {
    /// An empty store.
    fn default() -> (store: TodoStore)
        ensures
            store@ == Map::<u128, TodoView>::empty(),
    {
        TodoStore::new()
    }
}

} // verus!
