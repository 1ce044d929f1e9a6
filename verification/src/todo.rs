//! The todo record and the bodies of the requests that make and change one.

use vstd::prelude::*;
use crate::ident::{draw_id, is_random_id};
use crate::task_state::TaskState;

verus! {

/// One task: an identifier fixed at creation, a free-form text, a state.
#[derive(Debug, PartialEq, Eq)]
pub struct Todo {
    pub id: u128,
    pub text: String,
    pub state: TaskState,
}

/// The mathematical value of a [`Todo`].
pub struct TodoView {
    pub id: u128,
    pub text: Seq<char>,
    pub state: TaskState,
}

impl View for Todo {
    type V = TodoView;

    open spec fn view(&self) -> TodoView {
        TodoView { id: self.id, text: self.text@, state: self.state }
    }
}

impl TodoView {
    /// The record that creation gives: the given id and text, state `New`.
    pub open spec fn created(id: u128, text: Seq<char>) -> TodoView {
        TodoView { id, text, state: TaskState::New }
    }
}

impl Clone for Todo {
    fn clone(&self) -> (r: Self)
        ensures
            r == *self,
    {
        Todo { id: self.id, text: self.text.clone(), state: self.state }
    }
}

impl Todo {
    /// A new record under a given identifier.
    pub fn with_id(id: u128, text: String) -> (todo: Todo)
        ensures
            todo@ == TodoView::created(id, text@),
    {
        Todo { id, text, state: TaskState::New }
    }

    /// A new record under a freshly drawn random identifier.
    ///
    /// The identifier is random, so the contract fixes its layout and
    /// everything else about the record, not the identifier's value.
    pub fn new(text: String) -> (todo: Todo)
        ensures
            is_random_id(todo.id),
            todo@ == TodoView::created(todo.id, text@),
    {
        let id: u128 = draw_id();
        Todo::with_id(id, text)
    }
}

/// The body of a create request.
#[derive(Debug)]
pub struct CreateTodo {
    pub text: String,
}

/// The body of an update request: each field is applied only if present.
#[derive(Debug)]
pub struct UpdateTodo {
    pub text: Option<String>,
    pub state: Option<TaskState>,
}

/// The mathematical value of an [`UpdateTodo`].
pub struct UpdateTodoView {
    pub text: Option<Seq<char>>,
    pub state: Option<TaskState>,
}

impl View for UpdateTodo {
    type V = UpdateTodoView;

    open spec fn view(&self) -> UpdateTodoView {
        UpdateTodoView {
            text: match self.text {
                Some(t) => Some(t@),
                None => None,
            },
            state: self.state,
        }
    }
}

impl UpdateTodoView {
    /// The record after the update: the fields that are present replace
    /// the record's, the others and the id stay.
    pub open spec fn apply(self, todo: TodoView) -> TodoView {
        TodoView {
            id: todo.id,
            text: match self.text {
                Some(t) => t,
                None => todo.text,
            },
            state: match self.state {
                Some(s) => s,
                None => todo.state,
            },
        }
    }
}

impl UpdateTodo {
    /// Applies the update to a record.
    pub fn apply(self, todo: Todo) -> (r: Todo)
        ensures
            r@ == self@.apply(todo@),
    {
        let mut todo = todo;
        if let Some(text) = self.text {
            todo.text = text;
        }
        if let Some(state) = self.state {
            todo.state = state;
        }
        todo
    }
}

} // verus!
