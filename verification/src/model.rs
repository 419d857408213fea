//! The todo entity as the repository stores it, and its wire form.

use vstd::prelude::*;
use crate::timestamp::{Timestamp, rfc3339_of};
use crate::wire;

verus! {

/// A todo as stored. `id` is `None` until the database assigns one on
/// insert; saving a todo whose `id` is `Some` updates that row.
#[derive(Debug, Clone, PartialEq, Eq)]
pub struct Todo {
    pub id: Option<i32>,
    pub title: String,
    pub done: bool,
    pub created_at: Timestamp,
}

/// The abstract value of a [`Todo`].
pub struct TodoView {
    pub id: Option<i32>,
    pub title: Seq<char>,
    pub done: bool,
    pub created_at: (i64, u32),
}

impl View for Todo {
    type V = TodoView;

    open spec fn view(&self) -> TodoView {
        TodoView { id: self.id, title: self.title@, done: self.done, created_at: self.created_at@ }
    }
}

/// Why a todo cannot be written in its wire form.
#[derive(Debug, Clone, Copy, PartialEq, Eq, Structural)]
pub enum TodoError {
    /// The todo has not been persisted, so it has no database-assigned id.
    MissingId,
}

/// The text of a [`TodoError`].
pub open spec fn todo_error_message(e: TodoError) -> Seq<char> {
    match e {
        TodoError::MissingId => "todo has not been persisted yet"@,
    }
}

impl TodoError {
    /// The error's text, as its `Display` writes it.
    pub fn message(&self) -> (s: String)
        ensures
            s@ == todo_error_message(*self),
    {
        match self {
            TodoError::MissingId => {
                let s = String::from_str("todo has not been persisted yet");
                proof {
                    reveal_strlit("todo has not been persisted yet");
                }
                s
            },
        }
    }
}

/// The wire form of a stored todo: its id (the bits of the `i32` read as a
/// `u32`), title and done flag, and its creation time as RFC 3339 text; an
/// error when it has no id.
pub open spec fn todo_to_wire(t: TodoView) -> Result<wire::TodoView, TodoError> {
    match t.id {
        Some(id) => Ok(
            wire::TodoView {
                id: id as u32,
                title: t.title,
                done: t.done,
                created_at: rfc3339_of(t.created_at),
            },
        ),
        None => Err(TodoError::MissingId),
    }
}

/// Whether a converted todo is the one `todo_to_wire` describes.
pub open spec fn wire_result_matches(
    r: Result<wire::Todo, TodoError>,
    want: Result<wire::TodoView, TodoError>,
) -> bool {
    match (r, want) {
        (Ok(w), Ok(v)) => w@ == v,
        (Err(e), Err(f)) => e == f,
        _ => false,
    }
}

impl Todo {
    /// The wire form of this todo.
    pub fn to_wire(&self) -> (r: Result<wire::Todo, TodoError>)
        ensures
            wire_result_matches(r, todo_to_wire(self@)),
    {
        match self.id {
            Some(id) => Ok(
                wire::Todo {
                    id: id as u32,
                    title: self.title.clone(),
                    done: self.done,
                    created_at: self.created_at.to_rfc3339(),
                },
            ),
            None => Err(TodoError::MissingId),
        }
    }
}

impl TryFrom<Todo> for wire::Todo {
    type Error = TodoError;

    fn try_from(todo: Todo) -> (r: Result<Self, Self::Error>)
        ensures
            wire_result_matches(r, todo_to_wire(todo@)),
    {
        todo.to_wire()
    }
}

impl vstd::std_specs::convert::TryFromSpecImpl<Todo> for wire::Todo {
    // A value that holds a `String` is pinned down by its view, not by spec
    // equality: the conversion's contract is the `ensures` of `try_from`
    // above, stated over views.
    open spec fn obeys_try_from_spec() -> bool {
        false
    }

    open spec fn try_from_spec(todo: Todo) -> Result<wire::Todo, TodoError> {
        choose|r: Result<wire::Todo, TodoError>| wire_result_matches(r, todo_to_wire(todo@))
    }
}

} // verus!
