//! The decisions that the resource store makes between its queries. The
//! queries themselves are run by the caller, always filtered by the owning
//! user's identifier as well as by the record's own.

use vstd::prelude::*;

use crate::models::{Todo, UpdateTodoRequest};

verus! {

/// The values that an update writes into a todo's changeable columns.
#[derive(Debug, Clone, PartialEq, Eq)]
pub struct TodoUpdate {
    pub title: String,
    pub description: Option<String>,
    pub completed: bool,
    pub due_date: Option<i64>,
}

/// The mathematical value of a `TodoUpdate`.
pub ghost struct TodoUpdateView {
    pub title: Seq<char>,
    pub description: Option<Seq<char>>,
    pub completed: bool,
    pub due_date: Option<i64>,
}

/// The value of an optional text.
pub open spec fn text_view(text: Option<String>) -> Option<Seq<char>> {
    match text {
        Some(s) => Some(s@),
        None => None,
    }
}

impl View for TodoUpdate {
    type V = TodoUpdateView;

    open spec fn view(&self) -> TodoUpdateView {
        TodoUpdateView {
            title: self.title@,
            description: text_view(self.description),
            completed: self.completed,
            due_date: self.due_date,
        }
    }
}

/// The stored todo with the request laid over it: each field that the
/// request gives replaces the stored one, each field that it leaves out
/// stays. A stored description or due date cannot be cleared this way.
pub open spec fn merged(todo: Todo, todo_data: UpdateTodoRequest) -> TodoUpdateView {
    TodoUpdateView {
        title: match todo_data.title {
            Some(title) => title@,
            None => todo.title@,
        },
        description: match todo_data.description {
            Some(description) => Some(description@),
            None => text_view(todo.description),
        },
        completed: match todo_data.completed {
            Some(completed) => completed,
            None => todo.completed,
        },
        due_date: match todo_data.due_date {
            Some(due_date) => Some(due_date),
            None => todo.due_date,
        },
    }
}

/// What an update request does to the todo that the owner-filtered lookup
/// found: nothing where the lookup found none, else the merged values to
/// write.
pub open spec fn spec_update_todo(
    found: Option<&Todo>,
    todo_data: UpdateTodoRequest,
) -> Option<TodoUpdateView> {
    match found {
        Some(todo) => Some(merged(*todo, todo_data)),
        None => None,
    }
}

/// Copies an optional text.
fn copy_text(text: &Option<String>) -> (r: Option<String>)
    ensures
        text_view(r) == text_view(*text),
{
    match text {
        Some(s) => Some(s.clone()),
        None => None,
    }
}

/// Decides what an update writes. `found` is the result of looking the todo
/// up by its identifier and its owner's; `None` means that the user has no
/// such todo, and nothing is written.
pub fn update_todo(found: Option<&Todo>, todo_data: &UpdateTodoRequest) -> (r: Option<TodoUpdate>)
    ensures
        match spec_update_todo(found, *todo_data) {
            Some(update) => r is Some && r->Some_0@ == update,
            None => r is None,
        },
{
    let todo = match found {
        Some(todo) => todo,
        None => {
            return None;
        },
    };
    let title = match &todo_data.title {
        Some(title) => title.clone(),
        None => todo.title.clone(),
    };
    let description = match &todo_data.description {
        Some(description) => Some(description.clone()),
        None => copy_text(&todo.description),
    };
    let completed = match todo_data.completed {
        Some(completed) => completed,
        None => todo.completed,
    };
    let due_date = match todo_data.due_date {
        Some(due_date) => Some(due_date),
        None => todo.due_date,
    };
    Some(TodoUpdate { title, description, completed, due_date })
}

/// Whether a delete removed the record: it did when the statement touched at
/// least one row.
pub fn was_deleted(rows_affected: u64) -> (r: bool)
    ensures
        r == (rows_affected > 0),
{
    rows_affected > 0
}

} // verus!
