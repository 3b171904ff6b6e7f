//! The records that the backend stores and the bodies of its requests, as
//! plain values: an identifier is a 128-bit number, a point in time is a
//! count of microseconds since the Unix epoch.

use vstd::prelude::*;

verus! {

/// A registered user. `password_hash` is the stored credential string; it
/// never leaves the backend.
#[derive(Debug, Clone, PartialEq, Eq)]
pub struct User {
    pub id: u128,
    pub name: String,
    pub email: String,
    pub password_hash: String,
    pub created_at: i64,
    pub updated_at: i64,
}

/// The body of a registration request.
#[derive(Debug, Clone, PartialEq, Eq)]
pub struct CreateUserRequest {
    pub name: String,
    pub email: String,
    pub password: String,
}

/// The body of a login request.
#[derive(Debug, Clone, PartialEq, Eq)]
pub struct LoginRequest {
    pub email: String,
    pub password: String,
}

/// The answer to a successful login: the token and the user it speaks for.
#[derive(Debug, Clone, PartialEq, Eq)]
pub struct LoginResponse {
    pub token: String,
    pub user: User,
}

/// A short free-text note, owned by `user_id`.
#[derive(Debug, Clone, PartialEq, Eq)]
pub struct Thought {
    pub id: u128,
    pub user_id: u128,
    pub content: String,
    pub created_at: i64,
    pub updated_at: i64,
}

/// The body of a request that creates a thought.
#[derive(Debug, Clone, PartialEq, Eq)]
pub struct CreateThoughtRequest {
    pub content: String,
}

/// A task with an optional description and due date, owned by `user_id`.
#[derive(Debug, Clone, PartialEq, Eq)]
pub struct Todo {
    pub id: u128,
    pub user_id: u128,
    pub title: String,
    pub description: Option<String>,
    pub completed: bool,
    pub due_date: Option<i64>,
    pub created_at: i64,
    pub updated_at: i64,
}

/// The body of a request that creates a todo.
#[derive(Debug, Clone, PartialEq, Eq)]
pub struct CreateTodoRequest {
    pub title: String,
    pub description: Option<String>,
    pub due_date: Option<i64>,
}

/// The body of a request that changes a todo. A field that is `None` leaves
/// the stored value as it is.
#[derive(Debug, Clone, PartialEq, Eq)]
pub struct UpdateTodoRequest {
    pub title: Option<String>,
    pub description: Option<String>,
    pub completed: Option<bool>,
    pub due_date: Option<i64>,
}

} // verus!
