//! Authentication core of a personal productivity backend.
//!
//! * [`password`]: credential hashing and the login decision.
//! * [`token`]: signed identity tokens that expire seven days after issue.
//! * [`extractor`]: from an `Authorization` header to an authenticated user.
//! * [`identifier`]: user identifiers and their text form.
//! * [`models`], [`db`]: the stored records, and what an update writes.
//! * [`error`]: the outcomes reported to callers.
//!
//! The signing secret is handed to every function that needs it; nothing
//! here reads the environment. Functions whose name ends in `_at` take the
//! current second as an argument; their namesakes read the clock.

pub mod clock;
pub mod db;
pub mod error;
pub mod extractor;
pub mod identifier;
pub mod models;
pub mod password;
pub mod token;
