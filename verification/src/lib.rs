//! An in-memory store for todo items and user accounts, with input
//! validation and password-based authentication.
//!
//! The two stores (`todo::TodoStore`, `user::UserStore`) own their
//! collections outright; a caller that shares a store between threads
//! wraps it in a mutual-exclusion lock and performs each operation as
//! one call under that lock, so every operation is atomic.

pub mod error;
pub mod trusted;
pub mod validate;
pub mod todo;
pub mod user;


