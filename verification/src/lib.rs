//! The rules of a Tellonym-style question-and-answer service, verified:
//! accounts and their tokens, questions and answers, votes and follows.
//! The HTTP routes and the database live in `app/`, which hands these
//! functions plain values and carries out what they decide.

pub mod auth;
pub mod error;
pub mod follows;
pub mod jwt_util;
pub mod model;
pub mod profile;
pub mod questions;
pub mod requests;
pub mod text;
pub mod trusted;
pub mod user_guard;
pub mod users;
pub mod votes;
