//! The adapters for the identity provider: for each use case, the step from what
//! came of its requests so far to the next request or the outcome.

pub mod auth;
pub mod common;
pub mod role;
pub mod user;
