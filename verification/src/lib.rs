//! A small relational core for a membership service: users, chapters, and
//! chapter memberships, with create/read/list/update/delete operations.
//!
//! The heart of the crate is the in-memory table set in `store`, whose
//! invariant captures the relational rules: primary keys are unique, the
//! composite key of a membership is unique, and every membership references
//! an existing user and an existing chapter. The `handlers` module shapes
//! those operations into status codes and error messages the way an HTTP
//! layer expects them, and `laws` states the crate-level guarantees that
//! relate several operations.

pub mod handlers;
pub mod laws;
pub mod model;
pub mod store;
