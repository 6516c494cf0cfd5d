//! Client-side cache and synchronisation layer for a remote issue store.
//!
//! Every entity handle owns its own write-once field cells. The cells are
//! filled on demand from a remote service that the caller supplies as a
//! closure, two handles of one entity can be merged without disturbing a value
//! that was already observed, and mutable entities read and write their
//! configuration under a policy that is fixed when the handle is made.

pub mod api_core;
pub mod cache;
pub mod comments;
pub mod config;
pub mod errors;
pub mod identity;
pub mod issue_data;
pub mod lazy;
pub mod models;
pub mod raw_issue_response;
pub mod repository;
