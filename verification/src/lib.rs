//! An in-memory todo service: the records, the store that holds them, and
//! the decisions behind each HTTP operation, with machine-checked contracts.

pub mod history;
pub mod ident;
pub mod laws;
pub mod random;
pub mod service;
pub mod status;
pub mod store;
pub mod task_state;
pub mod todo;
