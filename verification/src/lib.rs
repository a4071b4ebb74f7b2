//! Task lifecycle tracking: a state machine over user-submitted tasks,
//! a keyed store of task records, and the service operations that read,
//! validate and persist state transitions.

pub mod service;
pub mod store;
pub mod task;
