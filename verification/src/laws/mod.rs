//! What the operations of the library promise.
//!
//! Each law here speaks of calls of an operation, by what `call_ensures` says of its arguments
//! and its result, and states in plain terms what comes of them.

pub mod cell;
pub mod cell_async;
pub mod cell_sync;
pub mod decisions;
pub mod flagged_lock;
pub mod graceful_cell;
pub mod graceful_cell_async;
pub mod graceful_cell_sync;
pub mod guards;
pub mod lock;
pub mod mutex_lock;
pub mod packing;
pub mod task_lock;
pub mod texts;
pub mod waits;
pub mod words;
