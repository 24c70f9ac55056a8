//! Locks that take their data through the phases.

pub mod errors;
pub mod flagged_lock;
pub mod guards;
pub mod laws;
pub mod mutex_lock;
pub mod phased_lock;
pub mod task_lock;
pub mod transition;

pub use errors::{PhasedError, PhasedErrorKind, WaitStrategy};
pub use phased_lock::PhasedLock;
