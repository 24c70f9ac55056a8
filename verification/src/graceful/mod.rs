//! A module for graceful cleanup of phased cells.
//!
//! This module provides extensions of `PhasedCell` and its variants to support graceful
//! cleanup, allowing ongoing operations to complete before transitioning to the `Cleanup`
//! phase.

pub mod errors;
pub mod laws;
pub mod phased_cell;
pub mod phased_cell_async;
pub mod phased_cell_sync;
pub mod transition;
pub mod wait;

pub use errors::{GracefulWaitError, GracefulWaitErrorKind};
pub use phased_cell::GracefulPhasedCell;
pub use phased_cell_async::GracefulPhasedCellAsync;
pub use phased_cell_sync::GracefulPhasedCellSync;
pub use wait::{GracefulWaitAsync, GracefulWaitSync};
