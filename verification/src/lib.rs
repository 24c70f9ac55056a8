//! A library for managing data through distinct lifecycle phases: `Setup` -> `Read` -> `Cleanup`.
//!
//! This crate provides "phased cells", which enforce a specific lifecycle for the data they
//! manage. This is useful for data that is initialized once, read for a period, and then
//! explicitly destroyed.
//!
//! The lifecycle is divided into three phases:
//!
//! - **`Setup`**: The initial phase. The data can be mutably accessed for initialization.
//! - **`Read`**: The operational phase. The data can only be accessed immutably.
//! - **`Cleanup`**: The final phase. The data can be mutably accessed again for
//!   deconstruction or resource cleanup.
//!
//! A cell here is a state machine that is owned by one caller at a time, and each of its
//! methods is one step of it. A transition takes two steps, in between which the cell is in
//! transition and other steps can come. What the cells decide, they decide by functions of
//! plain values, by which cells that are shared between threads or tasks can decide too.

pub mod bell;
pub mod errors;
pub mod flags;
pub mod graceful;
pub mod guards;
pub mod laws;
pub mod lifecycle;
pub mod lock;
pub mod locking;
pub mod lockings;
pub mod phase;
pub mod phased_cell;
pub mod phased_cell_async;
pub mod phased_cell_sync;
pub mod slots;
pub mod time;
pub mod transition;
pub mod wait;

pub use errors::{PhasedError, PhasedErrorKind};
pub use guards::{StdMutexGuard, TokioMutexGuard};
pub use phase::Phase;
pub use phased_cell::PhasedCell;
pub use phased_cell_async::PhasedCellAsync;
pub use phased_cell_sync::PhasedCellSync;
