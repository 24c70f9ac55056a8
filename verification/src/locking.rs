//! Provides enums for configuring locking behavior in different phases.

use vstd::prelude::*;

verus! {

/// Defines the locking strategy for the `Setup` phase.
#[derive(Debug, PartialEq, Eq, Clone, Copy, Structural)]
pub enum Setup {
    /// No lock is acquired.
    Unlock,
    /// Acquires a lock, blocking until it is available.
    Blocking,
    /// Acquires a lock without blocking.
    NonBlocking,
}

/// Defines the locking strategy for the `Read` phase.
#[derive(Debug, PartialEq, Eq, Clone, Copy, Structural)]
pub enum Read {
    /// A normal, non-graceful read.
    Fast,
    /// A graceful read that may be slower but ensures cleaner state.
    Graceful,
}

/// Defines the locking strategy for the `Cleanup` phase.
#[derive(Debug, PartialEq, Eq, Clone, Copy, Structural)]
pub enum Cleanup {
    /// Releases the acquired lock.
    Unlock,
    /// Blocks until the cleanup process is complete.
    Blocking,
    /// Performs cleanup without blocking.
    NonBlocking,
}

} // verus!
