//! What holds of locks across their operations.

use super::errors::PhasedError;
use super::mutex_lock;
use super::phased_lock;
use super::transition::graceful_wait_result;
use crate::graceful::wait::lowered;
use crate::locking::Setup;
use crate::phase::{PHASE_CLEANUP, PHASE_READ, PHASE_SETUP};
use std::time::Duration;
use vstd::prelude::*;

verus! {

/// A well-formed lock whose data needs no mutex in `Setup` gives it to every reader in `Read`.
pub proof fn law_unlocked_data_is_read<T: Send + Sync>(
    lock: phased_lock::PhasedLock<T>,
    method: Seq<char>,
    result: Result<&T, PhasedError>,
)
    requires
        lock.wf(),
        lock@.setup == Setup::Unlock,
        lock@.code == PHASE_READ,
        phased_lock::is_lock_read(lock@, method, result),
    ensures
        result matches Ok(data) && lock@.fixed == Some(*data),
{
}

/// A well-formed lock with a mutex gives its data to every reader in `Read`.
pub proof fn law_mutex_data_is_read<T: Send + Sync>(
    lock: mutex_lock::PhasedLock<T>,
    method: Seq<char>,
    result: Result<&T, PhasedError>,
)
    requires
        lock.wf(),
        lock@.code == PHASE_READ,
        mutex_lock::is_mutex_lock_read(lock@, method, result),
    ensures
        result matches Ok(data) && lock@.fixed == Some(*data),
{
}

/// A lock with a mutex cannot be read out of `Read`.
pub proof fn law_mutex_data_is_hidden<T: Send + Sync>(
    lock: mutex_lock::PhasedLock<T>,
    method: Seq<char>,
    result: Result<&T, PhasedError>,
)
    requires
        lock@.code != PHASE_READ,
        mutex_lock::is_mutex_lock_read(lock@, method, result),
    ensures
        result is Err,
{
}

/// A cleanup of a well-formed lock with a mutex that succeeds from `Read` puts what was read
/// back behind a mutex, and keeps it as it was.
pub proof fn law_read_data_returns_to_the_mutex<T: Send + Sync>(lock: mutex_lock::PhasedLock<T>)
    requires
        lock.wf(),
        lock@.code == PHASE_READ,
    ensures
        lock@.returned_to_std().std == lock@.fixed,
        lock@.returned_to_std().fixed is None,
        lock@.returned_to_tokio().tokio == lock@.fixed,
        lock@.returned_to_tokio().fixed is None,
{
}

/// Cleaning up a lock with a mutex without waiting succeeds exactly in `Setup`, and in `Read`
/// where the mutex is not poisoned, and arrives at `Cleanup` exactly where it succeeds or the
/// lock was there before.
pub proof fn law_simple_cleanup_arrives<T>(
    before: mutex_lock::PhasedLockState<T>,
    after: mutex_lock::PhasedLockState<T>,
    result: Result<(), PhasedError>,
)
    requires
        mutex_lock::is_simple_cleanup(before, after, result),
    ensures
        result is Ok <==> before.code == PHASE_SETUP || before.code == PHASE_READ
            && !before.poisoned,
        after.code == PHASE_CLEANUP <==> result is Ok || before.code == PHASE_CLEANUP,
{
}

/// A graceful cleanup whose time was up succeeds exactly if no reader is left.
pub proof fn law_timed_out_cleanup_counts_readers(count: usize, timeout: Duration)
    ensures
        graceful_wait_result(true, count, timeout) is Ok <==> count == 0,
{
}

/// One who finishes reading a lock undoes what reading did to its count of readers.
pub proof fn law_finishing_undoes_reading_a_lock(read_count: usize)
    requires
        read_count < usize::MAX,
    ensures
        lowered((read_count + 1) as usize) == Some(read_count),
{
}

} // verus!
