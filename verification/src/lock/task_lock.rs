//! A lock that is for tasks only.

use super::errors::{
    lock_error, typed_method_text, PhasedError, PhasedErrorKind, WaitStrategy, TASK_LOCK_TYPE,
};
use super::guards::PhasedMutexGuard;
use super::mutex_lock;
use super::mutex_lock::{
    is_cleanup_async, is_mutex_lock_read, is_update_error,
    PhasedLockState,
};
use super::transition::{lock_read_refusal_kind, lock_read_result};
use crate::bell::Rings;
use crate::graceful::wait::{lowered, CountDown};
use crate::lifecycle::leads_to;
use crate::phase::{
    phase_of, Phase, PHASE_READ, PHASE_READ_TO_CLEANUP, PHASE_SETUP, PHASE_SETUP_TO_READ,
};
use crate::transition::{may_run, read_entry};
use vstd::prelude::*;

verus! {

/// A lock that keeps its data behind a `tokio::sync::Mutex` in the `Setup` and `Cleanup`
/// phases, and in the open in the `Read` phase.
pub struct PhasedLock<T: Send + Sync> {
    lock: mutex_lock::PhasedLock<T>,
}

impl<T: Send + Sync> View for PhasedLock<T> {
    type V = PhasedLockState<T>;

    closed spec fn view(&self) -> PhasedLockState<T> {
        self.lock@
    }
}

impl<T: Send + Sync> PhasedLock<T> {
    /// The lock is one for tasks: it is well formed, and nothing is behind its
    /// `std::sync::Mutex`, which it does not use.
    pub closed spec fn wf(&self) -> bool {
        self.lock.wf() && self.lock@.std is None
    }

    /// Creates a new lock in the `Setup` phase.
    ///
    /// `data_type` names the type of the data in error messages.
    pub fn new(data: T, data_type: &'static str) -> (lock: Self)
        ensures
            lock.wf(),
            lock@ == (PhasedLockState {
                lock_type: TASK_LOCK_TYPE@,
                data_type: data_type@,
                code: PHASE_SETUP,
                read_count: 0,
                poisoned: false,
                rings: Rings { all: 0, one: 0 },
                std: None,
                tokio: Some(data),
                fixed: None,
            }),
    {
        Self { lock: mutex_lock::PhasedLock::new_for_tasks(data, TASK_LOCK_TYPE, data_type) }
    }

    /// Returns the current phase of the lock with relaxed memory ordering.
    ///
    /// One that owns the lock sees the same with any memory ordering.
    pub fn phase_fast(&self) -> (phase: Phase)
        ensures
            phase == phase_of(self@.code),
    {
        self.lock.phase_fast()
    }

    /// Returns the current phase of the lock.
    pub fn phase_exact(&self) -> (phase: Phase)
        ensures
            phase == phase_of(self@.code),
    {
        self.lock.phase_exact()
    }

    /// Returns a reference to the data in the `Read` phase, without counting the reader.
    pub fn read_fast(&self) -> (result: Result<&T, PhasedError>)
        ensures
            is_mutex_lock_read(self@, "read_fast"@, result),
    {
        self.lock.read_fast()
    }

    /// Returns a reference to the data in the `Read` phase, and counts the reader.
    ///
    /// `finish_reading_gracefully` must be called once the reader is done. The reader is
    /// counted even where there turns out to be no data.
    pub fn read_gracefully(&mut self) -> (result: Result<&T, PhasedError>)
        requires
            old(self)@.code == PHASE_READ ==> old(self)@.read_count < usize::MAX,
        ensures
            old(self).wf() ==> final(self).wf(),
            leads_to(old(self)@.moment(), final(self)@.moment()),
            is_mutex_lock_read(old(self)@, "read_gracefully"@, result),
            final(self)@ == (if old(self)@.code == PHASE_READ {
                PhasedLockState {
                    read_count: (old(self)@.read_count + 1) as usize,
                    ..old(self)@
                }
            } else {
                old(self)@
            }),
    {
        self.lock.read_gracefully()
    }

    /// Transitions the lock from the `Setup` phase to the `Read` phase.
    ///
    /// This method takes a closure `f` which is executed on the data during the transition.
    pub fn transition_to_read<F, E>(&mut self, f: F) -> (result: Result<
        (),
        PhasedError<E>,
    >) where F: FnOnce(&mut T) -> Result<(), E>
        requires
            read_entry(old(self)@.code) is Some ==> (old(self)@.tokio matches Some(data)
                ==> may_run(f, data)),
        ensures
            old(self).wf() ==> final(self).wf(),
            leads_to(old(self)@.moment(), final(self)@.moment()),
            match read_entry(old(self)@.code) {
                Some(_) => match old(self)@.tokio {
                    Some(data) => exists|d: &mut T, ran: Result<(), E>|
                        {
                            &&& #[trigger] f.ensures((d,), ran)
                            &&& *d == data
                            &&& final(self)@ == (if ran is Ok {
                                PhasedLockState {
                                    code: PHASE_READ,
                                    tokio: old(self)@.fixed,
                                    fixed: Some(*final(d)),
                                    ..old(self)@
                                }
                            } else {
                                PhasedLockState { tokio: Some(*final(d)), ..old(self)@ }
                            })
                            &&& result == lock_read_result(ran)
                        },
                    None => {
                        &&& final(self)@ == (PhasedLockState { code: PHASE_READ, ..old(self)@ })
                        &&& result == Ok::<(), PhasedError<E>>(())
                    },
                },
                None => {
                    &&& final(self)@ == old(self)@
                    &&& result == Err::<(), PhasedError<E>>(
                        lock_error(
                            phase_of(old(self)@.code),
                            lock_read_refusal_kind(old(self)@.code),
                        ),
                    )
                },
            },
    {
        self.lock.transition_to_read_async(f)
    }

    /// Transitions the lock to the `Cleanup` phase by the given strategy.
    ///
    /// A fixed wait is over before this is called, and so does nothing here.
    pub fn transition_to_cleanup(&mut self, wait_strategy: WaitStrategy) -> (result: Result<
        (),
        PhasedError,
    >)
        ensures
            old(self).wf() ==> final(self).wf(),
            leads_to(old(self)@.moment(), final(self)@.moment()),
            is_cleanup_async(old(self)@, wait_strategy, final(self)@, result),
    {
        self.lock.transition_to_cleanup_async(wait_strategy)
    }

    /// Acquires the mutex and gives mutable access to the data behind it.
    ///
    /// This method is only successful outside of the `Read` phase.
    pub fn lock_for_update(&mut self) -> (result: Result<PhasedMutexGuard<'_, T>, PhasedError>)
        ensures
            old(self).wf() ==> final(self).wf(),
            leads_to(old(self)@.moment(), final(self)@.moment()),
            match result {
                Ok(guard) => {
                    &&& old(self)@.code != PHASE_READ
                    &&& old(self)@.tokio == Some(*guard.inner)
                    &&& final(self)@ == (PhasedLockState {
                        tokio: Some(*final(guard.inner)),
                        ..old(self)@
                    })
                },
                Err(e) => is_update_error(old(self)@, e) && final(self)@ == old(self)@,
            },
    {
        match self.lock.admit_update() {
            Err(e) => Err(e),
            Ok(_) => match PhasedMutexGuard::try_new(self.lock.tokio_slot()) {
                Some(guard) => Ok(guard),
                None => vstd::pervasive::unreached(),
            },
        }
    }

    /// Counts a reader out that `read_gracefully` counted.
    ///
    /// The last one wakes a task that waits to clean up.
    pub fn finish_reading_gracefully(&mut self) -> (result: Result<CountDown, PhasedError>)
        ensures
            old(self).wf() ==> final(self).wf(),
            leads_to(old(self)@.moment(), final(self)@.moment()),
            if old(self)@.code == PHASE_SETUP || old(self)@.code == PHASE_SETUP_TO_READ {
                &&& final(self)@ == old(self)@
                &&& match result {
                    Ok(_) => false,
                    Err(e) => {
                        &&& e.phase == Phase::Setup
                        &&& e.kind matches PhasedErrorKind::CannotCallInSetupPhase(text) && text@
                            == typed_method_text(old(self)@.lock_type, old(self)@.data_type, "finish_reading_gracefully"@)
                        &&& e.source is None
                    },
                }
            } else {
                match lowered(old(self)@.read_count) {
                    None => {
                        &&& final(self)@ == old(self)@
                        &&& result == Ok::<CountDown, PhasedError>(CountDown::Excessive)
                    },
                    Some(count) => {
                        let wakes = count == 0 && old(self)@.code == PHASE_READ_TO_CLEANUP;
                        &&& final(self)@ == old(self)@.counted_down(count, wakes)
                        &&& result == Ok::<CountDown, PhasedError>(CountDown::Counted { wakes })
                    },
                }
            },
    {
        self.lock.finish_reading_gracefully_async()
    }
}

} // verus!
