//! A lock whose strategies for locking are chosen when it is made.

use super::errors::{
    lock_error, method_name, method_text, PhasedError, PhasedErrorKind, WaitStrategy,
};
use super::transition::{
    graceful_wait_result, lock_cleanup_refusal_kind, lock_read_refusal_kind, lock_read_result,
    refuse_lock_cleanup, refuse_lock_read, to_graceful_wait_result, to_lock_read_result,
};
use crate::bell::{Bell, Rings};
use crate::graceful::wait::{lower, lowered, next_wait_step, wait_step, CountDown, WaitStep};
use crate::locking::{Cleanup, Setup};
use crate::lockings::{
    cleanup_of_bits, law_cleanup_reads_back, law_setup_reads_back, set_locking_of_cleanup_to_u8,
    set_locking_of_setup_to_u8, setup_of_bits, u8_to_locking_of_cleanup, u8_to_locking_of_setup,
    LOCKING_CLEANUP_BLOCKING, LOCKING_CLEANUP_NON_BLOCKING, LOCKING_CLEANUP_UNLOCK,
    LOCKING_SETUP_BLOCKING, LOCKING_SETUP_NON_BLOCKING, LOCKING_SETUP_UNLOCK,
    U8_TO_LOCKING_CLEANUP, U8_TO_LOCKING_SETUP,
};
use crate::lifecycle::{leads_to, rests, Moment};
use crate::phase::{
    is_phase_code, phase_of, u8_to_phase, Phase, PHASE_CLEANUP, PHASE_READ, PHASE_READ_TO_CLEANUP,
    PHASE_SETUP, PHASE_SETUP_TO_CLEANUP, PHASE_SETUP_TO_READ,
};
use crate::time::duration_nanos;
use crate::transition::{
    change_phase, changed, cleanup_entry, enter_cleanup, enter_read, may_run, read_entry,
};
use std::time::Duration;
use vstd::prelude::*;

verus! {

/// A lock that takes its data through the `Setup`, `Read` and `Cleanup` phases.
///
/// The strategy for `Setup` decides where the data is kept at first: in the open, behind
/// a `std::sync::Mutex`, or behind a `tokio::sync::Mutex`. Readers that announce
/// themselves are counted, and a transition to `Cleanup` can wait for them.
pub struct PhasedLock<T: Send + Sync> {
    data_type: &'static str,
    lockings: u8,
    phase: u8,
    graceful_read_count: usize,
    graceful_flag: bool,
    graceful_poisoned: bool,
    graceful_bell: Bell,
    data_fixed: Option<T>,
    data_std: Option<T>,
    data_tokio: Option<T>,
}

/// The state of a `PhasedLock`.
pub struct PhasedLockState<T> {
    /// The name of the type of the data, for error messages.
    pub data_type: Seq<char>,
    /// The strategy for `Setup`.
    pub setup: Setup,
    /// The strategy for `Cleanup`.
    pub cleanup: Cleanup,
    /// The phase code.
    pub code: u8,
    /// The number of active readers that announced themselves.
    pub read_count: usize,
    /// Whether the last such reader has told one that waits.
    pub flag: bool,
    /// Whether the mutex of the wait is poisoned.
    pub poisoned: bool,
    /// How often tasks that wait have been woken.
    pub rings: Rings,
    /// The data in the open.
    pub fixed: Option<T>,
    /// The data behind a `std::sync::Mutex`.
    pub std: Option<T>,
    /// The data behind a `tokio::sync::Mutex`.
    pub tokio: Option<T>,
}

impl<T> PhasedLockState<T> {
    /// The moment in the life of the lock that this is.
    pub open spec fn moment(self) -> Moment<(Option<T>, Option<T>, Option<T>)> {
        Moment { code: self.code, data: (self.fixed, self.std, self.tokio) }
    }
}

impl<T: Send + Sync> View for PhasedLock<T> {
    type V = PhasedLockState<T>;

    closed spec fn view(&self) -> PhasedLockState<T> {
        PhasedLockState {
            data_type: self.data_type@,
            setup: setup_of_bits(self.lockings),
            cleanup: cleanup_of_bits(self.lockings),
            code: self.phase,
            read_count: self.graceful_read_count,
            flag: self.graceful_flag,
            poisoned: self.graceful_poisoned,
            rings: self.graceful_bell@,
            fixed: self.data_fixed,
            std: self.data_std,
            tokio: self.data_tokio,
        }
    }
}

/// Whether `result` is what a reader gets from a lock in state `state` by the method
/// `method`.
pub open spec fn is_lock_read<T>(
    state: PhasedLockState<T>,
    method: Seq<char>,
    result: Result<&T, PhasedError>,
) -> bool {
    if state.code != PHASE_READ {
        match result {
            Ok(_) => false,
            Err(e) => {
                &&& e.phase == phase_of(state.code)
                &&& e.kind matches PhasedErrorKind::CannotCallUnlessPhaseRead(text) && text@
                    == method_text(state.data_type, method)
                &&& e.source is None
            },
        }
    } else {
        match (state.fixed, result) {
            (Some(expected), Ok(data)) => *data == expected,
            (None, Err(e)) => e == lock_error::<()>(
                Phase::Read,
                PhasedErrorKind::InternalDataUnavailable,
            ),
            _ => false,
        }
    }
}

impl<T: Send + Sync> PhasedLock<T> {
    /// The phase code is a known one, the data is in exactly one place, and that is in the
    /// open where the strategy for `Setup` is to have no lock.
    pub open spec fn wf(&self) -> bool {
        &&& is_phase_code(self@.code)
        &&& self@.setup == Setup::Unlock <==> self@.fixed is Some
        &&& self@.setup == Setup::Blocking <==> self@.std is Some
        &&& self@.setup == Setup::NonBlocking <==> self@.tokio is Some
    }

    /// Creates a new lock in the `Setup` phase, with its strategies for locking.
    ///
    /// `data_type` names the type of the data in error messages.
    pub fn new(
        data: T,
        data_type: &'static str,
        locking_of_setup: Setup,
        locking_of_cleanup: Cleanup,
    ) -> (lock: Self)
        ensures
            lock.wf(),
            lock@ == (PhasedLockState {
                data_type: data_type@,
                setup: locking_of_setup,
                cleanup: locking_of_cleanup,
                code: PHASE_SETUP,
                read_count: 0,
                flag: false,
                poisoned: false,
                rings: Rings { all: 0, one: 0 },
                fixed: if locking_of_setup == Setup::Unlock {
                    Some(data)
                } else {
                    None
                },
                std: if locking_of_setup == Setup::Blocking {
                    Some(data)
                } else {
                    None
                },
                tokio: if locking_of_setup == Setup::NonBlocking {
                    Some(data)
                } else {
                    None
                },
            }),
    {
        let mut lockings: u8 = 0;
        let mut data_fixed: Option<T> = None;
        let mut data_std: Option<T> = None;
        let mut data_tokio: Option<T> = None;

        let setup_bits: u8 = match locking_of_setup {
            Setup::Unlock => {
                data_fixed = Some(data);
                LOCKING_SETUP_UNLOCK
            },
            Setup::Blocking => {
                data_std = Some(data);
                LOCKING_SETUP_BLOCKING
            },
            Setup::NonBlocking => {
                data_tokio = Some(data);
                LOCKING_SETUP_NON_BLOCKING
            },
        };
        let ghost no_lockings = lockings;
        lockings = set_locking_of_setup_to_u8(lockings, setup_bits);
        proof {
            law_setup_reads_back(no_lockings, lockings, setup_bits);
            lemma_setup_bits();
        }

        let cleanup_bits: u8 = match locking_of_cleanup {
            Cleanup::Unlock => LOCKING_CLEANUP_UNLOCK,
            Cleanup::Blocking => LOCKING_CLEANUP_BLOCKING,
            Cleanup::NonBlocking => LOCKING_CLEANUP_NON_BLOCKING,
        };
        let ghost setup_lockings = lockings;
        lockings = set_locking_of_cleanup_to_u8(lockings, cleanup_bits);
        proof {
            law_cleanup_reads_back(setup_lockings, lockings, cleanup_bits);
            lemma_cleanup_bits();
        }

        Self {
            data_type,
            lockings,
            phase: PHASE_SETUP,
            graceful_read_count: 0,
            graceful_flag: false,
            graceful_poisoned: false,
            graceful_bell: Bell::new(),
            data_fixed,
            data_std,
            data_tokio,
        }
    }

    /// Returns the current phase of the lock with relaxed memory ordering.
    ///
    /// One that owns the lock sees the same with any memory ordering.
    pub fn phase_fast(&self) -> (phase: Phase)
        ensures
            phase == phase_of(self@.code),
    {
        u8_to_phase(self.phase)
    }

    /// Returns the current phase of the lock.
    pub fn phase_exact(&self) -> (phase: Phase)
        ensures
            phase == phase_of(self@.code),
    {
        u8_to_phase(self.phase)
    }

    /// Returns the number of active readers that announced themselves.
    pub fn read_count(&self) -> (count: usize)
        ensures
            count == self@.read_count,
    {
        self.graceful_read_count
    }

    /// Returns a reference to the data in the `Read` phase, without counting the reader.
    pub fn read_fast(&self) -> (result: Result<&T, PhasedError>)
        ensures
            is_lock_read(self@, "read_fast"@, result),
    {
        if self.phase != PHASE_READ {
            return Err(
                PhasedError::new(
                    u8_to_phase(self.phase),
                    PhasedErrorKind::CannotCallUnlessPhaseRead(
                        method_name(self.data_type, "read_fast"),
                    ),
                ),
            );
        }
        match &self.data_fixed {
            Some(data) => Ok(data),
            None => Err(
                PhasedError::new(u8_to_phase(self.phase), PhasedErrorKind::InternalDataUnavailable),
            ),
        }
    }

    /// Returns a reference to the data in the `Read` phase, and counts the reader.
    ///
    /// `finish_reading_gracefully` must be called once the reader is done. The reader
    /// is counted even where there turns out to be no data.
    pub fn read_gracefully(&mut self) -> (result: Result<&T, PhasedError>)
        requires
            old(self)@.code == PHASE_READ ==> old(self)@.read_count < usize::MAX,
        ensures
            old(self).wf() ==> final(self).wf(),
            leads_to(old(self)@.moment(), final(self)@.moment()),
            rests(old(self)@.moment(), final(self)@.moment()),
            is_lock_read(old(self)@, "read_gracefully"@, result),
            final(self)@ == (if old(self)@.code == PHASE_READ {
                PhasedLockState {
                    read_count: (old(self)@.read_count + 1) as usize,
                    ..old(self)@
                }
            } else {
                old(self)@
            }),
    {
        if self.phase != PHASE_READ {
            return Err(
                PhasedError::new(
                    u8_to_phase(self.phase),
                    PhasedErrorKind::CannotCallUnlessPhaseRead(
                        method_name(self.data_type, "read_gracefully"),
                    ),
                ),
            );
        }
        self.graceful_read_count = self.graceful_read_count + 1;
        match &self.data_fixed {
            Some(data) => Ok(data),
            None => Err(
                PhasedError::new(u8_to_phase(self.phase), PhasedErrorKind::InternalDataUnavailable),
            ),
        }
    }

    /// Counts a reader out that `read_gracefully` counted.
    ///
    /// The last one tells one that waits to clean up, and wakes a task where the strategy for
    /// `Cleanup` is not to block.
    pub fn finish_reading_gracefully(&mut self) -> (result: Result<CountDown, PhasedError>)
        ensures
            old(self).wf() ==> final(self).wf(),
            leads_to(old(self)@.moment(), final(self)@.moment()),
            rests(old(self)@.moment(), final(self)@.moment()),
            if old(self)@.code == PHASE_SETUP || old(self)@.code == PHASE_SETUP_TO_READ {
                &&& final(self)@ == old(self)@
                &&& match result {
                    Ok(_) => false,
                    Err(e) => {
                        &&& e.phase == Phase::Setup
                        &&& e.kind matches PhasedErrorKind::CannotCallOnPhaseSetup(text) && text@
                            == method_text(old(self)@.data_type, "finish_reading_gracefully"@)
                        &&& e.source is None
                    },
                }
            } else {
                match lowered(old(self)@.read_count) {
                    None => {
                        &&& final(self)@ == old(self)@
                        &&& result == Ok::<CountDown, PhasedError>(CountDown::Excessive)
                    },
                    Some(count) => {
                        let wakes = count == 0 && !old(self)@.poisoned && old(self)@.code
                            == PHASE_READ_TO_CLEANUP;
                        &&& final(self)@ == (PhasedLockState {
                            read_count: count,
                            flag: old(self)@.flag || wakes,
                            rings: if wakes && old(self)@.cleanup == Cleanup::NonBlocking {
                                Rings { one: old(self)@.rings.one + 1, ..old(self)@.rings }
                            } else {
                                old(self)@.rings
                            },
                            ..old(self)@
                        })
                        &&& result == (if count == 0 && old(self)@.poisoned {
                            Err::<CountDown, PhasedError>(
                                lock_error(
                                    phase_of(old(self)@.code),
                                    PhasedErrorKind::StdMutexIsPoisoned,
                                ),
                            )
                        } else {
                            Ok(CountDown::Counted { wakes })
                        })
                    },
                }
            },
    {
        if self.phase == PHASE_SETUP || self.phase == PHASE_SETUP_TO_READ {
            return Err(
                PhasedError::new(
                    u8_to_phase(self.phase),
                    PhasedErrorKind::CannotCallOnPhaseSetup(
                        method_name(self.data_type, "finish_reading_gracefully"),
                    ),
                ),
            );
        }
        match lower(self.graceful_read_count) {
            None => Ok(CountDown::Excessive),
            Some(count) => {
                self.graceful_read_count = count;
                if count > 0 {
                    return Ok(CountDown::Counted { wakes: false });
                }
                if self.graceful_poisoned {
                    return Err(
                        PhasedError::new(
                            u8_to_phase(self.phase),
                            PhasedErrorKind::StdMutexIsPoisoned,
                        ),
                    );
                }
                if self.phase != PHASE_READ_TO_CLEANUP {
                    return Ok(CountDown::Counted { wakes: false });
                }
                self.graceful_flag = true;
                match u8_to_locking_of_cleanup(self.lockings) {
                    Cleanup::NonBlocking => self.graceful_bell.ring_for_one(),
                    _ => {},
                }
                Ok(CountDown::Counted { wakes: true })
            },
        }
    }

    /// Poisons the mutex of the wait, as a panic does that unwinds past a guard of it.
    pub fn poison(&mut self)
        ensures
            old(self).wf() ==> final(self).wf(),
            leads_to(old(self)@.moment(), final(self)@.moment()),
            rests(old(self)@.moment(), final(self)@.moment()),
            final(self)@ == (PhasedLockState { poisoned: true, ..old(self)@ }),
    {
        self.graceful_poisoned = true;
    }

    /// Begins a transition to the `Cleanup` phase that waits for the readers.
    ///
    /// A lock in `Setup` is in `Cleanup` at once. For one in `Read` the readers are to be
    /// waited for, and `end_transition_to_cleanup_gracefully` ends the transition.
    pub fn begin_transition_to_cleanup_gracefully(&mut self) -> (result: Result<(), PhasedError>)
        ensures
            old(self).wf() ==> final(self).wf(),
            leads_to(old(self)@.moment(), final(self)@.moment()),
            rests(old(self)@.moment(), final(self)@.moment()),
            if old(self)@.poisoned {
                &&& final(self)@ == old(self)@
                &&& result == Err::<(), PhasedError>(
                    lock_error(phase_of(old(self)@.code), PhasedErrorKind::StdMutexIsPoisoned),
                )
            } else if old(self)@.code == PHASE_SETUP {
                &&& final(self)@ == (PhasedLockState { code: PHASE_CLEANUP, ..old(self)@ })
                &&& result == Ok::<(), PhasedError>(())
            } else if old(self)@.code == PHASE_READ {
                &&& final(self)@ == (PhasedLockState { code: PHASE_READ_TO_CLEANUP, ..old(self)@ })
                &&& result == Ok::<(), PhasedError>(())
            } else {
                &&& final(self)@ == old(self)@
                &&& result == Err::<(), PhasedError>(
                    lock_error(
                        phase_of(old(self)@.code),
                        lock_cleanup_refusal_kind(old(self)@.code),
                    ),
                )
            },
    {
        if self.graceful_poisoned {
            return Err(
                PhasedError::new(u8_to_phase(self.phase), PhasedErrorKind::StdMutexIsPoisoned),
            );
        }
        match enter_cleanup(self.phase) {
            Some(entered) => {
                self.phase = change_phase(entered, PHASE_SETUP_TO_CLEANUP, PHASE_CLEANUP);
                Ok(())
            },
            None => Err(refuse_lock_cleanup(self.phase)),
        }
    }

    /// Looks at the readers for one that has waited to clean up for `elapsed` nanoseconds
    /// since there were `count` of them.
    ///
    /// Returns whether the wait is over and, if so, whether because the time is up, and
    /// how many nanoseconds there are until the next look if it is not. Returns an error
    /// where the mutex of the wait has been poisoned meanwhile.
    pub fn wait_for_readers(&self, count: usize, timeout: Duration, elapsed: u128) -> (result:
        Result<WaitStep, PhasedError>)
        ensures
            result == (if count == 0 || self@.flag {
                Ok::<WaitStep, PhasedError>(WaitStep::Finished)
            } else if self@.poisoned {
                Err(lock_error(Phase::Cleanup, PhasedErrorKind::StdMutexIsPoisoned))
            } else {
                Ok(wait_step(count, elapsed, duration_nanos(timeout)))
            }),
    {
        if count == 0 || self.graceful_flag {
            return Ok(WaitStep::Finished);
        }
        if self.graceful_poisoned {
            return Err(
                PhasedError::new(
                    u8_to_phase(PHASE_READ_TO_CLEANUP),
                    PhasedErrorKind::StdMutexIsPoisoned,
                ),
            );
        }
        Ok(next_wait_step(count, elapsed, timeout.as_nanos()))
    }

    /// Ends a transition to the `Cleanup` phase that has waited for the readers.
    ///
    /// `timed_out` tells whether the wait ended because the time was up, which is an error
    /// only where readers are still active.
    pub fn end_transition_to_cleanup_gracefully(
        &mut self,
        timed_out: bool,
        timeout: Duration,
    ) -> (result: Result<(), PhasedError>)
        ensures
            old(self).wf() ==> final(self).wf(),
            leads_to(old(self)@.moment(), final(self)@.moment()),
            rests(old(self)@.moment(), final(self)@.moment()),
            final(self)@ == (PhasedLockState {
                code: changed(old(self)@.code, PHASE_READ_TO_CLEANUP, PHASE_CLEANUP),
                ..old(self)@
            }),
            result == graceful_wait_result(timed_out, old(self)@.read_count, timeout),
    {
        self.phase = change_phase(self.phase, PHASE_READ_TO_CLEANUP, PHASE_CLEANUP);
        to_graceful_wait_result(timed_out, self.graceful_read_count, timeout)
    }

    /// Transitions the lock to the `Cleanup` phase and waits for the readers, for `timeout`
    /// at most.
    ///
    /// No reader can finish while the caller has the lock borrowed, so a wait for active
    /// readers ends when the time is up, unless the last of an earlier wait has already
    /// told.
    pub fn transition_to_cleanup_gracefully(&mut self, timeout: Duration) -> (result: Result<
        (),
        PhasedError,
    >)
        ensures
            old(self).wf() ==> final(self).wf(),
            leads_to(old(self)@.moment(), final(self)@.moment()),
            rests(old(self)@.moment(), final(self)@.moment()),
            if old(self)@.poisoned {
                &&& final(self)@ == old(self)@
                &&& result == Err::<(), PhasedError>(
                    lock_error(phase_of(old(self)@.code), PhasedErrorKind::StdMutexIsPoisoned),
                )
            } else if cleanup_entry(old(self)@.code) is Some {
                &&& final(self)@ == (PhasedLockState { code: PHASE_CLEANUP, ..old(self)@ })
                &&& result == graceful_wait_result(
                    old(self)@.code == PHASE_READ && !old(self)@.flag,
                    old(self)@.read_count,
                    timeout,
                )
            } else {
                &&& final(self)@ == old(self)@
                &&& result == Err::<(), PhasedError>(
                    lock_error(
                        phase_of(old(self)@.code),
                        lock_cleanup_refusal_kind(old(self)@.code),
                    ),
                )
            },
    {
        let entered_at: u8 = self.phase;
        match self.begin_transition_to_cleanup_gracefully() {
            Err(e) => {
                return Err(e);
            },
            Ok(_) => {},
        }
        if entered_at != PHASE_READ {
            return Ok(());
        }
        let count: usize = self.graceful_read_count;
        let timed_out = match self.wait_for_readers(count, timeout, timeout.as_nanos()) {
            Err(e) => {
                return Err(e);
            },
            Ok(WaitStep::Finished) => false,
            Ok(_) => true,
        };
        self.end_transition_to_cleanup_gracefully(timed_out, timeout)
    }

    /// Transitions the lock to the `Cleanup` phase without waiting for the readers.
    pub fn transition_to_cleanup_simply(&mut self) -> (result: Result<(), PhasedError>)
        ensures
            old(self).wf() ==> final(self).wf(),
            leads_to(old(self)@.moment(), final(self)@.moment()),
            rests(old(self)@.moment(), final(self)@.moment()),
            if cleanup_entry(old(self)@.code) is Some {
                &&& final(self)@ == (PhasedLockState { code: PHASE_CLEANUP, ..old(self)@ })
                &&& result == Ok::<(), PhasedError>(())
            } else {
                &&& final(self)@ == old(self)@
                &&& result == Err::<(), PhasedError>(
                    lock_error(
                        phase_of(old(self)@.code),
                        lock_cleanup_refusal_kind(old(self)@.code),
                    ),
                )
            },
    {
        match enter_cleanup(self.phase) {
            Some(_) => {
                self.phase = PHASE_CLEANUP;
                Ok(())
            },
            None => Err(refuse_lock_cleanup(self.phase)),
        }
    }

    /// Transitions the lock to the `Cleanup` phase by the given strategy.
    ///
    /// A fixed wait is over before this is called, and so does nothing here.
    pub fn transition_to_cleanup(&mut self, strategy: WaitStrategy) -> (result: Result<
        (),
        PhasedError,
    >)
        ensures
            old(self).wf() ==> final(self).wf(),
            leads_to(old(self)@.moment(), final(self)@.moment()),
            rests(old(self)@.moment(), final(self)@.moment()),
            match strategy {
                WaitStrategy::GracefulWait { timeout } => {
                    if old(self)@.poisoned {
                        &&& final(self)@ == old(self)@
                        &&& result == Err::<(), PhasedError>(
                            lock_error(
                                phase_of(old(self)@.code),
                                PhasedErrorKind::StdMutexIsPoisoned,
                            ),
                        )
                    } else if cleanup_entry(old(self)@.code) is Some {
                        &&& final(self)@ == (PhasedLockState { code: PHASE_CLEANUP, ..old(self)@ })
                        &&& result == graceful_wait_result(
                            old(self)@.code == PHASE_READ && !old(self)@.flag,
                            old(self)@.read_count,
                            timeout,
                        )
                    } else {
                        &&& final(self)@ == old(self)@
                        &&& result == Err::<(), PhasedError>(
                            lock_error(
                                phase_of(old(self)@.code),
                                lock_cleanup_refusal_kind(old(self)@.code),
                            ),
                        )
                    }
                },
                _ => {
                    if cleanup_entry(old(self)@.code) is Some {
                        &&& final(self)@ == (PhasedLockState { code: PHASE_CLEANUP, ..old(self)@ })
                        &&& result == Ok::<(), PhasedError>(())
                    } else {
                        &&& final(self)@ == old(self)@
                        &&& result == Err::<(), PhasedError>(
                            lock_error(
                                phase_of(old(self)@.code),
                                lock_cleanup_refusal_kind(old(self)@.code),
                            ),
                        )
                    }
                },
            },
    {
        match strategy {
            WaitStrategy::NoWait => self.transition_to_cleanup_simply(),
            WaitStrategy::FixedWait(_) => self.transition_to_cleanup_simply(),
            WaitStrategy::GracefulWait { timeout } => self.transition_to_cleanup_gracefully(
                timeout,
            ),
        }
    }

    /// Claims the lock for a transition from the `Setup` phase to the `Read` phase.
    pub fn begin_transition_to_read(&mut self) -> (result: Result<(), PhasedError>)
        ensures
            old(self).wf() ==> final(self).wf(),
            leads_to(old(self)@.moment(), final(self)@.moment()),
            rests(old(self)@.moment(), final(self)@.moment()),
            match read_entry(old(self)@.code) {
                Some(entered) => {
                    &&& final(self)@ == (PhasedLockState { code: entered, ..old(self)@ })
                    &&& result == Ok::<(), PhasedError>(())
                },
                None => {
                    &&& final(self)@ == old(self)@
                    &&& result == Err::<(), PhasedError>(
                        lock_error(
                            phase_of(old(self)@.code),
                            lock_read_refusal_kind(old(self)@.code),
                        ),
                    )
                },
            },
    {
        match enter_read(self.phase) {
            Some(entered) => {
                self.phase = entered;
                Ok(())
            },
            None => Err(refuse_lock_read(self.phase)),
        }
    }

    /// Runs the closure of a transition to the `Read` phase and ends the transition.
    ///
    /// The lock ends in `Read` where the closure succeeds, and is back in `Setup` where it
    /// fails and where the data is not in the open. A closure that panics leaves the lock in
    /// transition.
    pub fn finish_transition_to_read<F, E>(&mut self, f: F) -> (result: Result<
        (),
        PhasedError<E>,
    >) where F: FnOnce(&mut T) -> Result<(), E>
        requires
            old(self)@.code == PHASE_SETUP_TO_READ,
            old(self)@.fixed matches Some(data) ==> may_run(f, data),
        ensures
            old(self).wf() ==> final(self).wf(),
            leads_to(old(self)@.moment(), final(self)@.moment()),
            rests(old(self)@.moment(), final(self)@.moment()),
            match old(self)@.fixed {
                Some(data) => exists|d: &mut T, ran: Result<(), E>|
                    {
                        &&& #[trigger] f.ensures((d,), ran)
                        &&& *d == data
                        &&& final(self)@ == (PhasedLockState {
                            code: if ran is Ok {
                                PHASE_READ
                            } else {
                                PHASE_SETUP
                            },
                            fixed: Some(*final(d)),
                            ..old(self)@
                        })
                        &&& result == lock_read_result(ran)
                    },
                None => {
                    &&& final(self)@ == (PhasedLockState { code: PHASE_SETUP, ..old(self)@ })
                    &&& result == Err::<(), PhasedError<E>>(
                        lock_error(Phase::Setup, PhasedErrorKind::InternalDataUnavailable),
                    )
                },
            },
    {
        match &mut self.data_fixed {
            None => {
                self.phase = PHASE_SETUP;
                Err(
                    PhasedError::new(
                        u8_to_phase(PHASE_SETUP_TO_READ),
                        PhasedErrorKind::InternalDataUnavailable,
                    ),
                )
            },
            Some(data) => {
                let ran = f(data);
                self.phase = if ran.is_ok() {
                    PHASE_READ
                } else {
                    PHASE_SETUP
                };
                to_lock_read_result(ran)
            },
        }
    }

    /// Transitions the lock from the `Setup` phase to the `Read` phase.
    ///
    /// This method takes a closure `f` which is executed on the data during the transition.
    pub fn transition_to_read<F, E>(&mut self, f: F) -> (result: Result<
        (),
        PhasedError<E>,
    >) where F: FnOnce(&mut T) -> Result<(), E>
        requires
            read_entry(old(self)@.code) is Some ==> (old(self)@.fixed matches Some(data)
                ==> may_run(f, data)),
        ensures
            old(self).wf() ==> final(self).wf(),
            leads_to(old(self)@.moment(), final(self)@.moment()),
            rests(old(self)@.moment(), final(self)@.moment()),
            match read_entry(old(self)@.code) {
                Some(_) => match old(self)@.fixed {
                    Some(data) => exists|d: &mut T, ran: Result<(), E>|
                        {
                            &&& #[trigger] f.ensures((d,), ran)
                            &&& *d == data
                            &&& final(self)@ == (PhasedLockState {
                                code: if ran is Ok {
                                    PHASE_READ
                                } else {
                                    PHASE_SETUP
                                },
                                fixed: Some(*final(d)),
                                ..old(self)@
                            })
                            &&& result == lock_read_result(ran)
                        },
                    None => {
                        &&& final(self)@ == old(self)@
                        &&& result == Err::<(), PhasedError<E>>(
                            lock_error(Phase::Setup, PhasedErrorKind::InternalDataUnavailable),
                        )
                    },
                },
                None => {
                    &&& final(self)@ == old(self)@
                    &&& result == Err::<(), PhasedError<E>>(
                        lock_error(
                            phase_of(old(self)@.code),
                            lock_read_refusal_kind(old(self)@.code),
                        ),
                    )
                },
            },
    {
        match enter_read(self.phase) {
            Some(entered) => {
                self.phase = entered;
                self.finish_transition_to_read(f)
            },
            None => Err(refuse_lock_read(self.phase)),
        }
    }

    /// Returns a mutable reference to the data of a lock that is in the open in the `Setup`
    /// phase.
    pub fn get_mut_for_setup(&mut self) -> (result: Result<&mut T, PhasedError>)
        ensures
            old(self).wf() ==> final(self).wf(),
            leads_to(old(self)@.moment(), final(self)@.moment()),
            rests(old(self)@.moment(), final(self)@.moment()),
            match result {
                Ok(data) => {
                    &&& old(self)@.setup == Setup::Unlock && old(self)@.code == PHASE_SETUP
                    &&& old(self)@.fixed == Some(*data)
                    &&& final(self)@ == (PhasedLockState { fixed: Some(*final(data)), ..old(self)@ })
                },
                Err(e) => {
                    &&& final(self)@ == old(self)@
                    &&& e.phase == phase_of(old(self)@.code)
                    &&& e.source is None
                    &&& if old(self)@.setup != Setup::Unlock {
                        e.kind matches PhasedErrorKind::CannotCallUnlessSetupUnlock(text) && text@
                            == method_text(old(self)@.data_type, "get_mut_for_setup"@)
                    } else if old(self)@.code != PHASE_SETUP {
                        e.kind matches PhasedErrorKind::CannotCallUnlessPhaseSetup(text) && text@
                            == method_text(old(self)@.data_type, "get_mut_for_setup"@)
                    } else {
                        old(self)@.fixed is None && e.kind is InternalDataUnavailable
                    }
                },
            },
    {
        if u8_to_locking_of_setup(self.lockings) != Setup::Unlock {
            return Err(
                PhasedError::new(
                    u8_to_phase(self.phase),
                    PhasedErrorKind::CannotCallUnlessSetupUnlock(
                        method_name(self.data_type, "get_mut_for_setup"),
                    ),
                ),
            );
        }
        if self.phase != PHASE_SETUP {
            return Err(
                PhasedError::new(
                    u8_to_phase(self.phase),
                    PhasedErrorKind::CannotCallUnlessPhaseSetup(
                        method_name(self.data_type, "get_mut_for_setup"),
                    ),
                ),
            );
        }
        match &mut self.data_fixed {
            Some(data) => Ok(data),
            None => Err(
                PhasedError::new(u8_to_phase(PHASE_SETUP), PhasedErrorKind::InternalDataUnavailable),
            ),
        }
    }

    /// Returns a mutable reference to the data of a lock that is in the open in the
    /// `Cleanup` phase.
    pub fn get_mut_for_cleanup(&mut self) -> (result: Result<&mut T, PhasedError>)
        ensures
            old(self).wf() ==> final(self).wf(),
            leads_to(old(self)@.moment(), final(self)@.moment()),
            rests(old(self)@.moment(), final(self)@.moment()),
            match result {
                Ok(data) => {
                    &&& old(self)@.cleanup == Cleanup::Unlock && old(self)@.code == PHASE_CLEANUP
                    &&& old(self)@.fixed == Some(*data)
                    &&& final(self)@ == (PhasedLockState { fixed: Some(*final(data)), ..old(self)@ })
                },
                Err(e) => {
                    &&& final(self)@ == old(self)@
                    &&& e.phase == phase_of(old(self)@.code)
                    &&& e.source is None
                    &&& if old(self)@.cleanup != Cleanup::Unlock {
                        e.kind matches PhasedErrorKind::CannotCallUnlessCleanupUnlock(text) && text@
                            == method_text(old(self)@.data_type, "get_mut_for_cleanup"@)
                    } else if old(self)@.code != PHASE_CLEANUP {
                        e.kind matches PhasedErrorKind::CannotCallUnlessPhaseCleanup(text) && text@
                            == method_text(old(self)@.data_type, "get_mut_for_cleanup"@)
                    } else {
                        old(self)@.fixed is None && e.kind is InternalDataUnavailable
                    }
                },
            },
    {
        if u8_to_locking_of_cleanup(self.lockings) != Cleanup::Unlock {
            return Err(
                PhasedError::new(
                    u8_to_phase(self.phase),
                    PhasedErrorKind::CannotCallUnlessCleanupUnlock(
                        method_name(self.data_type, "get_mut_for_cleanup"),
                    ),
                ),
            );
        }
        if self.phase != PHASE_CLEANUP {
            return Err(
                PhasedError::new(
                    u8_to_phase(self.phase),
                    PhasedErrorKind::CannotCallUnlessPhaseCleanup(
                        method_name(self.data_type, "get_mut_for_cleanup"),
                    ),
                ),
            );
        }
        match &mut self.data_fixed {
            Some(data) => Ok(data),
            None => Err(
                PhasedError::new(
                    u8_to_phase(PHASE_CLEANUP),
                    PhasedErrorKind::InternalDataUnavailable,
                ),
            ),
        }
    }
}

/// Each strategy for `Setup` reads back from its own bits.
proof fn lemma_setup_bits()
    ensures
        setup_of_bits(LOCKING_SETUP_UNLOCK) == Setup::Unlock,
        setup_of_bits(LOCKING_SETUP_BLOCKING) == Setup::Blocking,
        setup_of_bits(LOCKING_SETUP_NON_BLOCKING) == Setup::NonBlocking,
{
    assert(LOCKING_SETUP_UNLOCK & U8_TO_LOCKING_SETUP == LOCKING_SETUP_UNLOCK) by (bit_vector);
    assert(LOCKING_SETUP_BLOCKING & U8_TO_LOCKING_SETUP == LOCKING_SETUP_BLOCKING) by (bit_vector);
    assert(LOCKING_SETUP_NON_BLOCKING & U8_TO_LOCKING_SETUP == LOCKING_SETUP_NON_BLOCKING)
        by (bit_vector);
}

/// Each strategy for `Cleanup` reads back from its own bits.
proof fn lemma_cleanup_bits()
    ensures
        cleanup_of_bits(LOCKING_CLEANUP_UNLOCK) == Cleanup::Unlock,
        cleanup_of_bits(LOCKING_CLEANUP_BLOCKING) == Cleanup::Blocking,
        cleanup_of_bits(LOCKING_CLEANUP_NON_BLOCKING) == Cleanup::NonBlocking,
{
    assert(LOCKING_CLEANUP_UNLOCK & U8_TO_LOCKING_CLEANUP == LOCKING_CLEANUP_UNLOCK)
        by (bit_vector);
    assert(LOCKING_CLEANUP_BLOCKING & U8_TO_LOCKING_CLEANUP == LOCKING_CLEANUP_BLOCKING)
        by (bit_vector);
    assert(LOCKING_CLEANUP_NON_BLOCKING & U8_TO_LOCKING_CLEANUP == LOCKING_CLEANUP_NON_BLOCKING)
        by (bit_vector);
}

} // verus!
