//! A lock whose data is behind a mutex outside of the `Read` phase.

use super::errors::{
    lock_error, typed_method_name, typed_method_text, PhasedError, PhasedErrorKind, WaitStrategy,
    LOCK_TYPE,
};
use super::guards::PhasedTokioMutexGuard;
use super::transition::{
    direct_cleanup_entry, enter_cleanup_directly, graceful_wait_result, lock_cleanup_refusal_kind,
    lock_read_refusal_kind, lock_read_result, refuse_lock_cleanup, refuse_lock_read,
    to_graceful_wait_result, to_lock_read_result,
};
use crate::bell::{Bell, Rings};
use crate::graceful::wait::{lower, lowered, next_wait_step, wait_step, CountDown, WaitStep};
use crate::lifecycle::{leads_to, Moment};
use crate::phase::{
    is_phase_code, phase_of, u8_to_phase, Phase, PHASE_CLEANUP, PHASE_READ, PHASE_READ_TO_CLEANUP,
    PHASE_SETUP, PHASE_SETUP_TO_READ,
};
use crate::time::duration_nanos;
use crate::transition::{changed, enter_read, may_run, read_entry};
use std::time::Duration;
use vstd::prelude::*;

verus! {

/// `tokio::runtime::Handle::try_current`, asked only whether it succeeds: whether the
/// caller runs on a tokio runtime. That depends on where the call is made, so nothing
/// is claimed of the answer.
#[verifier::external_body]
fn is_on_tokio_runtime() -> (on_runtime: bool) {
    tokio::runtime::Handle::try_current().is_ok()
}

/// A lock that keeps its data behind a mutex in the `Setup` and `Cleanup` phases.
///
/// A lock made by `new` has its data behind a `std::sync::Mutex` and is for threads; one
/// made by `new_for_async` has it behind a `tokio::sync::Mutex` and is for tasks. Either
/// has its data in the open in the `Read` phase. Readers that announce themselves are
/// counted, and a transition to `Cleanup` can wait for them.
pub struct PhasedLock<T: Send + Sync> {
    lock_type: &'static str,
    data_type: &'static str,
    phase: u8,
    read_count: usize,
    std_poisoned: bool,
    wait_bell: Bell,
    data_std: Option<T>,
    data_tokio: Option<T>,
    data_fixed: Option<T>,
}

/// The state of a `PhasedLock`.
pub struct PhasedLockState<T> {
    /// The name of the type of the lock, for error messages.
    pub lock_type: Seq<char>,
    /// The name of the type of the data, for error messages.
    pub data_type: Seq<char>,
    /// The phase code.
    pub code: u8,
    /// The number of active readers that announced themselves.
    pub read_count: usize,
    /// Whether the `std::sync::Mutex` is poisoned.
    pub poisoned: bool,
    /// How often tasks that wait have been woken.
    pub rings: Rings,
    /// The data behind the `std::sync::Mutex`.
    pub std: Option<T>,
    /// The data behind the `tokio::sync::Mutex`.
    pub tokio: Option<T>,
    /// The data in the open.
    pub fixed: Option<T>,
}

impl<T: Send + Sync> View for PhasedLock<T> {
    type V = PhasedLockState<T>;

    closed spec fn view(&self) -> PhasedLockState<T> {
        PhasedLockState {
            lock_type: self.lock_type@,
            data_type: self.data_type@,
            code: self.phase,
            read_count: self.read_count,
            poisoned: self.std_poisoned,
            rings: self.wait_bell@,
            std: self.data_std,
            tokio: self.data_tokio,
            fixed: self.data_fixed,
        }
    }
}

impl<T> PhasedLockState<T> {
    /// The moment in the life of the lock that this is.
    pub open spec fn moment(self) -> Moment<(Option<T>, Option<T>, Option<T>)> {
        Moment { code: self.code, data: (self.fixed, self.std, self.tokio) }
    }

    /// The state once the data is back behind the `std::sync::Mutex`, unless something is
    /// there already.
    pub open spec fn returned_to_std(self) -> PhasedLockState<T> {
        if self.std is None {
            PhasedLockState { std: self.fixed, fixed: self.std, ..self }
        } else {
            self
        }
    }

    /// The state once the data is back behind the `tokio::sync::Mutex`, unless something
    /// is there already.
    pub open spec fn returned_to_tokio(self) -> PhasedLockState<T> {
        if self.tokio is None {
            PhasedLockState { tokio: self.fixed, fixed: self.tokio, ..self }
        } else {
            self
        }
    }

    /// The state once a reader has been counted out, with `count` left, and a task that waits
    /// has been woken if `wakes`.
    pub open spec fn counted_down(self, count: usize, wakes: bool) -> PhasedLockState<T> {
        PhasedLockState {
            read_count: count,
            rings: if wakes {
                Rings { one: self.rings.one + 1, ..self.rings }
            } else {
                self.rings
            },
            ..self
        }
    }

    /// The number of places in which there is data.
    pub open spec fn stored(self) -> nat {
        (if self.std is Some {
            1nat
        } else {
            0
        }) + (if self.tokio is Some {
            1nat
        } else {
            0
        }) + (if self.fixed is Some {
            1nat
        } else {
            0
        })
    }
}

/// Whether `result` is what a reader gets from a lock in state `state` by the method
/// `method`.
pub open spec fn is_mutex_lock_read<T>(
    state: PhasedLockState<T>,
    method: Seq<char>,
    result: Result<&T, PhasedError>,
) -> bool {
    if state.code != PHASE_READ {
        match result {
            Ok(_) => false,
            Err(e) => {
                &&& e.phase == phase_of(state.code)
                &&& e.kind matches PhasedErrorKind::CannotCallOutOfReadPhase(text) && text@
                    == typed_method_text(state.lock_type, state.data_type, method)
                &&& e.source is None
            },
        }
    } else {
        match (state.fixed, result) {
            (Some(expected), Ok(data)) => *data == expected,
            (None, Err(e)) => e == lock_error::<()>(
                Phase::Read,
                PhasedErrorKind::InternalDataIsEmpty,
            ),
            _ => false,
        }
    }
}

/// Whether `result` is the error of a blocking method that is called on a tokio runtime.
pub open spec fn is_runtime_error<T, E>(
    state: PhasedLockState<T>,
    method: Seq<char>,
    result: Result<(), PhasedError<E>>,
) -> bool {
    match result {
        Ok(_) => false,
        Err(e) => {
            &&& e.phase == phase_of(state.code)
            &&& e.kind matches PhasedErrorKind::CannotCallOnTokioRuntime(text) && text@
                == typed_method_text(state.lock_type, state.data_type, method)
            &&& e.source is None
        },
    }
}

/// Whether a transition to `Cleanup` of a lock with a `std::sync::Mutex`, by the given
/// strategy and by one that owns the lock, takes it from `before` to `after` and returns
/// `result`.
pub open spec fn is_cleanup<T>(
    before: PhasedLockState<T>,
    strategy: WaitStrategy,
    after: PhasedLockState<T>,
    result: Result<(), PhasedError>,
) -> bool {
    match strategy {
        WaitStrategy::GracefulWait { timeout } => is_graceful_cleanup(
            before,
            timeout,
            after,
            result,
        ),
        _ => is_simple_cleanup(before, after, result),
    }
}

/// Whether a transition to `Cleanup` that does not wait takes a lock with a
/// `std::sync::Mutex` from `before` to `after` and returns `result`.
pub open spec fn is_simple_cleanup<T>(
    before: PhasedLockState<T>,
    after: PhasedLockState<T>,
    result: Result<(), PhasedError>,
) -> bool {
    if before.code == PHASE_READ {
        if before.poisoned {
            &&& after == before
            &&& result == Err::<(), PhasedError>(
                lock_error(Phase::Cleanup, PhasedErrorKind::MutexIsPoisoned),
            )
        } else {
            &&& after == (PhasedLockState { code: PHASE_CLEANUP, ..before.returned_to_std() })
            &&& result == Ok::<(), PhasedError>(())
        }
    } else if before.code == PHASE_SETUP {
        &&& after == (PhasedLockState { code: PHASE_CLEANUP, ..before })
        &&& result == Ok::<(), PhasedError>(())
    } else {
        &&& after == before
        &&& result == Err::<(), PhasedError>(
            lock_error(phase_of(before.code), lock_cleanup_refusal_kind(before.code)),
        )
    }
}

/// Whether a transition to `Cleanup` that waits for the readers takes a lock with a
/// `std::sync::Mutex` from `before` to `after` and returns `result`.
pub open spec fn is_graceful_cleanup<T>(
    before: PhasedLockState<T>,
    timeout: Duration,
    after: PhasedLockState<T>,
    result: Result<(), PhasedError>,
) -> bool {
    if before.poisoned {
        &&& after == before
        &&& result == Err::<(), PhasedError>(
            lock_error(phase_of(before.code), PhasedErrorKind::MutexIsPoisoned),
        )
    } else if before.code == PHASE_READ {
        &&& after == (PhasedLockState { code: PHASE_CLEANUP, ..before.returned_to_std() })
        &&& result == graceful_wait_result(true, before.read_count, timeout)
    } else if before.code == PHASE_SETUP {
        &&& after == (PhasedLockState { code: PHASE_CLEANUP, ..before })
        &&& result == Ok::<(), PhasedError>(())
    } else {
        &&& after == before
        &&& result == Err::<(), PhasedError>(
            lock_error(phase_of(before.code), lock_cleanup_refusal_kind(before.code)),
        )
    }
}

impl<T: Send + Sync> PhasedLock<T> {
    /// The phase code is a known one, and the data is in exactly one place, which is in
    /// the open in the `Read` phase and on the way from there to `Cleanup`, and behind a
    /// mutex in any other.
    pub open spec fn wf(&self) -> bool {
        &&& is_phase_code(self@.code)
        &&& self@.stored() == 1
        &&& (self@.code == PHASE_READ || self@.code == PHASE_READ_TO_CLEANUP) <==> self@.fixed is Some
    }

    /// Creates a new lock in the `Setup` phase, for threads.
    ///
    /// `data_type` names the type of the data in error messages.
    pub fn new(data: T, data_type: &'static str) -> (lock: Self)
        ensures
            lock.wf(),
            lock@ == (PhasedLockState {
                lock_type: LOCK_TYPE@,
                data_type: data_type@,
                code: PHASE_SETUP,
                read_count: 0,
                poisoned: false,
                rings: Rings { all: 0, one: 0 },
                std: Some(data),
                tokio: None,
                fixed: None,
            }),
    {
        Self {
            lock_type: LOCK_TYPE,
            data_type,
            phase: PHASE_SETUP,
            read_count: 0,
            std_poisoned: false,
            wait_bell: Bell::new(),
            data_std: Some(data),
            data_tokio: None,
            data_fixed: None,
        }
    }

    /// Creates a new lock in the `Setup` phase, for tasks.
    ///
    /// `data_type` names the type of the data in error messages.
    pub fn new_for_async(data: T, data_type: &'static str) -> (lock: Self)
        ensures
            lock.wf(),
            lock@ == (PhasedLockState {
                lock_type: LOCK_TYPE@,
                data_type: data_type@,
                code: PHASE_SETUP,
                read_count: 0,
                poisoned: false,
                rings: Rings { all: 0, one: 0 },
                std: None,
                tokio: Some(data),
                fixed: None,
            }),
    {
        Self::new_for_tasks(data, LOCK_TYPE, data_type)
    }

    /// Creates a new lock in the `Setup` phase, for tasks, that `lock_type` names in error
    /// messages.
    pub(crate) fn new_for_tasks(
        data: T,
        lock_type: &'static str,
        data_type: &'static str,
    ) -> (lock: Self)
        ensures
            lock.wf(),
            lock@ == (PhasedLockState {
                lock_type: lock_type@,
                data_type: data_type@,
                code: PHASE_SETUP,
                read_count: 0,
                poisoned: false,
                rings: Rings { all: 0, one: 0 },
                std: None,
                tokio: Some(data),
                fixed: None,
            }),
    {
        Self {
            lock_type,
            data_type,
            phase: PHASE_SETUP,
            read_count: 0,
            std_poisoned: false,
            wait_bell: Bell::new(),
            data_std: None,
            data_tokio: Some(data),
            data_fixed: None,
        }
    }

    /// Returns the current phase of the lock with relaxed memory ordering.
    ///
    /// One that owns the lock sees the same with any memory ordering.
    pub fn phase_fast(&self) -> (phase: Phase)
        ensures
            phase == phase_of(self@.code),
    {
        u8_to_phase(self.phase)
    }

    /// Returns the current phase of the lock.
    pub fn phase_exact(&self) -> (phase: Phase)
        ensures
            phase == phase_of(self@.code),
    {
        u8_to_phase(self.phase)
    }

    /// Returns the number of active readers that announced themselves.
    pub fn read_count(&self) -> (count: usize)
        ensures
            count == self@.read_count,
    {
        self.read_count
    }

    /// Returns a reference to the data in the `Read` phase, without counting the reader.
    pub fn read_fast(&self) -> (result: Result<&T, PhasedError>)
        ensures
            is_mutex_lock_read(self@, "read_fast"@, result),
    {
        if self.phase != PHASE_READ {
            return Err(
                PhasedError::new(
                    u8_to_phase(self.phase),
                    PhasedErrorKind::CannotCallOutOfReadPhase(
                        typed_method_name(self.lock_type, self.data_type, "read_fast"),
                    ),
                ),
            );
        }
        match &self.data_fixed {
            Some(data) => Ok(data),
            None => Err(
                PhasedError::new(u8_to_phase(self.phase), PhasedErrorKind::InternalDataIsEmpty),
            ),
        }
    }

    /// Returns a reference to the data in the `Read` phase, and counts the reader.
    ///
    /// `finish_reading_gracefully_async` must be called once the reader is done. The reader
    /// is counted even where there turns out to be no data.
    pub fn read_gracefully(&mut self) -> (result: Result<&T, PhasedError>)
        requires
            old(self)@.code == PHASE_READ ==> old(self)@.read_count < usize::MAX,
        ensures
            old(self).wf() ==> final(self).wf(),
            leads_to(old(self)@.moment(), final(self)@.moment()),
            is_mutex_lock_read(old(self)@, "read_gracefully"@, result),
            final(self)@ == (if old(self)@.code == PHASE_READ {
                PhasedLockState {
                    read_count: (old(self)@.read_count + 1) as usize,
                    ..old(self)@
                }
            } else {
                old(self)@
            }),
    {
        if self.phase != PHASE_READ {
            return Err(
                PhasedError::new(
                    u8_to_phase(self.phase),
                    PhasedErrorKind::CannotCallOutOfReadPhase(
                        typed_method_name(self.lock_type, self.data_type, "read_gracefully"),
                    ),
                ),
            );
        }
        self.read_count = self.read_count + 1;
        match &self.data_fixed {
            Some(data) => Ok(data),
            None => Err(
                PhasedError::new(u8_to_phase(self.phase), PhasedErrorKind::InternalDataIsEmpty),
            ),
        }
    }

    /// Poisons the `std::sync::Mutex`, as a panic does that unwinds past a guard of it.
    pub fn poison(&mut self)
        ensures
            old(self).wf() ==> final(self).wf(),
            leads_to(old(self)@.moment(), final(self)@.moment()),
            final(self)@ == (PhasedLockState { poisoned: true, ..old(self)@ }),
    {
        self.std_poisoned = true;
    }

    /// Claims the lock for a transition from the `Setup` phase to the `Read` phase.
    pub fn begin_transition_to_read(&mut self) -> (result: Result<(), PhasedError>)
        ensures
            final(self)@ == (match read_entry(old(self)@.code) {
                Some(entered) => PhasedLockState { code: entered, ..old(self)@ },
                None => old(self)@,
            }),
            old(self).wf() ==> final(self).wf(),
            leads_to(old(self)@.moment(), final(self)@.moment()),
            result == (match read_entry(old(self)@.code) {
                Some(_) => Ok::<(), PhasedError>(()),
                None => Err(
                    lock_error(phase_of(old(self)@.code), lock_read_refusal_kind(old(self)@.code)),
                ),
            }),
    {
        match enter_read(self.phase) {
            Some(entered) => {
                self.phase = entered;
                Ok(())
            },
            None => Err(refuse_lock_read(self.phase)),
        }
    }

    /// Runs the closure of a transition to the `Read` phase on the data behind the
    /// `std::sync::Mutex`, and ends the transition.
    ///
    /// The lock ends in `Read`, with the data in the open, where the closure succeeds. It is
    /// back in `Setup` where the closure fails or could not be run. A closure that panics
    /// leaves the lock in transition and its mutex poisoned.
    pub fn finish_transition_to_read<F, E>(&mut self, f: F) -> (result: Result<
        (),
        PhasedError<E>,
    >) where F: FnOnce(&mut T) -> Result<(), E>
        requires
            old(self)@.code == PHASE_SETUP_TO_READ,
            !old(self)@.poisoned ==> (old(self)@.std matches Some(data) ==> may_run(f, data)),
        ensures
            old(self).wf() ==> final(self).wf(),
            leads_to(old(self)@.moment(), final(self)@.moment()),
            if old(self)@.poisoned {
                &&& final(self)@ == (PhasedLockState { code: PHASE_SETUP, ..old(self)@ })
                &&& result == Err::<(), PhasedError<E>>(
                    lock_error(Phase::Setup, PhasedErrorKind::MutexIsPoisoned),
                )
            } else {
                match old(self)@.std {
                    Some(data) => exists|d: &mut T, ran: Result<(), E>|
                        {
                            &&& #[trigger] f.ensures((d,), ran)
                            &&& *d == data
                            &&& final(self)@ == (if ran is Ok {
                                PhasedLockState {
                                    code: PHASE_READ,
                                    std: old(self)@.fixed,
                                    fixed: Some(*final(d)),
                                    ..old(self)@
                                }
                            } else {
                                PhasedLockState {
                                    code: PHASE_SETUP,
                                    std: Some(*final(d)),
                                    ..old(self)@
                                }
                            })
                            &&& result == lock_read_result(ran)
                        },
                    None => {
                        &&& final(self)@ == (PhasedLockState { code: PHASE_SETUP, ..old(self)@ })
                        &&& result == Err::<(), PhasedError<E>>(
                            lock_error(Phase::Setup, PhasedErrorKind::InternalDataIsEmpty),
                        )
                    },
                }
            },
    {
        if self.std_poisoned {
            self.phase = PHASE_SETUP;
            return Err(
                PhasedError::new(u8_to_phase(PHASE_SETUP), PhasedErrorKind::MutexIsPoisoned),
            );
        }
        // What a panic of the closure would leave behind.
        self.std_poisoned = true;
        let ran = match &mut self.data_std {
            Some(data) => Some(f(data)),
            None => None,
        };
        self.std_poisoned = false;
        match ran {
            None => {
                self.phase = PHASE_SETUP;
                Err(
                    PhasedError::new(
                        u8_to_phase(PHASE_SETUP_TO_READ),
                        PhasedErrorKind::InternalDataIsEmpty,
                    ),
                )
            },
            Some(ran) => {
                if ran.is_ok() {
                    core::mem::swap(&mut self.data_fixed, &mut self.data_std);
                    self.phase = PHASE_READ;
                } else {
                    self.phase = PHASE_SETUP;
                }
                to_lock_read_result(ran)
            },
        }
    }

    /// Transitions the lock from the `Setup` phase to the `Read` phase, unless the caller
    /// runs on a tokio runtime.
    ///
    /// `on_runtime` tells whether it does. The closure `f` is executed on the data behind
    /// the `std::sync::Mutex`.
    pub fn transition_to_read_unless<F, E>(&mut self, on_runtime: bool, f: F) -> (result: Result<
        (),
        PhasedError<E>,
    >) where F: FnOnce(&mut T) -> Result<(), E>
        requires
            !on_runtime && read_entry(old(self)@.code) is Some && !old(self)@.poisoned ==> (old(
                self,
            )@.std matches Some(data) ==> may_run(f, data)),
        ensures
            old(self).wf() ==> final(self).wf(),
            leads_to(old(self)@.moment(), final(self)@.moment()),
            if on_runtime {
                &&& final(self)@ == old(self)@
                &&& is_runtime_error(old(self)@, "transition_to_read"@, result)
            } else if read_entry(old(self)@.code) is None {
                &&& final(self)@ == old(self)@
                &&& result == Err::<(), PhasedError<E>>(
                    lock_error(phase_of(old(self)@.code), lock_read_refusal_kind(old(self)@.code)),
                )
            } else if old(self)@.poisoned {
                &&& final(self)@ == old(self)@
                &&& result == Err::<(), PhasedError<E>>(
                    lock_error(Phase::Setup, PhasedErrorKind::MutexIsPoisoned),
                )
            } else {
                match old(self)@.std {
                    Some(data) => exists|d: &mut T, ran: Result<(), E>|
                        {
                            &&& #[trigger] f.ensures((d,), ran)
                            &&& *d == data
                            &&& final(self)@ == (if ran is Ok {
                                PhasedLockState {
                                    code: PHASE_READ,
                                    std: old(self)@.fixed,
                                    fixed: Some(*final(d)),
                                    ..old(self)@
                                }
                            } else {
                                PhasedLockState { std: Some(*final(d)), ..old(self)@ }
                            })
                            &&& result == lock_read_result(ran)
                        },
                    None => {
                        &&& final(self)@ == old(self)@
                        &&& result == Err::<(), PhasedError<E>>(
                            lock_error(Phase::Setup, PhasedErrorKind::InternalDataIsEmpty),
                        )
                    },
                }
            },
    {
        if on_runtime {
            return Err(
                PhasedError::new(
                    u8_to_phase(self.phase),
                    PhasedErrorKind::CannotCallOnTokioRuntime(
                        typed_method_name(self.lock_type, self.data_type, "transition_to_read"),
                    ),
                ),
            );
        }
        match enter_read(self.phase) {
            Some(entered) => {
                self.phase = entered;
                self.finish_transition_to_read(f)
            },
            None => Err(refuse_lock_read(self.phase)),
        }
    }

    /// Transitions the lock from the `Setup` phase to the `Read` phase.
    ///
    /// This method takes a closure `f` which is executed on the data behind the
    /// `std::sync::Mutex` during the transition. It cannot be called on a tokio runtime.
    pub fn transition_to_read<F, E>(&mut self, f: F) -> (result: Result<
        (),
        PhasedError<E>,
    >) where F: FnOnce(&mut T) -> Result<(), E>
        requires
            read_entry(old(self)@.code) is Some && !old(self)@.poisoned ==> (old(
                self,
            )@.std matches Some(data) ==> may_run(f, data)),
        ensures
            old(self).wf() ==> final(self).wf(),
            leads_to(old(self)@.moment(), final(self)@.moment()),
            (final(self)@ == old(self)@ && is_runtime_error(
                old(self)@,
                "transition_to_read"@,
                result,
            )) || (if read_entry(old(self)@.code) is None {
                &&& final(self)@ == old(self)@
                &&& result == Err::<(), PhasedError<E>>(
                    lock_error(phase_of(old(self)@.code), lock_read_refusal_kind(old(self)@.code)),
                )
            } else if old(self)@.poisoned {
                &&& final(self)@ == old(self)@
                &&& result == Err::<(), PhasedError<E>>(
                    lock_error(Phase::Setup, PhasedErrorKind::MutexIsPoisoned),
                )
            } else {
                match old(self)@.std {
                    Some(data) => exists|d: &mut T, ran: Result<(), E>|
                        {
                            &&& #[trigger] f.ensures((d,), ran)
                            &&& *d == data
                            &&& final(self)@ == (if ran is Ok {
                                PhasedLockState {
                                    code: PHASE_READ,
                                    std: old(self)@.fixed,
                                    fixed: Some(*final(d)),
                                    ..old(self)@
                                }
                            } else {
                                PhasedLockState { std: Some(*final(d)), ..old(self)@ }
                            })
                            &&& result == lock_read_result(ran)
                        },
                    None => {
                        &&& final(self)@ == old(self)@
                        &&& result == Err::<(), PhasedError<E>>(
                            lock_error(Phase::Setup, PhasedErrorKind::InternalDataIsEmpty),
                        )
                    },
                }
            }),
    {
        self.transition_to_read_unless(is_on_tokio_runtime(), f)
    }

    /// Transitions a lock for threads to the `Cleanup` phase without waiting for the readers.
    ///
    /// Where the mutex is poisoned, a lock in `Read` stays there.
    pub fn transition_to_cleanup_simply(&mut self) -> (result: Result<(), PhasedError>)
        ensures
            old(self).wf() ==> final(self).wf(),
            leads_to(old(self)@.moment(), final(self)@.moment()),
            is_simple_cleanup(old(self)@, final(self)@, result),
    {
        match enter_cleanup_directly(self.phase) {
            None => Err(refuse_lock_cleanup(self.phase)),
            Some(PHASE_READ_TO_CLEANUP) => {
                if self.std_poisoned {
                    return Err(
                        PhasedError::new(
                            u8_to_phase(PHASE_READ_TO_CLEANUP),
                            PhasedErrorKind::MutexIsPoisoned,
                        ),
                    );
                }
                if self.data_std.is_none() {
                    core::mem::swap(&mut self.data_fixed, &mut self.data_std);
                }
                self.phase = PHASE_CLEANUP;
                Ok(())
            },
            Some(entered) => {
                self.phase = entered;
                Ok(())
            },
        }
    }

    /// Begins a transition to the `Cleanup` phase, with the `std::sync::Mutex` held, that
    /// waits for the readers.
    ///
    /// A lock in `Setup` is in `Cleanup` at once. For one in `Read` the readers are to be
    /// waited for, and `end_transition_to_cleanup_gracefully` ends the transition.
    pub fn begin_transition_to_cleanup_gracefully(&mut self) -> (result: Result<(), PhasedError>)
        ensures
            old(self).wf() ==> final(self).wf(),
            leads_to(old(self)@.moment(), final(self)@.moment()),
            if old(self)@.poisoned {
                &&& final(self)@ == old(self)@
                &&& result == Err::<(), PhasedError>(
                    lock_error(phase_of(old(self)@.code), PhasedErrorKind::MutexIsPoisoned),
                )
            } else {
                match direct_cleanup_entry(old(self)@.code) {
                    Some(entered) => {
                        &&& final(self)@ == (PhasedLockState { code: entered, ..old(self)@ })
                        &&& result == Ok::<(), PhasedError>(())
                    },
                    None => {
                        &&& final(self)@ == old(self)@
                        &&& result == Err::<(), PhasedError>(
                            lock_error(
                                phase_of(old(self)@.code),
                                lock_cleanup_refusal_kind(old(self)@.code),
                            ),
                        )
                    },
                }
            },
    {
        if self.std_poisoned {
            return Err(
                PhasedError::new(u8_to_phase(self.phase), PhasedErrorKind::MutexIsPoisoned),
            );
        }
        match enter_cleanup_directly(self.phase) {
            Some(entered) => {
                self.phase = entered;
                Ok(())
            },
            None => Err(refuse_lock_cleanup(self.phase)),
        }
    }

    /// Looks at the readers for one that has waited to clean up for `elapsed` nanoseconds.
    ///
    /// Returns whether the wait is over and, if so, whether because the time is up, and
    /// how many nanoseconds there are until the next look if it is not.
    pub fn wait_for_readers(&self, timeout: Duration, elapsed: u128) -> (step: WaitStep)
        ensures
            step == wait_step(self@.read_count, elapsed, duration_nanos(timeout)),
    {
        next_wait_step(self.read_count, elapsed, timeout.as_nanos())
    }

    /// Ends a transition from `Read` to `Cleanup` that has waited for the readers.
    ///
    /// `timed_out` tells whether the wait ended because the time was up, which is an error
    /// only where readers are still active. Where the mutex has been poisoned meanwhile the
    /// lock stays in transition.
    pub fn end_transition_to_cleanup_gracefully(
        &mut self,
        timed_out: bool,
        timeout: Duration,
    ) -> (result: Result<(), PhasedError>)
        requires
            old(self)@.code == PHASE_READ_TO_CLEANUP,
        ensures
            old(self).wf() ==> final(self).wf(),
            leads_to(old(self)@.moment(), final(self)@.moment()),
            if old(self)@.poisoned {
                &&& final(self)@ == old(self)@
                &&& result == Err::<(), PhasedError>(
                    lock_error(Phase::Cleanup, PhasedErrorKind::MutexIsPoisoned),
                )
            } else {
                &&& final(self)@ == (PhasedLockState {
                    code: PHASE_CLEANUP,
                    ..old(self)@.returned_to_std()
                })
                &&& result == graceful_wait_result(timed_out, old(self)@.read_count, timeout)
            },
    {
        if self.std_poisoned {
            return Err(
                PhasedError::new(
                    u8_to_phase(PHASE_READ_TO_CLEANUP),
                    PhasedErrorKind::MutexIsPoisoned,
                ),
            );
        }
        if self.data_std.is_none() {
            core::mem::swap(&mut self.data_fixed, &mut self.data_std);
        }
        self.phase = PHASE_CLEANUP;
        to_graceful_wait_result(timed_out, self.read_count, timeout)
    }

    /// Transitions a lock for threads to the `Cleanup` phase and waits for the readers, for
    /// `timeout` at most.
    ///
    /// No reader can finish while the caller has the lock borrowed, so a wait for active
    /// readers ends when the time is up.
    pub fn transition_to_cleanup_gracefully(&mut self, timeout: Duration) -> (result: Result<
        (),
        PhasedError,
    >)
        ensures
            old(self).wf() ==> final(self).wf(),
            leads_to(old(self)@.moment(), final(self)@.moment()),
            is_graceful_cleanup(old(self)@, timeout, final(self)@, result),
    {
        let entered_at: u8 = self.phase;
        match self.begin_transition_to_cleanup_gracefully() {
            Err(e) => {
                return Err(e);
            },
            Ok(_) => {},
        }
        if entered_at != PHASE_READ {
            return Ok(());
        }
        let timed_out = match self.wait_for_readers(timeout, timeout.as_nanos()) {
            WaitStep::Finished => false,
            _ => true,
        };
        self.end_transition_to_cleanup_gracefully(timed_out, timeout)
    }

    /// Transitions a lock for threads to the `Cleanup` phase by the given strategy, unless
    /// the caller runs on a tokio runtime.
    ///
    /// `on_runtime` tells whether it does. A fixed wait is over before this is called, and
    /// so does nothing here.
    pub fn transition_to_cleanup_unless(
        &mut self,
        on_runtime: bool,
        wait_strategy: WaitStrategy,
    ) -> (result: Result<(), PhasedError>)
        ensures
            old(self).wf() ==> final(self).wf(),
            leads_to(old(self)@.moment(), final(self)@.moment()),
            if on_runtime {
                &&& final(self)@ == old(self)@
                &&& is_runtime_error(old(self)@, "transition_to_cleanup"@, result)
            } else {
                is_cleanup(old(self)@, wait_strategy, final(self)@, result)
            },
    {
        if on_runtime {
            return Err(
                PhasedError::new(
                    u8_to_phase(self.phase),
                    PhasedErrorKind::CannotCallOnTokioRuntime(
                        typed_method_name(self.lock_type, self.data_type, "transition_to_cleanup"),
                    ),
                ),
            );
        }
        match wait_strategy {
            WaitStrategy::NoWait => self.transition_to_cleanup_simply(),
            WaitStrategy::FixedWait(_) => self.transition_to_cleanup_simply(),
            WaitStrategy::GracefulWait { timeout } => self.transition_to_cleanup_gracefully(
                timeout,
            ),
        }
    }

    /// Transitions a lock for threads to the `Cleanup` phase by the given strategy.
    ///
    /// It cannot be called on a tokio runtime.
    pub fn transition_to_cleanup(&mut self, wait_strategy: WaitStrategy) -> (result: Result<
        (),
        PhasedError,
    >)
        ensures
            old(self).wf() ==> final(self).wf(),
            leads_to(old(self)@.moment(), final(self)@.moment()),
            is_cleanup(old(self)@, wait_strategy, final(self)@, result) || (final(self)@ == old(
                self,
            )@ && is_runtime_error(old(self)@, "transition_to_cleanup"@, result)),
    {
        self.transition_to_cleanup_unless(is_on_tokio_runtime(), wait_strategy)
    }
}

/// Whether a transition to `Cleanup` of a lock with a `tokio::sync::Mutex`, by the given
/// strategy and by one that owns the lock, takes it from `before` to `after` and returns
/// `result`.
pub open spec fn is_cleanup_async<T>(
    before: PhasedLockState<T>,
    strategy: WaitStrategy,
    after: PhasedLockState<T>,
    result: Result<(), PhasedError>,
) -> bool {
    if before.code == PHASE_READ {
        &&& after == (PhasedLockState { code: PHASE_CLEANUP, ..before.returned_to_tokio() })
        &&& result == (match strategy {
            WaitStrategy::GracefulWait { timeout } => graceful_wait_result(
                true,
                before.read_count,
                timeout,
            ),
            _ => Ok(()),
        })
    } else if before.code == PHASE_SETUP {
        &&& after == (PhasedLockState { code: PHASE_CLEANUP, ..before })
        &&& result == Ok::<(), PhasedError>(())
    } else {
        &&& after == before
        &&& result == Err::<(), PhasedError>(
            lock_error(phase_of(before.code), lock_cleanup_refusal_kind(before.code)),
        )
    }
}

impl<T: Send + Sync> PhasedLock<T> {
    /// Claims the lock for a transition of tasks from the `Setup` phase to the `Read` phase.
    pub fn begin_transition_to_read_async(&mut self) -> (result: Result<(), PhasedError>)
        ensures
            final(self)@ == (match read_entry(old(self)@.code) {
                Some(entered) => PhasedLockState { code: entered, ..old(self)@ },
                None => old(self)@,
            }),
            old(self).wf() ==> final(self).wf(),
            leads_to(old(self)@.moment(), final(self)@.moment()),
            result == (match read_entry(old(self)@.code) {
                Some(_) => Ok::<(), PhasedError>(()),
                None => Err(
                    lock_error(
                        phase_of(old(self)@.code),
                        lock_read_refusal_kind(old(self)@.code),
                    ),
                ),
            }),
    {
        match enter_read(self.phase) {
            Some(entered) => {
                self.phase = entered;
                Ok(())
            },
            None => Err(refuse_lock_read(self.phase)),
        }
    }

    /// Runs the closure of a transition to the `Read` phase on the data behind the
    /// `tokio::sync::Mutex`, and ends the transition.
    ///
    /// The lock ends in `Read`, with the data in the open, where the closure succeeds, and
    /// also where there is no data. It is back in `Setup` where the closure fails. A closure
    /// that panics leaves the lock in transition.
    pub fn finish_transition_to_read_async<F, E>(&mut self, f: F) -> (result: Result<
        (),
        PhasedError<E>,
    >) where F: FnOnce(&mut T) -> Result<(), E>
        requires
            old(self)@.code == PHASE_SETUP_TO_READ,
            old(self)@.tokio matches Some(data) ==> may_run(f, data),
        ensures
            old(self).wf() && old(self)@.tokio is Some ==> final(self).wf(),
            leads_to(old(self)@.moment(), final(self)@.moment()),
            match old(self)@.tokio {
                Some(data) => exists|d: &mut T, ran: Result<(), E>|
                    {
                        &&& #[trigger] f.ensures((d,), ran)
                        &&& *d == data
                        &&& final(self)@ == (if ran is Ok {
                            PhasedLockState {
                                code: PHASE_READ,
                                tokio: old(self)@.fixed,
                                fixed: Some(*final(d)),
                                ..old(self)@
                            }
                        } else {
                            PhasedLockState {
                                code: PHASE_SETUP,
                                tokio: Some(*final(d)),
                                ..old(self)@
                            }
                        })
                        &&& result == lock_read_result(ran)
                    },
                None => {
                    &&& final(self)@ == (PhasedLockState { code: PHASE_READ, ..old(self)@ })
                    &&& result == Ok::<(), PhasedError<E>>(())
                },
            },
    {
        match &mut self.data_tokio {
            None => {
                self.phase = PHASE_READ;
                Ok(())
            },
            Some(data) => {
                let ran = f(data);
                if ran.is_ok() {
                    core::mem::swap(&mut self.data_fixed, &mut self.data_tokio);
                    self.phase = PHASE_READ;
                } else {
                    self.phase = PHASE_SETUP;
                }
                to_lock_read_result(ran)
            },
        }
    }

    /// Transitions the lock from the `Setup` phase to the `Read` phase.
    ///
    /// This method takes a closure `f` which is executed on the data behind the
    /// `tokio::sync::Mutex` during the transition.
    pub fn transition_to_read_async<F, E>(&mut self, f: F) -> (result: Result<
        (),
        PhasedError<E>,
    >) where F: FnOnce(&mut T) -> Result<(), E>
        requires
            read_entry(old(self)@.code) is Some ==> (old(self)@.tokio matches Some(data)
                ==> may_run(f, data)),
        ensures
            old(self).wf() && old(self)@.tokio is Some ==> final(self).wf(),
            leads_to(old(self)@.moment(), final(self)@.moment()),
            match read_entry(old(self)@.code) {
                Some(_) => match old(self)@.tokio {
                    Some(data) => exists|d: &mut T, ran: Result<(), E>|
                        {
                            &&& #[trigger] f.ensures((d,), ran)
                            &&& *d == data
                            &&& final(self)@ == (if ran is Ok {
                                PhasedLockState {
                                    code: PHASE_READ,
                                    tokio: old(self)@.fixed,
                                    fixed: Some(*final(d)),
                                    ..old(self)@
                                }
                            } else {
                                PhasedLockState { tokio: Some(*final(d)), ..old(self)@ }
                            })
                            &&& result == lock_read_result(ran)
                        },
                    None => {
                        &&& final(self)@ == (PhasedLockState { code: PHASE_READ, ..old(self)@ })
                        &&& result == Ok::<(), PhasedError<E>>(())
                    },
                },
                None => {
                    &&& final(self)@ == old(self)@
                    &&& result == Err::<(), PhasedError<E>>(
                        lock_error(
                            phase_of(old(self)@.code),
                            lock_read_refusal_kind(old(self)@.code),
                        ),
                    )
                },
            },
    {
        match enter_read(self.phase) {
            Some(entered) => {
                self.phase = entered;
                self.finish_transition_to_read_async(f)
            },
            None => Err(refuse_lock_read(self.phase)),
        }
    }

    /// Begins a transition of tasks to the `Cleanup` phase.
    ///
    /// A lock in `Setup` is in `Cleanup` at once. For one in `Read`
    /// `end_transition_to_cleanup_async` ends the transition.
    pub fn begin_transition_to_cleanup_async(&mut self) -> (result: Result<(), PhasedError>)
        ensures
            old(self).wf() ==> final(self).wf(),
            leads_to(old(self)@.moment(), final(self)@.moment()),
            match direct_cleanup_entry(old(self)@.code) {
                Some(entered) => {
                    &&& final(self)@ == (PhasedLockState { code: entered, ..old(self)@ })
                    &&& result == Ok::<(), PhasedError>(())
                },
                None => {
                    &&& final(self)@ == old(self)@
                    &&& result == Err::<(), PhasedError>(
                        lock_error(
                            phase_of(old(self)@.code),
                            lock_cleanup_refusal_kind(old(self)@.code),
                        ),
                    )
                },
            },
    {
        match enter_cleanup_directly(self.phase) {
            Some(entered) => {
                self.phase = entered;
                Ok(())
            },
            None => Err(refuse_lock_cleanup(self.phase)),
        }
    }

    /// Ends a transition of tasks from `Read` to `Cleanup`, with the `tokio::sync::Mutex`
    /// held.
    ///
    /// `timed_out` tells for how long the readers were waited for, if that ended because the
    /// time was up, which is an error only where readers are still active.
    pub fn end_transition_to_cleanup_async(&mut self, timed_out: Option<Duration>) -> (result:
        Result<(), PhasedError>)
        requires
            old(self)@.code == PHASE_READ_TO_CLEANUP,
        ensures
            old(self).wf() ==> final(self).wf(),
            leads_to(old(self)@.moment(), final(self)@.moment()),
            final(self)@ == (PhasedLockState {
                code: PHASE_CLEANUP,
                ..old(self)@.returned_to_tokio()
            }),
            result == (match timed_out {
                Some(timeout) => graceful_wait_result(true, old(self)@.read_count, timeout),
                None => Ok(()),
            }),
    {
        if self.data_tokio.is_none() {
            core::mem::swap(&mut self.data_fixed, &mut self.data_tokio);
        }
        self.phase = PHASE_CLEANUP;
        match timed_out {
            Some(timeout) => to_graceful_wait_result(true, self.read_count, timeout),
            None => Ok(()),
        }
    }

    /// Transitions a lock for tasks to the `Cleanup` phase without waiting for the readers.
    pub fn transition_to_cleanup_simply_async(&mut self) -> (result: Result<(), PhasedError>)
        ensures
            old(self).wf() ==> final(self).wf(),
            leads_to(old(self)@.moment(), final(self)@.moment()),
            is_cleanup_async(old(self)@, WaitStrategy::NoWait, final(self)@, result),
    {
        let entered_at: u8 = self.phase;
        match self.begin_transition_to_cleanup_async() {
            Err(e) => {
                return Err(e);
            },
            Ok(_) => {},
        }
        if entered_at != PHASE_READ {
            return Ok(());
        }
        self.end_transition_to_cleanup_async(None)
    }

    /// Transitions a lock for tasks to the `Cleanup` phase and waits for the readers, for
    /// `timeout` at most.
    ///
    /// No reader can finish while the caller has the lock borrowed, so a wait for active
    /// readers ends when the time is up.
    pub fn transition_to_cleanup_gracefully_async(&mut self, timeout: Duration) -> (result: Result<
        (),
        PhasedError,
    >)
        ensures
            old(self).wf() ==> final(self).wf(),
            leads_to(old(self)@.moment(), final(self)@.moment()),
            is_cleanup_async(
                old(self)@,
                WaitStrategy::GracefulWait { timeout },
                final(self)@,
                result,
            ),
    {
        let entered_at: u8 = self.phase;
        match self.begin_transition_to_cleanup_async() {
            Err(e) => {
                return Err(e);
            },
            Ok(_) => {},
        }
        if entered_at != PHASE_READ {
            return Ok(());
        }
        let timed_out = match self.wait_for_readers(timeout, timeout.as_nanos()) {
            WaitStep::Finished => None,
            _ => Some(timeout),
        };
        self.end_transition_to_cleanup_async(timed_out)
    }

    /// Transitions a lock for tasks to the `Cleanup` phase by the given strategy.
    ///
    /// A fixed wait is over before this is called, and so does nothing here.
    pub fn transition_to_cleanup_async(&mut self, wait_strategy: WaitStrategy) -> (result: Result<
        (),
        PhasedError,
    >)
        ensures
            old(self).wf() ==> final(self).wf(),
            leads_to(old(self)@.moment(), final(self)@.moment()),
            is_cleanup_async(old(self)@, wait_strategy, final(self)@, result),
    {
        match wait_strategy {
            WaitStrategy::NoWait => self.transition_to_cleanup_simply_async(),
            WaitStrategy::FixedWait(_) => self.transition_to_cleanup_simply_async(),
            WaitStrategy::GracefulWait { timeout } => self.transition_to_cleanup_gracefully_async(
                timeout,
            ),
        }
    }

    /// Decides whether the data behind the `tokio::sync::Mutex` may be changed, and returns
    /// the error if it may not.
    pub(crate) fn admit_update(&self) -> (admission: Result<(), PhasedError>)
        ensures
            match admission {
                Ok(_) => self@.code != PHASE_READ && self@.tokio is Some,
                Err(e) => is_update_error(self@, e),
            },
    {
        if self.phase == PHASE_READ {
            return Err(
                PhasedError::new(
                    u8_to_phase(self.phase),
                    PhasedErrorKind::CannotCallInReadPhase(
                        typed_method_name(self.lock_type, self.data_type, "lock_for_update"),
                    ),
                ),
            );
        }
        if self.data_tokio.is_none() {
            return Err(
                PhasedError::new(u8_to_phase(self.phase), PhasedErrorKind::InternalDataIsEmpty),
            );
        }
        Ok(())
    }

    /// Returns the place behind the `tokio::sync::Mutex`.
    pub(crate) fn tokio_slot(&mut self) -> (slot: &mut Option<T>)
        ensures
            *slot == old(self)@.tokio,
            final(self)@ == (PhasedLockState { tokio: *final(slot), ..old(self)@ }),
    {
        &mut self.data_tokio
    }

    /// Acquires the `tokio::sync::Mutex` and gives mutable access to the data behind it.
    ///
    /// This method is only successful outside of the `Read` phase.
    pub fn lock_for_update_async(&mut self) -> (result: Result<
        PhasedTokioMutexGuard<'_, T>,
        PhasedError,
    >)
        ensures
            old(self).wf() ==> final(self).wf(),
            leads_to(old(self)@.moment(), final(self)@.moment()),
            match result {
                Ok(guard) => {
                    &&& old(self)@.code != PHASE_READ
                    &&& old(self)@.tokio == Some(*guard.inner)
                    &&& final(self)@ == (PhasedLockState {
                        tokio: Some(*final(guard.inner)),
                        ..old(self)@
                    })
                },
                Err(e) => is_update_error(old(self)@, e) && final(self)@ == old(self)@,
            },
    {
        match self.admit_update() {
            Err(e) => Err(e),
            Ok(_) => match PhasedTokioMutexGuard::try_new(&mut self.data_tokio) {
                Some(guard) => Ok(guard),
                None => vstd::pervasive::unreached(),
            },
        }
    }

    /// Counts a reader out that `read_gracefully` counted.
    ///
    /// The last one wakes a task that waits to clean up.
    pub fn finish_reading_gracefully_async(&mut self) -> (result: Result<CountDown, PhasedError>)
        ensures
            old(self).wf() ==> final(self).wf(),
            leads_to(old(self)@.moment(), final(self)@.moment()),
            if old(self)@.code == PHASE_SETUP || old(self)@.code == PHASE_SETUP_TO_READ {
                &&& final(self)@ == old(self)@
                &&& match result {
                    Ok(_) => false,
                    Err(e) => {
                        &&& e.phase == Phase::Setup
                        &&& e.kind matches PhasedErrorKind::CannotCallInSetupPhase(text) && text@
                            == typed_method_text(old(self)@.lock_type, old(self)@.data_type, "finish_reading_gracefully"@)
                        &&& e.source is None
                    },
                }
            } else {
                match lowered(old(self)@.read_count) {
                    None => {
                        &&& final(self)@ == old(self)@
                        &&& result == Ok::<CountDown, PhasedError>(CountDown::Excessive)
                    },
                    Some(count) => {
                        let wakes = count == 0 && old(self)@.code == PHASE_READ_TO_CLEANUP;
                        &&& final(self)@ == old(self)@.counted_down(count, wakes)
                        &&& result == Ok::<CountDown, PhasedError>(CountDown::Counted { wakes })
                    },
                }
            },
    {
        if self.phase == PHASE_SETUP || self.phase == PHASE_SETUP_TO_READ {
            return Err(
                PhasedError::new(
                    u8_to_phase(self.phase),
                    PhasedErrorKind::CannotCallInSetupPhase(
                        typed_method_name(self.lock_type, self.data_type, "finish_reading_gracefully"),
                    ),
                ),
            );
        }
        match lower(self.read_count) {
            None => Ok(CountDown::Excessive),
            Some(count) => {
                self.read_count = count;
                let wakes = count == 0 && self.phase == PHASE_READ_TO_CLEANUP;
                if wakes {
                    self.wait_bell.ring_for_one();
                }
                Ok(CountDown::Counted { wakes })
            },
        }
    }
}

/// Whether `error` is the one of a lock in state `state` whose data behind the
/// `tokio::sync::Mutex` cannot be changed.
pub open spec fn is_update_error<T>(state: PhasedLockState<T>, error: PhasedError) -> bool {
    &&& error.phase == phase_of(state.code)
    &&& error.source is None
    &&& if state.code == PHASE_READ {
        error.kind matches PhasedErrorKind::CannotCallInReadPhase(text) && text@ == typed_method_text(
            state.lock_type,
            state.data_type,
            "lock_for_update"@,
        )
    } else {
        state.tokio is None && error.kind is InternalDataIsEmpty
    }
}

} // verus!
