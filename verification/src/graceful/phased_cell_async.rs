//! The cell behind a `tokio::sync::Mutex` that waits for its readers.

use super::transition::{
    graceful_cleanup_result, look_for_read, read_look, settle_graceful_cleanup,
    settle_graceful_read, to_phased_kind, ReadLook,
};
use super::wait::{
    lowered, next_wait_step, wait_step, CountDown, GracefulWaitAsync, GracefulWaitAsyncState,
    WaitStep,
};
use crate::bell::Rings;
use crate::errors::{
    error_of, PhasedError, PhasedErrorKind, METHOD_LOCK_ASYNC, METHOD_READ, METHOD_READ_RELAXED,
};
use crate::guards::TokioMutexGuard;
use crate::lifecycle::{leads_to, rests, Moment};
use crate::phase::{
    is_phase_code, phase_of, u8_to_phase, Phase, PHASE_CLEANUP, PHASE_READ, PHASE_READ_TO_CLEANUP,
    PHASE_SETUP, PHASE_SETUP_TO_CLEANUP, PHASE_SETUP_TO_READ,
};
use crate::slots::Slots;
use crate::time::duration_nanos;
use crate::transition::{
    admit_lock, cleanup_entry, cleanup_refusal_kind, enter_cleanup, enter_read, lock_admission,
    may_run, read_entry, read_refusal_kind, read_result, read_slot, refuse_cleanup, refuse_read,
    returned, slot_admission, Lock, Work,
};
use std::time::Duration;
use vstd::prelude::*;

verus! {

/// An asynchronous `PhasedCellAsync` that supports graceful cleanup and graceful read.
///
/// This cell is the asynchronous version of `GracefulPhasedCellSync`, building upon
/// `PhasedCellAsync`. It provides:
/// 1. **Graceful Cleanup**: It ensures that all ongoing read operations complete before allowing
///    the cell to fully transition to the `Cleanup` phase.
/// 2. **Graceful Read**: If a read operation is attempted by `read_async` while the cell is
///    in the `Setup` phase and transitioning to `Read`, the read operation will wait for the
///    transition to complete and for the cell to enter the `Read` phase.
pub struct GracefulPhasedCellAsync<T: Send + Sync> {
    phase: u8,
    wait: GracefulWaitAsync,
    slots: Slots<T>,
}

/// The state of a `GracefulPhasedCellAsync`.
pub struct GracefulPhasedCellAsyncState<T> {
    /// The phase code.
    pub code: u8,
    /// The count of active readers and the means to wake those who wait.
    pub wait: GracefulWaitAsyncState,
    /// The two places of the data.
    pub slots: Slots<T>,
}

impl<T: Send + Sync> View for GracefulPhasedCellAsync<T> {
    type V = GracefulPhasedCellAsyncState<T>;

    closed spec fn view(&self) -> GracefulPhasedCellAsyncState<T> {
        GracefulPhasedCellAsyncState {
            code: self.phase,
            wait: self.wait@,
            slots: self.slots,
        }
    }
}

impl<T> GracefulPhasedCellAsyncState<T> {
    /// The moment in the life of the cell that this is.
    pub open spec fn moment(self) -> Moment<Slots<T>> {
        Moment { code: self.code, data: self.slots }
    }

    /// The state with one more active reader; the count wraps around.
    pub open spec fn counted_up(self) -> GracefulPhasedCellAsyncState<T> {
        GracefulPhasedCellAsyncState { wait: self.wait.counted_up(), ..self }
    }

    /// What a wait for the readers ends in that nobody else can end.
    pub open spec fn waited(self, timeout: Duration) -> Option<PhasedErrorKind> {
        if self.wait.counter == 0 {
            None
        } else {
            Some(PhasedErrorKind::GracefulWaitTimeout(timeout))
        }
    }
}

/// The phase that a transition to `Cleanup` reports that lasts at `code` and finds
/// no data: `Read` where the data should have been open for reading.
pub open spec fn missing_phase_async(code: u8) -> Phase {
    if code == PHASE_READ_TO_CLEANUP {
        Phase::Read
    } else {
        Phase::Cleanup
    }
}

impl<T: Send + Sync> GracefulPhasedCellAsync<T> {
    /// The phase code is a known one, the data is in its place for it, and there are
    /// no readers before the first `Read` phase.
    pub open spec fn wf(&self) -> bool {
        &&& is_phase_code(self@.code)
        &&& self@.slots.placed(self@.code)
        &&& self@.code == PHASE_CLEANUP ==> self@.slots.mutex is Some
        &&& (self@.code == PHASE_SETUP || self@.code == PHASE_SETUP_TO_READ || self@.code
            == PHASE_SETUP_TO_CLEANUP) ==> self@.wait.counter == 0
    }

    /// Creates a new `GracefulPhasedCellAsync` in the `Setup` phase, containing the provided
    /// data.
    pub fn new(data: T) -> (cell: Self)
        ensures
            cell.wf(),
            cell@ == (GracefulPhasedCellAsyncState {
                code: PHASE_SETUP,
                wait: GracefulWaitAsyncState { counter: 0, rings: Rings { all: 0, one: 0 } },
                slots: Slots { mutex: Some(data), cell: None },
            }),
    {
        Self {
            phase: PHASE_SETUP,
            wait: GracefulWaitAsync::new(),
            slots: Slots { mutex: Some(data), cell: None },
        }
    }

    /// Returns the current phase of the cell with relaxed memory ordering.
    ///
    /// One that owns the cell sees the same with any memory ordering.
    pub fn phase_relaxed(&self) -> (phase: Phase)
        ensures
            phase == phase_of(self@.code),
    {
        u8_to_phase(self.phase)
    }

    /// Returns the current phase of the cell.
    pub fn phase(&self) -> (phase: Phase)
        ensures
            phase == phase_of(self@.code),
    {
        u8_to_phase(self.phase)
    }

    /// Returns a reference to the contained data with relaxed memory ordering, and
    /// counts its reader.
    ///
    /// This method attempts to return a reference to the contained data immediately
    /// without waiting. It is only successful if the cell is in the `Read` phase.
    /// `finish_reading` must be called once the reader is done.
    pub fn read_relaxed(&mut self) -> (result: Result<&T, PhasedError>)
        ensures
            old(self).wf() ==> final(self).wf(),
            leads_to(old(self)@.moment(), final(self)@.moment()),
            rests(old(self)@.moment(), final(self)@.moment()),
            match (
                slot_admission(old(self)@.code, old(self)@.slots.cell, METHOD_READ_RELAXED),
                result,
            ) {
                (Ok(expected), Ok(data)) => *data == expected && final(self)@ == old(
                    self,
                )@.counted_up(),
                (Err(expected), Err(error)) => error == expected && final(self)@ == old(self)@,
                _ => false,
            },
    {
        match read_slot(self.phase, &self.slots.cell, METHOD_READ_RELAXED) {
            Ok(data) => {
                self.wait.count_up();
                Ok(data)
            },
            Err(e) => Err(e),
        }
    }

    /// Returns a reference to the contained data, and counts its reader.
    ///
    /// This method attempts to return a reference to the contained data immediately
    /// without waiting. It is only successful if the cell is in the `Read` phase.
    /// `finish_reading` must be called once the reader is done.
    pub fn read(&mut self) -> (result: Result<&T, PhasedError>)
        ensures
            old(self).wf() ==> final(self).wf(),
            leads_to(old(self)@.moment(), final(self)@.moment()),
            rests(old(self)@.moment(), final(self)@.moment()),
            match (slot_admission(old(self)@.code, old(self)@.slots.cell, METHOD_READ), result) {
                (Ok(expected), Ok(data)) => *data == expected && final(self)@ == old(
                    self,
                )@.counted_up(),
                (Err(expected), Err(error)) => error == expected && final(self)@ == old(self)@,
                _ => false,
            },
    {
        match read_slot(self.phase, &self.slots.cell, METHOD_READ) {
            Ok(data) => {
                self.wait.count_up();
                Ok(data)
            },
            Err(e) => Err(e),
        }
    }

    /// Looks at the phase for a reader that waits for a transition to `Read` to end.
    ///
    /// Tells whether the cell is open for reading or the reader is to wait on, which it is
    /// as long as the transition lasts. Returns an error where the cell is not to be read.
    pub fn wait_for_read_phase(&self) -> (result: Result<ReadLook, PhasedError>)
        ensures
            result == read_look(self@.code, false),
    {
        look_for_read(self.phase, false)
    }

    /// Returns a reference to the contained data, and counts its reader, where the cell is
    /// open for reading, and `None` where a transition to `Read` is in progress.
    ///
    /// One that gets `None` awaits the end of the transition and calls this again.
    /// `finish_reading` must be called once the reader is done.
    pub fn read_or_wait(&mut self) -> (result: Result<Option<&T>, PhasedError>)
        ensures
            old(self).wf() ==> final(self).wf(),
            leads_to(old(self)@.moment(), final(self)@.moment()),
            rests(old(self)@.moment(), final(self)@.moment()),
            if old(self)@.code == PHASE_SETUP_TO_READ {
                result == Ok::<Option<&T>, PhasedError>(None) && final(self)@ == old(self)@
            } else {
                match (
                    slot_admission(old(self)@.code, old(self)@.slots.cell, METHOD_READ),
                    result,
                ) {
                    (Ok(expected), Ok(Some(data))) => *data == expected && final(self)@ == old(
                        self,
                    )@.counted_up(),
                    (Err(expected), Err(error)) => error == expected && final(self)@ == old(self)@,
                    _ => false,
                }
            },
    {
        if self.phase == PHASE_SETUP_TO_READ {
            return Ok(None);
        }
        match self.read() {
            Ok(data) => Ok(Some(data)),
            Err(e) => Err(e),
        }
    }

    /// Returns a reference to the contained data, and counts its reader.
    ///
    /// This method is successful if the cell is in the `Read` phase. A transition to `Read`
    /// that is in progress must have been awaited, by `read_or_wait` or
    /// `wait_for_read_phase`. `finish_reading` must be called once the reader is done.
    pub fn read_async(&mut self) -> (result: Result<&T, PhasedError>)
        requires
            old(self)@.code != PHASE_SETUP_TO_READ,
        ensures
            old(self).wf() ==> final(self).wf(),
            leads_to(old(self)@.moment(), final(self)@.moment()),
            rests(old(self)@.moment(), final(self)@.moment()),
            match (slot_admission(old(self)@.code, old(self)@.slots.cell, METHOD_READ), result) {
                (Ok(expected), Ok(data)) => *data == expected && final(self)@ == old(
                    self,
                )@.counted_up(),
                (Err(expected), Err(error)) => error == expected && final(self)@ == old(self)@,
                _ => false,
            },
    {
        self.read()
    }

    /// Counts a reader out that is done.
    ///
    /// The last reader wakes one that waits to clean up.
    pub fn finish_reading(&mut self) -> (counted: CountDown)
        ensures
            old(self).wf() ==> final(self).wf(),
            leads_to(old(self)@.moment(), final(self)@.moment()),
            rests(old(self)@.moment(), final(self)@.moment()),
            final(self)@.code == old(self)@.code,
            final(self)@.slots == old(self)@.slots,
            match lowered(old(self)@.wait.counter) {
                None => counted == CountDown::Excessive && final(self)@.wait == old(self)@.wait,
                Some(count) => {
                    let wakes = count == 0 && old(self)@.code == PHASE_READ_TO_CLEANUP;
                    &&& counted == (CountDown::Counted { wakes })
                    &&& final(self)@.wait == old(self)@.wait.counted_down(count, wakes)
                },
            },
    {
        let code: u8 = self.phase;
        let is_awaited = || -> (awaited: bool)
            ensures awaited == (code == PHASE_READ_TO_CLEANUP)
        {
            code == PHASE_READ_TO_CLEANUP
        };
        self.wait.count_down(is_awaited)
    }

    /// Claims the cell for a transition to the `Cleanup` phase.
    ///
    /// It can be called from either the `Setup` or the `Read` phase.
    pub fn begin_transition_to_cleanup(&mut self) -> (result: Result<(), PhasedError>)
        ensures
            old(self).wf() ==> final(self).wf(),
            leads_to(old(self)@.moment(), final(self)@.moment()),
            rests(old(self)@.moment(), final(self)@.moment()),
            match cleanup_entry(old(self)@.code) {
                Some(entered) => {
                    &&& result == Ok::<(), PhasedError>(())
                    &&& final(self)@ == (GracefulPhasedCellAsyncState {
                        code: entered,
                        ..old(self)@
                    })
                },
                None => {
                    &&& result == Err::<(), PhasedError>(
                        error_of(phase_of(old(self)@.code), cleanup_refusal_kind(old(self)@.code)),
                    )
                    &&& final(self)@ == old(self)@
                },
            },
    {
        match enter_cleanup(self.phase) {
            Some(entered) => {
                self.phase = entered;
                Ok(())
            },
            None => Err(refuse_cleanup(self.phase)),
        }
    }

    /// Looks at the readers for one that has waited to clean up for `elapsed` nanoseconds.
    ///
    /// Returns `None` where no reader is active, and where one is how many nanoseconds
    /// there are until the next look. Returns an error where the time is up.
    pub fn wait_for_cleanup_phase(&self, timeout: Duration, elapsed: u128) -> (result: Result<
        Option<u128>,
        PhasedError,
    >)
        ensures
            result == (match wait_step(self@.wait.counter, elapsed, duration_nanos(timeout)) {
                WaitStep::Finished => Ok::<Option<u128>, PhasedError>(None),
                WaitStep::TimedOut => Err(
                    error_of(phase_of(self@.code), PhasedErrorKind::GracefulWaitTimeout(timeout)),
                ),
                WaitStep::Park(nanos) => Ok(Some(nanos)),
            }),
    {
        match next_wait_step(self.wait.count(), elapsed, timeout.as_nanos()) {
            WaitStep::Finished => Ok(None),
            WaitStep::TimedOut => Err(
                PhasedError::new(
                    u8_to_phase(self.phase),
                    PhasedErrorKind::GracefulWaitTimeout(timeout),
                ),
            ),
            WaitStep::Park(nanos) => Ok(Some(nanos)),
        }
    }

    /// Runs the closure of a transition to the `Cleanup` phase, with the mutex held,
    /// and ends the transition.
    ///
    /// `waited` tells why the wait for the readers failed, if it did. A closure that
    /// panics leaves the cell in transition.
    pub fn finish_transition_to_cleanup<F, E>(
        &mut self,
        waited: Option<PhasedErrorKind>,
        f: F,
    ) -> (result: Result<(), PhasedError<E>>) where F: FnOnce(&mut T) -> Result<(), E>
        requires
            old(self)@.code == PHASE_READ_TO_CLEANUP || old(self)@.code == PHASE_SETUP_TO_CLEANUP,
            old(self)@.slots.cleaned(old(self)@.code) matches Some(data) ==> may_run(f, data),
        ensures
            old(self).wf() ==> final(self).wf(),
            leads_to(old(self)@.moment(), final(self)@.moment()),
            rests(old(self)@.moment(), final(self)@.moment()),
            final(self)@.code == PHASE_CLEANUP,
            final(self)@.wait == old(self)@.wait,
            match old(self)@.slots.cleaned(old(self)@.code) {
                Some(data) => exists|d: &mut T, ran: Result<(), E>|
                    {
                        &&& #[trigger] f.ensures((d,), ran)
                        &&& *d == data
                        &&& final(self)@.slots == old(self)@.slots.after_cleanup(
                            old(self)@.code,
                            *final(d),
                        )
                        &&& result == graceful_cleanup_result(ran, waited)
                    },
                None => {
                    &&& final(self)@.slots == old(self)@.slots
                    &&& result == Err::<(), PhasedError<E>>(
                        error_of(
                            missing_phase_async(old(self)@.code),
                            PhasedErrorKind::InternalDataUnavailable,
                        ),
                    )
                },
            },
    {
        let entered_at: u8 = if self.phase == PHASE_READ_TO_CLEANUP {
            PHASE_READ
        } else {
            PHASE_SETUP
        };
        let slot = if entered_at == PHASE_READ {
            &mut self.slots.cell
        } else {
            &mut self.slots.mutex
        };
        let work = match slot {
            Some(data) => Work::Ran(f(data)),
            None => Work::Missing,
        };
        let settlement = settle_graceful_cleanup(entered_at, PHASE_READ, waited, work);
        if settlement.moves {
            self.slots.swap();
        }
        self.phase = settlement.to;
        returned(settlement.outcome)
    }

    /// Gracefully transitions the cell to the `Cleanup` phase.
    ///
    /// This method waits for all active read operations to complete, for `timeout` at
    /// most, before executing the provided closure `f` and moving to the `Cleanup`
    /// phase, which it does whether or not they have. No reader can finish while the
    /// caller has the cell borrowed, so a wait for active readers ends when the time
    /// is up.
    ///
    /// Returns an error if the wait times out, the phase transition fails, or the
    /// closure returns an error.
    pub fn transition_to_cleanup_async<F, E>(&mut self, timeout: Duration, f: F) -> (result: Result<
        (),
        PhasedError<E>,
    >) where F: FnOnce(&mut T) -> Result<(), E>
        requires
            cleanup_entry(old(self)@.code) matches Some(entered) ==> (old(self)@.slots.cleaned(
                entered,
            ) matches Some(data) ==> may_run(f, data)),
        ensures
            old(self).wf() ==> final(self).wf(),
            leads_to(old(self)@.moment(), final(self)@.moment()),
            rests(old(self)@.moment(), final(self)@.moment()),
            match cleanup_entry(old(self)@.code) {
                Some(entered) => {
                    &&& final(self)@.code == PHASE_CLEANUP
                    &&& final(self)@.wait == old(self)@.wait
                    &&& match old(self)@.slots.cleaned(entered) {
                        Some(data) => exists|d: &mut T, ran: Result<(), E>|
                            {
                                &&& #[trigger] f.ensures((d,), ran)
                                &&& *d == data
                                &&& final(self)@.slots == old(self)@.slots.after_cleanup(
                                    entered,
                                    *final(d),
                                )
                                &&& result == graceful_cleanup_result(
                                    ran,
                                    old(self)@.waited(timeout),
                                )
                            },
                        None => {
                            &&& final(self)@.slots == old(self)@.slots
                            &&& result == Err::<(), PhasedError<E>>(
                                error_of(
                                    missing_phase_async(entered),
                                    PhasedErrorKind::InternalDataUnavailable,
                                ),
                            )
                        },
                    }
                },
                None => {
                    &&& final(self)@ == old(self)@
                    &&& result == Err::<(), PhasedError<E>>(
                        error_of(phase_of(old(self)@.code), cleanup_refusal_kind(old(self)@.code)),
                    )
                },
            },
    {
        match enter_cleanup(self.phase) {
            Some(entered) => {
                self.phase = entered;
                let waited = match self.wait.wait_gracefully_async(timeout) {
                    Ok(_) => None,
                    Err(e) => Some(to_phased_kind(e.kind)),
                };
                self.finish_transition_to_cleanup(waited, f)
            },
            None => Err(refuse_cleanup(self.phase)),
        }
    }

    /// Claims the cell for a transition from the `Setup` phase to the `Read` phase.
    pub fn begin_transition_to_read(&mut self) -> (result: Result<(), PhasedError>)
        ensures
            old(self).wf() ==> final(self).wf(),
            leads_to(old(self)@.moment(), final(self)@.moment()),
            rests(old(self)@.moment(), final(self)@.moment()),
            match read_entry(old(self)@.code) {
                Some(entered) => {
                    &&& result == Ok::<(), PhasedError>(())
                    &&& final(self)@ == (GracefulPhasedCellAsyncState {
                        code: entered,
                        ..old(self)@
                    })
                },
                None => {
                    &&& result == Err::<(), PhasedError>(
                        error_of(phase_of(old(self)@.code), read_refusal_kind(old(self)@.code)),
                    )
                    &&& final(self)@ == old(self)@
                },
            },
    {
        match enter_read(self.phase) {
            Some(entered) => {
                self.phase = entered;
                Ok(())
            },
            None => Err(refuse_read(self.phase)),
        }
    }

    /// Runs the closure of a transition to the `Read` phase, with the mutex held, ends
    /// the transition and wakes the readers that wait for it.
    ///
    /// The cell ends in `Read`, with the data open for reading, where the closure
    /// succeeds. It is back in `Setup` where the closure fails or could not be run. A
    /// closure that panics leaves the cell in transition.
    pub fn finish_transition_to_read<F, E>(&mut self, f: F) -> (result: Result<
        (),
        PhasedError<E>,
    >) where F: FnOnce(&mut T) -> Result<(), E>
        requires
            old(self)@.code == PHASE_SETUP_TO_READ,
            old(self)@.slots.mutex matches Some(data) ==> may_run(f, data),
        ensures
            old(self).wf() ==> final(self).wf(),
            leads_to(old(self)@.moment(), final(self)@.moment()),
            rests(old(self)@.moment(), final(self)@.moment()),
            final(self)@.wait == old(self)@.wait.woken(),
            final(self)@.code == (if result is Ok {
                PHASE_READ
            } else {
                PHASE_SETUP
            }),
            match old(self)@.slots.mutex {
                Some(data) => exists|d: &mut T, ran: Result<(), E>|
                    {
                        &&& #[trigger] f.ensures((d,), ran)
                        &&& *d == data
                        &&& final(self)@.slots == old(self)@.slots.after_read(
                            ran is Ok,
                            *final(d),
                        )
                        &&& result == read_result(ran)
                    },
                None => {
                    &&& final(self)@.slots == old(self)@.slots
                    &&& result == Err::<(), PhasedError<E>>(
                        error_of(Phase::Setup, PhasedErrorKind::InternalDataUnavailable),
                    )
                },
            },
    {
        let work = match &mut self.slots.mutex {
            Some(data) => Work::Ran(f(data)),
            None => Work::Missing,
        };
        let settlement = settle_graceful_read(work);
        if settlement.moves {
            self.slots.swap();
        }
        self.phase = settlement.to;
        self.wait.wake();
        returned(settlement.outcome)
    }

    /// Transitions the cell from the `Setup` phase to the `Read` phase.
    ///
    /// This method takes a closure `f` which is executed on the contained data
    /// during the transition.
    ///
    /// Returns an error if the cell is not in the `Setup` phase or if the closure
    /// returns an error.
    pub fn transition_to_read_async<F, E>(&mut self, f: F) -> (result: Result<
        (),
        PhasedError<E>,
    >) where F: FnOnce(&mut T) -> Result<(), E>
        requires
            read_entry(old(self)@.code) is Some ==> (old(self)@.slots.mutex matches Some(data)
                ==> may_run(f, data)),
        ensures
            old(self).wf() ==> final(self).wf(),
            leads_to(old(self)@.moment(), final(self)@.moment()),
            rests(old(self)@.moment(), final(self)@.moment()),
            match read_entry(old(self)@.code) {
                Some(_) => {
                    &&& final(self)@.wait == old(self)@.wait.woken()
                    &&& final(self)@.code == (if result is Ok {
                        PHASE_READ
                    } else {
                        PHASE_SETUP
                    })
                    &&& match old(self)@.slots.mutex {
                        Some(data) => exists|d: &mut T, ran: Result<(), E>|
                            {
                                &&& #[trigger] f.ensures((d,), ran)
                                &&& *d == data
                                &&& final(self)@.slots == old(self)@.slots.after_read(
                                    ran is Ok,
                                    *final(d),
                                )
                                &&& result == read_result(ran)
                            },
                        None => {
                            &&& final(self)@.slots == old(self)@.slots
                            &&& result == Err::<(), PhasedError<E>>(
                                error_of(Phase::Setup, PhasedErrorKind::InternalDataUnavailable),
                            )
                        },
                    }
                },
                None => {
                    &&& final(self)@ == old(self)@
                    &&& result == Err::<(), PhasedError<E>>(
                        error_of(phase_of(old(self)@.code), read_refusal_kind(old(self)@.code)),
                    )
                },
            },
    {
        match enter_read(self.phase) {
            Some(entered) => {
                self.phase = entered;
                self.finish_transition_to_read(f)
            },
            None => Err(refuse_read(self.phase)),
        }
    }

    /// Acquires the lock of the data and gives mutable access to it.
    ///
    /// This method is only successful if the cell is in the `Setup` or `Cleanup` phase.
    ///
    /// Returns an error if the cell is in the `Read` phase or in transition.
    pub fn lock_async(&mut self) -> (result: Result<TokioMutexGuard<'_, T>, PhasedError>)
        ensures
            old(self).wf() ==> final(self).wf(),
            leads_to(old(self)@.moment(), final(self)@.moment()),
            rests(old(self)@.moment(), final(self)@.moment()),
            final(self)@.code == old(self)@.code,
            final(self)@.wait == old(self)@.wait,
            final(self)@.slots.cell == old(self)@.slots.cell,
            match (
                lock_admission(
                    old(self)@.code,
                    Lock::Acquired {
                        code: old(self)@.code,
                        filled: old(self)@.slots.mutex is Some,
                    },
                    METHOD_LOCK_ASYNC,
                ),
                result,
            ) {
                (Ok(_), Ok(guard)) => {
                    &&& old(self)@.slots.mutex == Some(*guard.inner)
                    &&& final(self)@.slots.mutex == Some(*final(guard.inner))
                },
                (Err(expected), Err(error)) => {
                    &&& error == expected
                    &&& final(self)@.slots.mutex == old(self)@.slots.mutex
                },
                _ => false,
            },
    {
        let lock = Lock::Acquired { code: self.phase, filled: self.slots.mutex.is_some() };
        match admit_lock(self.phase, lock, METHOD_LOCK_ASYNC) {
            Err(e) => Err(e),
            Ok(_) => match TokioMutexGuard::try_new(&mut self.slots.mutex) {
                Some(guard) => Ok(guard),
                None => vstd::pervasive::unreached(),
            },
        }
    }
}

} // verus!
