//! The basic cell that waits for its readers.

use super::transition::{
    graceful_cleanup_result, look_for_read, notice_read, notified_result, read_look,
    settle_caught_cleanup, to_phased_kind, ReadLook,
};
use super::wait::{
    lowered, max_read_count, wait_step, CountDown, GracefulWaitSync, GracefulWaitSyncState, WaitStep,
};
use crate::errors::{
    error_of, PhasedError, PhasedErrorKind, METHOD_GET_MUT_UNLOCKED, METHOD_READ,
    METHOD_READ_RELAXED,
};
use crate::lifecycle::{leads_to, rests, Moment};
use crate::phase::{
    is_phase_code, phase_of, u8_to_phase, Phase, PHASE_CLEANUP, PHASE_READ, PHASE_READ_TO_CLEANUP,
    PHASE_SETUP, PHASE_SETUP_TO_CLEANUP, PHASE_SETUP_TO_READ,
};
use crate::time::duration_nanos;
use crate::transition::{
    admit_mut, admit_read, cleanup_entry, cleanup_refusal_kind, enter_cleanup, enter_read, may_run,
    mut_admission, read_admission, read_entry, read_refusal_kind, read_result, refuse_cleanup,
    refuse_read, returned, settle_read, Work,
};
use std::time::Duration;
use vstd::prelude::*;

verus! {

/// A `PhasedCell` that supports graceful cleanup and graceful read.
///
/// This cell extends `PhasedCell` with two main capabilities:
/// 1. **Graceful Cleanup**: It ensures that all ongoing read operations complete before allowing
///    the cell to fully transition to the `Cleanup` phase.
/// 2. **Graceful Read**: If a read operation is attempted while the cell is in the
///    `Setup` phase and transitioning to `Read`, the read operation
///    will wait for the transition to complete and for the cell to enter the `Read` phase.
pub struct GracefulPhasedCell<T> {
    phase: u8,
    wait: GracefulWaitSync,
    data: T,
}

/// The state of a `GracefulPhasedCell`.
pub struct GracefulPhasedCellState<T> {
    /// The phase code.
    pub code: u8,
    /// The count of active readers and the means to wait for them.
    pub wait: GracefulWaitSyncState,
    /// The data.
    pub data: T,
}

impl<T> View for GracefulPhasedCell<T> {
    type V = GracefulPhasedCellState<T>;

    closed spec fn view(&self) -> GracefulPhasedCellState<T> {
        GracefulPhasedCellState { code: self.phase, wait: self.wait@, data: self.data }
    }
}

impl<T> GracefulPhasedCellState<T> {
    /// The moment in the life of the cell that this is.
    pub open spec fn moment(self) -> Moment<T> {
        Moment { code: self.code, data: self.data }
    }

    /// The state with one more active reader.
    pub open spec fn counted_up(self) -> GracefulPhasedCellState<T> {
        GracefulPhasedCellState {
            wait: GracefulWaitSyncState {
                counter: (self.wait.counter + 1) as usize,
                ..self.wait
            },
            ..self
        }
    }

    /// What a wait for the readers ends in that nobody else can end.
    pub open spec fn waited(self, timeout: Duration) -> Option<PhasedErrorKind> {
        if self.wait.poisoned {
            Some(PhasedErrorKind::GracefulWaitMutexIsPoisoned)
        } else if self.wait.counter == 0 {
            None
        } else {
            Some(PhasedErrorKind::GracefulWaitTimeout(timeout))
        }
    }
}

impl<T> GracefulPhasedCell<T> {
    /// The phase code is a known one, and there are no readers before the first
    /// `Read` phase.
    pub open spec fn wf(&self) -> bool {
        &&& is_phase_code(self@.code)
        &&& (self@.code == PHASE_SETUP || self@.code == PHASE_SETUP_TO_READ || self@.code
            == PHASE_SETUP_TO_CLEANUP) ==> self@.wait.counter == 0
        &&& self@.wait.counter <= max_read_count()
    }

    /// Creates a new `GracefulPhasedCell` in the `Setup` phase, containing the provided data.
    pub fn new(data: T) -> (cell: Self)
        ensures
            cell.wf(),
            cell@ == (GracefulPhasedCellState {
                code: PHASE_SETUP,
                wait: GracefulWaitSyncState { counter: 0, blocker: false, poisoned: false },
                data,
            }),
    {
        Self { phase: PHASE_SETUP, wait: GracefulWaitSync::new(), data }
    }

    /// Returns the current phase of the cell with relaxed memory ordering.
    ///
    /// One that owns the cell sees the same with any memory ordering.
    pub fn phase_relaxed(&self) -> (phase: Phase)
        ensures
            phase == phase_of(self@.code),
    {
        u8_to_phase(self.phase)
    }

    /// Returns the current phase of the cell.
    pub fn phase(&self) -> (phase: Phase)
        ensures
            phase == phase_of(self@.code),
    {
        u8_to_phase(self.phase)
    }

    /// Returns a reference to the contained data with relaxed memory ordering, and
    /// counts its reader.
    ///
    /// This method is only successful if the cell is in the `Read` phase.
    /// `finish_reading` must be called once the reader is done.
    pub fn read_relaxed(&mut self) -> (result: Result<&T, PhasedError>)
        requires
            old(self)@.code == PHASE_READ ==> old(self)@.wait.counter < max_read_count(),
        ensures
            old(self).wf() ==> final(self).wf(),
            leads_to(old(self)@.moment(), final(self)@.moment()),
            rests(old(self)@.moment(), final(self)@.moment()),
            match (read_admission(old(self)@.code, METHOD_READ_RELAXED), result) {
                (Ok(_), Ok(data)) => *data == old(self)@.data && final(self)@ == old(
                    self,
                )@.counted_up(),
                (Err(expected), Err(error)) => error == expected && final(self)@ == old(self)@,
                _ => false,
            },
    {
        match admit_read(self.phase, METHOD_READ_RELAXED) {
            Ok(_) => {
                self.wait.count_up();
                Ok(&self.data)
            },
            Err(e) => Err(e),
        }
    }

    /// Looks at the phase for a reader that waits for a transition to `Read` to end.
    ///
    /// Tells whether the cell is open for reading or the reader is to wait on, which it is
    /// as long as the transition lasts. Returns an error where the cell is not to be read
    /// and where the mutex of the wait is poisoned.
    pub fn wait_for_read_phase(&self) -> (result: Result<ReadLook, PhasedError>)
        ensures
            result == read_look(self@.code, self@.wait.poisoned),
    {
        look_for_read(self.phase, self.wait.is_poisoned())
    }

    /// Returns a reference to the contained data, and counts its reader, where the cell is
    /// open for reading, and `None` where a transition to `Read` is in progress.
    ///
    /// One that gets `None` waits for the transition to end and calls this again.
    /// `finish_reading` must be called once the reader is done.
    pub fn read_or_wait(&mut self) -> (result: Result<Option<&T>, PhasedError>)
        requires
            old(self)@.code == PHASE_READ ==> old(self)@.wait.counter < max_read_count(),
        ensures
            old(self).wf() ==> final(self).wf(),
            leads_to(old(self)@.moment(), final(self)@.moment()),
            rests(old(self)@.moment(), final(self)@.moment()),
            if old(self)@.code == PHASE_SETUP_TO_READ {
                &&& final(self)@ == old(self)@
                &&& result == (if old(self)@.wait.poisoned {
                    Err::<Option<&T>, PhasedError>(
                        error_of(Phase::Setup, PhasedErrorKind::GracefulWaitMutexIsPoisoned),
                    )
                } else {
                    Ok(None)
                })
            } else {
                match (
                    read_admission(old(self)@.code, METHOD_READ),
                    result,
                ) {
                    (Ok(_), Ok(Some(data))) => *data == old(self)@.data && final(self)@ == old(
                        self,
                    )@.counted_up(),
                    (Err(expected), Err(error)) => error == expected && final(self)@ == old(self)@,
                    _ => false,
                }
            },
    {
        if self.phase == PHASE_SETUP_TO_READ {
            return match self.wait_for_read_phase() {
                Err(e) => Err(e),
                Ok(_) => Ok(None),
            };
        }
        match self.read() {
            Ok(data) => Ok(Some(data)),
            Err(e) => Err(e),
        }
    }

    /// Returns a reference to the contained data, and counts its reader.
    ///
    /// This method is successful if the cell is in the `Read` phase. A transition to `Read`
    /// that is in progress must have been waited for, by `read_or_wait` or
    /// `wait_for_read_phase`; where the mutex of that wait is poisoned, that is the error.
    /// `finish_reading` must be called once the reader is done.
    pub fn read(&mut self) -> (result: Result<&T, PhasedError>)
        requires
            old(self)@.code == PHASE_SETUP_TO_READ ==> old(self)@.wait.poisoned,
            old(self)@.code == PHASE_READ ==> old(self)@.wait.counter < max_read_count(),
        ensures
            old(self).wf() ==> final(self).wf(),
            leads_to(old(self)@.moment(), final(self)@.moment()),
            rests(old(self)@.moment(), final(self)@.moment()),
            if old(self)@.code == PHASE_SETUP_TO_READ {
                &&& final(self)@ == old(self)@
                &&& result == Err::<&T, PhasedError>(
                    error_of(Phase::Setup, PhasedErrorKind::GracefulWaitMutexIsPoisoned),
                )
            } else {
                match (
                    read_admission(old(self)@.code, METHOD_READ),
                    result,
                ) {
                    (Ok(_), Ok(data)) => *data == old(self)@.data && final(self)@ == old(
                        self,
                    )@.counted_up(),
                    (Err(expected), Err(error)) => error == expected && final(self)@ == old(self)@,
                    _ => false,
                }
            },
    {
        if self.phase == PHASE_SETUP_TO_READ {
            match self.wait_for_read_phase() {
                Err(e) => {
                    return Err(e);
                },
                Ok(_) => {},
            }
        }
        match admit_read(self.phase, METHOD_READ) {
            Ok(_) => {
                self.wait.count_up();
                Ok(&self.data)
            },
            Err(e) => Err(e),
        }
    }

    /// Counts a reader out that is done.
    ///
    /// The last reader wakes one that waits to clean up.
    pub fn finish_reading(&mut self) -> (counted: CountDown)
        ensures
            old(self).wf() ==> final(self).wf(),
            leads_to(old(self)@.moment(), final(self)@.moment()),
            rests(old(self)@.moment(), final(self)@.moment()),
            final(self)@.code == old(self)@.code,
            final(self)@.data == old(self)@.data,
            match lowered(old(self)@.wait.counter) {
                None => counted == CountDown::Excessive && final(self)@.wait == old(self)@.wait,
                Some(count) => {
                    let wakes = count == 0 && !old(self)@.wait.poisoned && old(self)@.code
                        == PHASE_READ_TO_CLEANUP;
                    &&& counted == (CountDown::Counted { wakes })
                    &&& final(self)@.wait == (GracefulWaitSyncState {
                        counter: count,
                        blocker: old(self)@.wait.blocker || wakes,
                        ..old(self)@.wait
                    })
                },
            },
    {
        let code: u8 = self.phase;
        let is_awaited = || -> (awaited: bool)
            ensures awaited == (code == PHASE_READ_TO_CLEANUP)
        {
            code == PHASE_READ_TO_CLEANUP
        };
        self.wait.count_down(is_awaited)
    }

    /// Poisons the mutex of the wait, as a panic does that unwinds past a guard of it.
    pub fn poison_wait(&mut self)
        ensures
            old(self).wf() ==> final(self).wf(),
            leads_to(old(self)@.moment(), final(self)@.moment()),
            rests(old(self)@.moment(), final(self)@.moment()),
            final(self)@ == (GracefulPhasedCellState {
                wait: GracefulWaitSyncState { poisoned: true, ..old(self)@.wait },
                ..old(self)@
            }),
    {
        self.wait.poison();
    }

    /// Claims the cell for a transition to the `Cleanup` phase.
    ///
    /// It can be called from either the `Setup` or the `Read` phase.
    pub fn begin_transition_to_cleanup(&mut self) -> (result: Result<(), PhasedError>)
        ensures
            old(self).wf() ==> final(self).wf(),
            leads_to(old(self)@.moment(), final(self)@.moment()),
            rests(old(self)@.moment(), final(self)@.moment()),
            match cleanup_entry(old(self)@.code) {
                Some(entered) => {
                    &&& result == Ok::<(), PhasedError>(())
                    &&& final(self)@ == (GracefulPhasedCellState { code: entered, ..old(self)@ })
                },
                None => {
                    &&& result == Err::<(), PhasedError>(
                        error_of(phase_of(old(self)@.code), cleanup_refusal_kind(old(self)@.code)),
                    )
                    &&& final(self)@ == old(self)@
                },
            },
    {
        match enter_cleanup(self.phase) {
            Some(entered) => {
                self.phase = entered;
                Ok(())
            },
            None => Err(refuse_cleanup(self.phase)),
        }
    }

    /// Looks at the readers for one that has waited to clean up for `elapsed` nanoseconds.
    ///
    /// Returns `None` where no reader is active, and where one is how many nanoseconds
    /// there are until the next look. Returns an error where the time is up and where
    /// the mutex of the wait is poisoned.
    pub fn wait_for_cleanup_phase(&self, timeout: Duration, elapsed: u128) -> (result: Result<
        Option<u128>,
        PhasedError,
    >)
        ensures
            result == (if self@.wait.poisoned {
                Err::<Option<u128>, PhasedError>(
                    error_of(
                        phase_of(self@.code),
                        PhasedErrorKind::GracefulWaitMutexIsPoisoned,
                    ),
                )
            } else {
                match wait_step(self@.wait.counter, elapsed, duration_nanos(timeout)) {
                    WaitStep::Finished => Ok(None),
                    WaitStep::TimedOut => Err(
                        error_of(
                            phase_of(self@.code),
                            PhasedErrorKind::GracefulWaitTimeout(timeout),
                        ),
                    ),
                    WaitStep::Park(nanos) => Ok(Some(nanos)),
                }
            }),
    {
        match self.wait.look(timeout, elapsed) {
            Ok(step) => Ok(step),
            Err(e) => Err(PhasedError::new(u8_to_phase(self.phase), to_phased_kind(e.kind))),
        }
    }

    /// Runs the closure of a transition to the `Cleanup` phase and ends the transition.
    ///
    /// `waited` tells why the wait for the readers failed, if it did. The cell ends in
    /// `Cleanup`, also where the closure fails or panics.
    pub fn finish_transition_to_cleanup<F, E>(
        &mut self,
        waited: Option<PhasedErrorKind>,
        f: F,
    ) -> (result: Result<(), PhasedError<E>>) where F: FnOnce(&mut T) -> Result<(), E>
        requires
            old(self)@.code == PHASE_READ_TO_CLEANUP || old(self)@.code == PHASE_SETUP_TO_CLEANUP,
            may_run(f, old(self)@.data),
        ensures
            old(self).wf() ==> final(self).wf(),
            leads_to(old(self)@.moment(), final(self)@.moment()),
            rests(old(self)@.moment(), final(self)@.moment()),
            final(self)@.code == PHASE_CLEANUP,
            final(self)@.wait == old(self)@.wait,
            exists|d: &mut T, ran: Result<(), E>|
                {
                    &&& #[trigger] f.ensures((d,), ran)
                    &&& *d == old(self)@.data
                    &&& *final(d) == final(self)@.data
                    &&& result == graceful_cleanup_result(ran, waited)
                },
    {
        let entered_at: u8 = if self.phase == PHASE_READ_TO_CLEANUP {
            PHASE_READ
        } else {
            PHASE_SETUP
        };
        self.phase = PHASE_CLEANUP;
        let ran = f(&mut self.data);
        let settlement = settle_caught_cleanup(entered_at, waited, Work::Ran(ran));
        returned(settlement.outcome)
    }

    /// Transitions the cell to the `Cleanup` phase.
    ///
    /// From the `Read` phase it waits for the active readers to finish, for `timeout`
    /// at most, and then runs the closure `f` on the contained data whether or not
    /// they have. No reader can finish while the caller has the cell borrowed, so a
    /// wait for active readers ends when the time is up.
    ///
    /// Returns an error if the phase transition fails, the closure returns an error or,
    /// where the closure succeeds, the wait fails.
    pub fn transition_to_cleanup<F, E>(&mut self, timeout: Duration, f: F) -> (result: Result<
        (),
        PhasedError<E>,
    >) where F: FnOnce(&mut T) -> Result<(), E>
        requires
            cleanup_entry(old(self)@.code) is Some ==> may_run(f, old(self)@.data),
        ensures
            old(self).wf() ==> final(self).wf(),
            leads_to(old(self)@.moment(), final(self)@.moment()),
            rests(old(self)@.moment(), final(self)@.moment()),
            match cleanup_entry(old(self)@.code) {
                Some(_) => {
                    &&& final(self)@.code == PHASE_CLEANUP
                    &&& final(self)@.wait == old(self)@.wait
                    &&& exists|d: &mut T, ran: Result<(), E>|
                        {
                            &&& #[trigger] f.ensures((d,), ran)
                            &&& *d == old(self)@.data
                            &&& *final(d) == final(self)@.data
                            &&& result == graceful_cleanup_result(
                                ran,
                                if old(self)@.code == PHASE_READ {
                                    old(self)@.waited(timeout)
                                } else {
                                    None
                                },
                            )
                        }
                },
                None => {
                    &&& final(self)@ == old(self)@
                    &&& result == Err::<(), PhasedError<E>>(
                        error_of(phase_of(old(self)@.code), cleanup_refusal_kind(old(self)@.code)),
                    )
                },
            },
    {
        match enter_cleanup(self.phase) {
            Some(entered) => {
                let waited = if self.phase == PHASE_READ {
                    match self.wait.wait_gracefully(timeout) {
                        Ok(_) => None,
                        Err(e) => Some(to_phased_kind(e.kind)),
                    }
                } else {
                    None
                };
                self.phase = entered;
                self.finish_transition_to_cleanup(waited, f)
            },
            None => Err(refuse_cleanup(self.phase)),
        }
    }

    /// Claims the cell for a transition from the `Setup` phase to the `Read` phase.
    pub fn begin_transition_to_read(&mut self) -> (result: Result<(), PhasedError>)
        ensures
            old(self).wf() ==> final(self).wf(),
            leads_to(old(self)@.moment(), final(self)@.moment()),
            rests(old(self)@.moment(), final(self)@.moment()),
            match read_entry(old(self)@.code) {
                Some(entered) => {
                    &&& result == Ok::<(), PhasedError>(())
                    &&& final(self)@ == (GracefulPhasedCellState { code: entered, ..old(self)@ })
                },
                None => {
                    &&& result == Err::<(), PhasedError>(
                        error_of(phase_of(old(self)@.code), read_refusal_kind(old(self)@.code)),
                    )
                    &&& final(self)@ == old(self)@
                },
            },
    {
        match enter_read(self.phase) {
            Some(entered) => {
                self.phase = entered;
                Ok(())
            },
            None => Err(refuse_read(self.phase)),
        }
    }

    /// Runs the closure of a transition to the `Read` phase, ends the transition and
    /// tells the readers that wait for it.
    ///
    /// The cell ends in `Read` where the closure succeeds, and is back in `Setup`
    /// where it fails or panics. Where the readers could not be told, that is the
    /// error.
    pub fn finish_transition_to_read<F, E>(&mut self, f: F) -> (result: Result<
        (),
        PhasedError<E>,
    >) where F: FnOnce(&mut T) -> Result<(), E>
        requires
            old(self)@.code == PHASE_SETUP_TO_READ,
            may_run(f, old(self)@.data),
        ensures
            old(self).wf() ==> final(self).wf(),
            leads_to(old(self)@.moment(), final(self)@.moment()),
            rests(old(self)@.moment(), final(self)@.moment()),
            final(self)@.wait == old(self)@.wait,
            exists|d: &mut T, ran: Result<(), E>|
                {
                    &&& #[trigger] f.ensures((d,), ran)
                    &&& *d == old(self)@.data
                    &&& *final(d) == final(self)@.data
                    &&& final(self)@.code == (if ran is Ok {
                        PHASE_READ
                    } else {
                        PHASE_SETUP
                    })
                    &&& result == notified_result(read_result(ran), !old(self)@.wait.poisoned)
                },
    {
        self.phase = PHASE_SETUP;
        let ran = f(&mut self.data);
        let settlement = settle_read(Work::Ran(ran));
        self.phase = settlement.to;
        returned(notice_read(settlement.outcome, !self.wait.is_poisoned()))
    }

    /// Transitions the cell from the `Setup` phase to the `Read` phase.
    ///
    /// This method takes a closure `f` which is executed on the contained data
    /// during the transition.
    ///
    /// Returns an error if the cell is not in the `Setup` phase, the mutex of the wait is
    /// poisoned or the closure returns an error. If the provided closure panics, the
    /// cell's phase is `Setup`.
    pub fn transition_to_read<F, E>(&mut self, f: F) -> (result: Result<
        (),
        PhasedError<E>,
    >) where F: FnOnce(&mut T) -> Result<(), E>
        requires
            read_entry(old(self)@.code) is Some ==> may_run(f, old(self)@.data),
        ensures
            old(self).wf() ==> final(self).wf(),
            leads_to(old(self)@.moment(), final(self)@.moment()),
            rests(old(self)@.moment(), final(self)@.moment()),
            match read_entry(old(self)@.code) {
                Some(_) => {
                    &&& final(self)@.wait == old(self)@.wait
                    &&& exists|d: &mut T, ran: Result<(), E>|
                        {
                            &&& #[trigger] f.ensures((d,), ran)
                            &&& *d == old(self)@.data
                            &&& *final(d) == final(self)@.data
                            &&& final(self)@.code == (if ran is Ok {
                                PHASE_READ
                            } else {
                                PHASE_SETUP
                            })
                            &&& result == notified_result(
                                read_result(ran),
                                !old(self)@.wait.poisoned,
                            )
                        }
                },
                None => {
                    &&& final(self)@ == old(self)@
                    &&& result == Err::<(), PhasedError<E>>(
                        error_of(phase_of(old(self)@.code), read_refusal_kind(old(self)@.code)),
                    )
                },
            },
    {
        match enter_read(self.phase) {
            Some(entered) => {
                self.phase = entered;
                self.finish_transition_to_read(f)
            },
            None => Err(refuse_read(self.phase)),
        }
    }

    /// Returns a mutable reference to the contained data without acquiring a lock.
    ///
    /// This method is only successful if the cell is in the `Setup` or `Cleanup` phase.
    pub fn get_mut_unlocked(&mut self) -> (result: Result<&mut T, PhasedError>)
        ensures
            old(self).wf() ==> final(self).wf(),
            leads_to(old(self)@.moment(), final(self)@.moment()),
            rests(old(self)@.moment(), final(self)@.moment()),
            final(self)@.code == old(self)@.code,
            final(self)@.wait == old(self)@.wait,
            match (mut_admission(old(self)@.code, METHOD_GET_MUT_UNLOCKED), result) {
                (Ok(_), Ok(data)) => *data == old(self)@.data && final(self)@.data == *final(data),
                (Err(e), Err(error)) => error == e && final(self)@.data == old(self)@.data,
                _ => false,
            },
    {
        match admit_mut(self.phase, METHOD_GET_MUT_UNLOCKED) {
            Ok(_) => Ok(&mut self.data),
            Err(e) => Err(e),
        }
    }
}

} // verus!
