//! The cell whose data is behind a `tokio::sync::Mutex` outside of the `Read` phase.

use crate::errors::{
    error_of, PhasedError, PhasedErrorKind, METHOD_LOCK_ASYNC, METHOD_READ, METHOD_READ_RELAXED,
};
use crate::guards::TokioMutexGuard;
use crate::lifecycle::{leads_to, rests, Moment};
use crate::phase::{
    is_phase_code, phase_of, u8_to_phase, Phase, PHASE_CLEANUP, PHASE_READ, PHASE_READ_TO_CLEANUP,
    PHASE_SETUP, PHASE_SETUP_TO_CLEANUP, PHASE_SETUP_TO_READ,
};
use crate::slots::Slots;
use crate::transition::{
    admit_lock, brings_back, change_phase, cleanup_entry, cleanup_refusal_kind, cleanup_result,
    enter_cleanup, enter_read, lock_admission, may_run, read_entry, read_refusal_kind, read_result,
    read_slot, refuse_cleanup, refuse_read, returned, settle_cleanup, settle_read,
    slot_admission, Lock, Work,
};
use vstd::prelude::*;

verus! {

/// An asynchronous cell for managing data through `Setup`, `Read`, and `Cleanup` phases.
///
/// `PhasedCellAsync` is similar to `PhasedCellSync` but is designed for asynchronous
/// contexts. Its mutex cannot be poisoned, but one that does not want to wait for it
/// can find it held.
///
/// A caller that awaits the mutex or its closure claims the cell first, awaits, and
/// ends the transition then; in between the cell is in transition.
pub struct PhasedCellAsync<T: Send + Sync> {
    phase: u8,
    slots: Slots<T>,
}

/// The state of a `PhasedCellAsync`.
pub struct PhasedCellAsyncState<T> {
    /// The phase code.
    pub code: u8,
    /// The two places of the data.
    pub slots: Slots<T>,
}

impl<T> PhasedCellAsyncState<T> {
    /// The moment in the life of the cell that this is.
    pub open spec fn moment(self) -> Moment<Slots<T>> {
        Moment { code: self.code, data: self.slots }
    }
}

impl<T: Send + Sync> View for PhasedCellAsync<T> {
    type V = PhasedCellAsyncState<T>;

    closed spec fn view(&self) -> PhasedCellAsyncState<T> {
        PhasedCellAsyncState { code: self.phase, slots: self.slots }
    }
}

impl<T: Send + Sync> PhasedCellAsync<T> {
    /// The phase code is a known one and the data is in its place for it.
    pub open spec fn wf(&self) -> bool {
        &&& is_phase_code(self@.code)
        &&& self@.slots.placed(self@.code)
    }

    /// Creates a new `PhasedCellAsync` in the `Setup` phase, containing the provided data.
    pub fn new(data: T) -> (cell: Self)
        ensures
            cell.wf(),
            cell@ == (PhasedCellAsyncState {
                code: PHASE_SETUP,
                slots: Slots { mutex: Some(data), cell: None },
            }),
    {
        Self { phase: PHASE_SETUP, slots: Slots { mutex: Some(data), cell: None } }
    }

    /// Returns the current phase of the cell with relaxed memory ordering.
    ///
    /// One that owns the cell sees the same with any memory ordering.
    pub fn phase_relaxed(&self) -> (phase: Phase)
        ensures
            phase == phase_of(self@.code),
    {
        u8_to_phase(self.phase)
    }

    /// Returns the current phase of the cell.
    pub fn phase(&self) -> (phase: Phase)
        ensures
            phase == phase_of(self@.code),
    {
        u8_to_phase(self.phase)
    }

    /// Returns a reference to the contained data with relaxed memory ordering.
    ///
    /// This method is only successful if the cell is in the `Read` phase.
    pub fn read_relaxed(&self) -> (result: Result<&T, PhasedError>)
        ensures
            match (slot_admission(self@.code, self@.slots.cell, METHOD_READ_RELAXED), result) {
                (Ok(expected), Ok(data)) => *data == expected,
                (Err(expected), Err(error)) => error == expected,
                _ => false,
            },
    {
        read_slot(self.phase, &self.slots.cell, METHOD_READ_RELAXED)
    }

    /// Returns a reference to the contained data.
    ///
    /// This method is only successful if the cell is in the `Read` phase.
    pub fn read(&self) -> (result: Result<&T, PhasedError>)
        ensures
            match (slot_admission(self@.code, self@.slots.cell, METHOD_READ), result) {
                (Ok(expected), Ok(data)) => *data == expected,
                (Err(expected), Err(error)) => error == expected,
                _ => false,
            },
    {
        read_slot(self.phase, &self.slots.cell, METHOD_READ)
    }

    /// Claims the cell for a transition to the `Cleanup` phase.
    ///
    /// It can be called from either the `Setup` or the `Read` phase.
    pub fn begin_transition_to_cleanup(&mut self) -> (result: Result<(), PhasedError>)
        ensures
            old(self).wf() ==> final(self).wf(),
            leads_to(old(self)@.moment(), final(self)@.moment()),
            rests(old(self)@.moment(), final(self)@.moment()),
            match cleanup_entry(old(self)@.code) {
                Some(entered) => {
                    &&& result == Ok::<(), PhasedError>(())
                    &&& final(self)@ == (PhasedCellAsyncState { code: entered, ..old(self)@ })
                },
                None => {
                    &&& result == Err::<(), PhasedError>(
                        error_of(phase_of(old(self)@.code), cleanup_refusal_kind(old(self)@.code)),
                    )
                    &&& final(self)@ == old(self)@
                },
            },
    {
        match enter_cleanup(self.phase) {
            Some(entered) => {
                self.phase = entered;
                Ok(())
            },
            None => Err(refuse_cleanup(self.phase)),
        }
    }

    /// Runs the closure of a transition to the `Cleanup` phase, with the mutex held,
    /// and ends the transition.
    ///
    /// The cell ends in `Cleanup`, also where the closure fails or panics or could
    /// not be run.
    pub fn finish_transition_to_cleanup<F, E>(&mut self, f: F) -> (result: Result<
        (),
        PhasedError<E>,
    >) where F: FnOnce(&mut T) -> Result<(), E>
        requires
            old(self)@.code == PHASE_READ_TO_CLEANUP || old(self)@.code == PHASE_SETUP_TO_CLEANUP,
            old(self)@.slots.cleaned(old(self)@.code) matches Some(data) ==> may_run(f, data),
        ensures
            old(self).wf() ==> final(self).wf(),
            leads_to(old(self)@.moment(), final(self)@.moment()),
            rests(old(self)@.moment(), final(self)@.moment()),
            final(self)@.code == PHASE_CLEANUP,
            match old(self)@.slots.cleaned(old(self)@.code) {
                Some(data) => exists|d: &mut T, ran: Result<(), E>|
                    {
                        &&& #[trigger] f.ensures((d,), ran)
                        &&& *d == data
                        &&& final(self)@.slots == old(self)@.slots.after_cleanup(
                            old(self)@.code,
                            *final(d),
                        )
                        &&& result == cleanup_result(ran)
                    },
                None => {
                    &&& final(self)@.slots == old(self)@.slots
                    &&& result == Err::<(), PhasedError<E>>(
                        error_of(Phase::Cleanup, PhasedErrorKind::InternalDataUnavailable),
                    )
                },
            },
    {
        let entered_at: u8 = if self.phase == PHASE_READ_TO_CLEANUP {
            PHASE_READ
        } else {
            PHASE_SETUP
        };
        self.phase = PHASE_CLEANUP;
        let work = if entered_at == PHASE_READ && self.slots.cell.is_none() {
            Work::Missing
        } else {
            // The data moves before the closure runs, so that it is behind the
            // mutex even if the closure panics.
            if entered_at == PHASE_READ {
                self.slots.swap();
            }
            match &mut self.slots.mutex {
                Some(data) => Work::Ran(f(data)),
                None => Work::Missing,
            }
        };
        returned(settle_cleanup(entered_at, work).outcome)
    }

    /// Transitions the cell to the `Cleanup` phase.
    ///
    /// This method takes a closure `f` which is executed on the contained data.
    /// It can be called from either the `Setup` or the `Read` phase.
    ///
    /// Returns an error if the phase transition fails or the closure returns an error.
    /// If the provided closure panics, the cell's phase is `Cleanup`.
    pub fn transition_to_cleanup_async<F, E>(&mut self, f: F) -> (result: Result<
        (),
        PhasedError<E>,
    >) where F: FnOnce(&mut T) -> Result<(), E>
        requires
            cleanup_entry(old(self)@.code) matches Some(entered) ==> (old(self)@.slots.cleaned(
                entered,
            ) matches Some(data) ==> may_run(f, data)),
        ensures
            old(self).wf() ==> final(self).wf(),
            leads_to(old(self)@.moment(), final(self)@.moment()),
            rests(old(self)@.moment(), final(self)@.moment()),
            match cleanup_entry(old(self)@.code) {
                Some(entered) => {
                    &&& final(self)@.code == PHASE_CLEANUP
                    &&& match old(self)@.slots.cleaned(entered) {
                        Some(data) => exists|d: &mut T, ran: Result<(), E>|
                            {
                                &&& #[trigger] f.ensures((d,), ran)
                                &&& *d == data
                                &&& final(self)@.slots == old(self)@.slots.after_cleanup(
                                    entered,
                                    *final(d),
                                )
                                &&& result == cleanup_result(ran)
                            },
                        None => {
                            &&& final(self)@.slots == old(self)@.slots
                            &&& result == Err::<(), PhasedError<E>>(
                                error_of(Phase::Cleanup, PhasedErrorKind::InternalDataUnavailable),
                            )
                        },
                    }
                },
                None => {
                    &&& final(self)@ == old(self)@
                    &&& result == Err::<(), PhasedError<E>>(
                        error_of(phase_of(old(self)@.code), cleanup_refusal_kind(old(self)@.code)),
                    )
                },
            },
    {
        match enter_cleanup(self.phase) {
            Some(entered) => {
                self.phase = entered;
                self.finish_transition_to_cleanup(f)
            },
            None => Err(refuse_cleanup(self.phase)),
        }
    }

    /// Ends a transition to the `Cleanup` phase that does not wait for the mutex.
    ///
    /// `locked` tells whether the mutex was free. Where it was held by someone else the
    /// closure is not run, and the cell ends in `Cleanup` all the same. Data that was open
    /// for reading is left in the cell then, and the next `lock_async` brings it back.
    pub fn finish_force_to_cleanup<F, E>(&mut self, locked: bool, f: F) -> (result: Result<
        (),
        PhasedError<E>,
    >) where F: FnOnce(&mut T) -> Result<(), E>
        requires
            old(self)@.code == PHASE_READ_TO_CLEANUP || old(self)@.code == PHASE_SETUP_TO_CLEANUP,
            locked ==> (old(self)@.slots.cleaned(old(self)@.code) matches Some(data) ==> may_run(
                f,
                data,
            )),
        ensures
            old(self).wf() ==> final(self).wf(),
            leads_to(old(self)@.moment(), final(self)@.moment()),
            rests(old(self)@.moment(), final(self)@.moment()),
            if !locked {
                &&& final(self)@ == (PhasedCellAsyncState {
                    code: PHASE_CLEANUP,
                    ..old(self)@
                })
                &&& result == Err::<(), PhasedError<E>>(
                    error_of(Phase::Cleanup, PhasedErrorKind::MutexTryLockFailed),
                )
            } else {
                &&& final(self)@.code == PHASE_CLEANUP
                &&& match old(self)@.slots.cleaned(old(self)@.code) {
                    Some(data) => exists|d: &mut T, ran: Result<(), E>|
                        {
                            &&& #[trigger] f.ensures((d,), ran)
                            &&& *d == data
                            &&& final(self)@.slots == old(self)@.slots.after_cleanup(
                                old(self)@.code,
                                *final(d),
                            )
                            &&& result == cleanup_result(ran)
                        },
                    None => {
                        &&& final(self)@.slots == old(self)@.slots
                        &&& result == Err::<(), PhasedError<E>>(
                            error_of(Phase::Cleanup, PhasedErrorKind::InternalDataUnavailable),
                        )
                    },
                }
            },
    {
        if locked {
            return self.finish_transition_to_cleanup(f);
        }
        let entered_at: u8 = if self.phase == PHASE_READ_TO_CLEANUP {
            PHASE_READ
        } else {
            PHASE_SETUP
        };
        let settlement = settle_cleanup(entered_at, Work::Busy);
        self.phase = change_phase(self.phase, settlement.from, settlement.to);
        returned(settlement.outcome)
    }

    /// Forcibly transitions the cell to the `Cleanup` phase.
    ///
    /// This method is a version of `transition_to_cleanup_async` that does not wait
    /// for the mutex. One that owns the cell finds the mutex free.
    ///
    /// It can be called from either the `Setup` or the `Read` phase.
    ///
    /// Returns an error if the phase transition fails or the closure returns an error.
    /// If the provided closure panics, the cell's phase is `Cleanup`.
    pub fn force_to_cleanup<F, E>(&mut self, f: F) -> (result: Result<
        (),
        PhasedError<E>,
    >) where F: FnOnce(&mut T) -> Result<(), E>
        requires
            cleanup_entry(old(self)@.code) matches Some(entered) ==> (old(self)@.slots.cleaned(
                entered,
            ) matches Some(data) ==> may_run(f, data)),
        ensures
            old(self).wf() ==> final(self).wf(),
            leads_to(old(self)@.moment(), final(self)@.moment()),
            rests(old(self)@.moment(), final(self)@.moment()),
            match cleanup_entry(old(self)@.code) {
                Some(entered) => {
                    &&& final(self)@.code == PHASE_CLEANUP
                    &&& match old(self)@.slots.cleaned(entered) {
                        Some(data) => exists|d: &mut T, ran: Result<(), E>|
                            {
                                &&& #[trigger] f.ensures((d,), ran)
                                &&& *d == data
                                &&& final(self)@.slots == old(self)@.slots.after_cleanup(
                                    entered,
                                    *final(d),
                                )
                                &&& result == cleanup_result(ran)
                            },
                        None => {
                            &&& final(self)@.slots == old(self)@.slots
                            &&& result == Err::<(), PhasedError<E>>(
                                error_of(Phase::Cleanup, PhasedErrorKind::InternalDataUnavailable),
                            )
                        },
                    }
                },
                None => {
                    &&& final(self)@ == old(self)@
                    &&& result == Err::<(), PhasedError<E>>(
                        error_of(phase_of(old(self)@.code), cleanup_refusal_kind(old(self)@.code)),
                    )
                },
            },
    {
        match enter_cleanup(self.phase) {
            Some(entered) => {
                self.phase = entered;
                self.finish_force_to_cleanup(true, f)
            },
            None => Err(refuse_cleanup(self.phase)),
        }
    }

    /// Claims the cell for a transition from the `Setup` phase to the `Read` phase.
    pub fn begin_transition_to_read(&mut self) -> (result: Result<(), PhasedError>)
        ensures
            old(self).wf() ==> final(self).wf(),
            leads_to(old(self)@.moment(), final(self)@.moment()),
            rests(old(self)@.moment(), final(self)@.moment()),
            match read_entry(old(self)@.code) {
                Some(entered) => {
                    &&& result == Ok::<(), PhasedError>(())
                    &&& final(self)@ == (PhasedCellAsyncState { code: entered, ..old(self)@ })
                },
                None => {
                    &&& result == Err::<(), PhasedError>(
                        error_of(phase_of(old(self)@.code), read_refusal_kind(old(self)@.code)),
                    )
                    &&& final(self)@ == old(self)@
                },
            },
    {
        match enter_read(self.phase) {
            Some(entered) => {
                self.phase = entered;
                Ok(())
            },
            None => Err(refuse_read(self.phase)),
        }
    }

    /// Runs the closure of a transition to the `Read` phase, with the mutex held, and
    /// ends the transition.
    ///
    /// The cell ends in `Read`, with the data open for reading, where the closure
    /// succeeds. It is back in `Setup` where the closure fails or panics or could
    /// not be run.
    pub fn finish_transition_to_read<F, E>(&mut self, f: F) -> (result: Result<
        (),
        PhasedError<E>,
    >) where F: FnOnce(&mut T) -> Result<(), E>
        requires
            old(self)@.code == PHASE_SETUP_TO_READ,
            old(self)@.slots.mutex matches Some(data) ==> may_run(f, data),
        ensures
            old(self).wf() ==> final(self).wf(),
            leads_to(old(self)@.moment(), final(self)@.moment()),
            rests(old(self)@.moment(), final(self)@.moment()),
            final(self)@.code == (if result is Ok {
                PHASE_READ
            } else {
                PHASE_SETUP
            }),
            match old(self)@.slots.mutex {
                Some(data) => exists|d: &mut T, ran: Result<(), E>|
                    {
                        &&& #[trigger] f.ensures((d,), ran)
                        &&& *d == data
                        &&& final(self)@.slots == old(self)@.slots.after_read(
                            ran is Ok,
                            *final(d),
                        )
                        &&& result == read_result(ran)
                    },
                None => {
                    &&& final(self)@.slots == old(self)@.slots
                    &&& result == Err::<(), PhasedError<E>>(
                        error_of(Phase::Setup, PhasedErrorKind::InternalDataUnavailable),
                    )
                },
            },
    {
        self.phase = PHASE_SETUP;
        let work = match &mut self.slots.mutex {
            Some(data) => Work::Ran(f(data)),
            None => Work::Missing,
        };
        let settlement = settle_read(work);
        if settlement.moves {
            self.slots.swap();
        }
        self.phase = settlement.to;
        returned(settlement.outcome)
    }

    /// Transitions the cell from the `Setup` phase to the `Read` phase.
    ///
    /// This method takes a closure `f` which is executed on the contained data
    /// during the transition.
    ///
    /// Returns an error if the cell is not in the `Setup` phase or if the closure
    /// returns an error. If the provided closure panics, the cell's phase is `Setup`.
    pub fn transition_to_read_async<F, E>(&mut self, f: F) -> (result: Result<
        (),
        PhasedError<E>,
    >) where F: FnOnce(&mut T) -> Result<(), E>
        requires
            read_entry(old(self)@.code) is Some ==> (old(self)@.slots.mutex matches Some(data)
                ==> may_run(f, data)),
        ensures
            old(self).wf() ==> final(self).wf(),
            leads_to(old(self)@.moment(), final(self)@.moment()),
            rests(old(self)@.moment(), final(self)@.moment()),
            match read_entry(old(self)@.code) {
                Some(_) => {
                    &&& final(self)@.code == (if result is Ok {
                        PHASE_READ
                    } else {
                        PHASE_SETUP
                    })
                    &&& match old(self)@.slots.mutex {
                        Some(data) => exists|d: &mut T, ran: Result<(), E>|
                            {
                                &&& #[trigger] f.ensures((d,), ran)
                                &&& *d == data
                                &&& final(self)@.slots == old(self)@.slots.after_read(
                                    ran is Ok,
                                    *final(d),
                                )
                                &&& result == read_result(ran)
                            },
                        None => {
                            &&& final(self)@.slots == old(self)@.slots
                            &&& result == Err::<(), PhasedError<E>>(
                                error_of(Phase::Setup, PhasedErrorKind::InternalDataUnavailable),
                            )
                        },
                    }
                },
                None => {
                    &&& final(self)@ == old(self)@
                    &&& result == Err::<(), PhasedError<E>>(
                        error_of(phase_of(old(self)@.code), read_refusal_kind(old(self)@.code)),
                    )
                },
            },
    {
        match enter_read(self.phase) {
            Some(entered) => {
                self.phase = entered;
                self.finish_transition_to_read(f)
            },
            None => Err(refuse_read(self.phase)),
        }
    }

    /// Ends a transition to the `Read` phase that does not wait for the mutex.
    ///
    /// `locked` tells whether the mutex was free. Where it was held by someone else
    /// the closure is not run and the cell is back in `Setup`.
    pub fn finish_force_to_read<F, E>(&mut self, locked: bool, f: F) -> (result: Result<
        (),
        PhasedError<E>,
    >) where F: FnOnce(&mut T) -> Result<(), E>
        requires
            old(self)@.code == PHASE_SETUP_TO_READ,
            locked ==> (old(self)@.slots.mutex matches Some(data) ==> may_run(f, data)),
        ensures
            old(self).wf() ==> final(self).wf(),
            leads_to(old(self)@.moment(), final(self)@.moment()),
            rests(old(self)@.moment(), final(self)@.moment()),
            final(self)@.code == (if result is Ok {
                PHASE_READ
            } else {
                PHASE_SETUP
            }),
            if !locked {
                &&& final(self)@.slots == old(self)@.slots
                &&& result == Err::<(), PhasedError<E>>(
                    error_of(Phase::Setup, PhasedErrorKind::MutexTryLockFailed),
                )
            } else {
                match old(self)@.slots.mutex {
                    Some(data) => exists|d: &mut T, ran: Result<(), E>|
                        {
                            &&& #[trigger] f.ensures((d,), ran)
                            &&& *d == data
                            &&& final(self)@.slots == old(self)@.slots.after_read(
                                ran is Ok,
                                *final(d),
                            )
                            &&& result == read_result(ran)
                        },
                    None => {
                        &&& final(self)@.slots == old(self)@.slots
                        &&& result == Err::<(), PhasedError<E>>(
                            error_of(Phase::Setup, PhasedErrorKind::InternalDataUnavailable),
                        )
                    },
                }
            },
    {
        if locked {
            return self.finish_transition_to_read(f);
        }
        let settlement = settle_read(Work::Busy);
        self.phase = change_phase(self.phase, settlement.from, settlement.to);
        returned(settlement.outcome)
    }

    /// Forcibly transitions the cell from the `Setup` phase to the `Read` phase.
    ///
    /// This method is a version of `transition_to_read_async` that does not wait for
    /// the mutex. One that owns the cell finds the mutex free.
    ///
    /// Returns an error if the cell is not in the `Setup` phase or if the closure
    /// returns an error. If the provided closure panics, the cell's phase is `Setup`.
    pub fn force_to_read<F, E>(&mut self, f: F) -> (result: Result<
        (),
        PhasedError<E>,
    >) where F: FnOnce(&mut T) -> Result<(), E>
        requires
            read_entry(old(self)@.code) is Some ==> (old(self)@.slots.mutex matches Some(data)
                ==> may_run(f, data)),
        ensures
            old(self).wf() ==> final(self).wf(),
            leads_to(old(self)@.moment(), final(self)@.moment()),
            rests(old(self)@.moment(), final(self)@.moment()),
            match read_entry(old(self)@.code) {
                Some(_) => {
                    &&& final(self)@.code == (if result is Ok {
                        PHASE_READ
                    } else {
                        PHASE_SETUP
                    })
                    &&& match old(self)@.slots.mutex {
                        Some(data) => exists|d: &mut T, ran: Result<(), E>|
                            {
                                &&& #[trigger] f.ensures((d,), ran)
                                &&& *d == data
                                &&& final(self)@.slots == old(self)@.slots.after_read(
                                    ran is Ok,
                                    *final(d),
                                )
                                &&& result == read_result(ran)
                            },
                        None => {
                            &&& final(self)@.slots == old(self)@.slots
                            &&& result == Err::<(), PhasedError<E>>(
                                error_of(Phase::Setup, PhasedErrorKind::InternalDataUnavailable),
                            )
                        },
                    }
                },
                None => {
                    &&& final(self)@ == old(self)@
                    &&& result == Err::<(), PhasedError<E>>(
                        error_of(phase_of(old(self)@.code), read_refusal_kind(old(self)@.code)),
                    )
                },
            },
    {
        match enter_read(self.phase) {
            Some(entered) => {
                self.phase = entered;
                self.finish_force_to_read(true, f)
            },
            None => Err(refuse_read(self.phase)),
        }
    }

    /// Acquires the lock of the data and gives mutable access to it.
    ///
    /// This method is only successful if the cell is in the `Setup` or `Cleanup` phase. Data
    /// that a forced cleanup left open for reading is brought back behind the mutex.
    ///
    /// Returns an error if the cell is in the `Read` phase or in transition.
    pub fn lock_async(&mut self) -> (result: Result<TokioMutexGuard<'_, T>, PhasedError>)
        ensures
            old(self).wf() ==> final(self).wf(),
            leads_to(old(self)@.moment(), final(self)@.moment()),
            rests(old(self)@.moment(), final(self)@.moment()),
            final(self)@.code == old(self)@.code,
            final(self)@.slots.cell == old(self)@.slots.held(old(self)@.code).cell,
            match (
                lock_admission(
                    old(self)@.code,
                    Lock::Acquired {
                        code: old(self)@.code,
                        filled: old(self)@.slots.held(old(self)@.code).mutex is Some,
                    },
                    METHOD_LOCK_ASYNC,
                ),
                result,
            ) {
                (Ok(_), Ok(guard)) => {
                    &&& old(self)@.slots.held(old(self)@.code).mutex == Some(*guard.inner)
                    &&& final(self)@.slots.mutex == Some(*final(guard.inner))
                },
                (Err(expected), Err(error)) => {
                    &&& error == expected
                    &&& final(self)@.slots.mutex == old(self)@.slots.held(old(self)@.code).mutex
                },
                _ => false,
            },
    {
        if brings_back(self.phase, self.slots.mutex.is_some()) {
            self.slots.swap();
        }
        let lock = Lock::Acquired { code: self.phase, filled: self.slots.mutex.is_some() };
        match admit_lock(self.phase, lock, METHOD_LOCK_ASYNC) {
            Err(e) => Err(e),
            Ok(_) => match TokioMutexGuard::try_new(&mut self.slots.mutex) {
                Some(guard) => Ok(guard),
                None => vstd::pervasive::unreached(),
            },
        }
    }
}

} // verus!
