//! The cell whose data is behind a `std::sync::Mutex` outside of the `Read` phase.

use crate::errors::{
    error_of, PhasedError, PhasedErrorKind, METHOD_LOCK, METHOD_READ, METHOD_READ_RELAXED,
};
use crate::guards::StdMutexGuard;
use crate::lifecycle::{leads_to, rests, Moment};
use crate::phase::{
    is_phase_code, phase_of, u8_to_phase, Phase, PHASE_CLEANUP, PHASE_READ, PHASE_READ_TO_CLEANUP,
    PHASE_SETUP, PHASE_SETUP_TO_CLEANUP, PHASE_SETUP_TO_READ,
};
use crate::slots::Slots;
use crate::transition::{
    admit_lock, cleanup_entry, cleanup_refusal_kind, cleanup_result, enter_cleanup, enter_read,
    lock_admission, may_run, read_entry, read_refusal_kind, read_result, read_slot, refuse_cleanup,
    refuse_read, returned, settle_cleanup, settle_read, slot_admission, Lock, Work,
};
use vstd::prelude::*;

verus! {

/// A cell that manages data through `Setup`, `Read`, and `Cleanup` phases
/// with support for mutable access under a lock.
///
/// `PhasedCellSync` is similar to `PhasedCell` but keeps the data behind a mutex
/// during the `Setup` and `Cleanup` phases. The mutex is poisoned once a holder of
/// its lock has panicked.
pub struct PhasedCellSync<T: Send + Sync> {
    phase: u8,
    poisoned: bool,
    slots: Slots<T>,
}

/// The state of a `PhasedCellSync`.
pub struct PhasedCellSyncState<T> {
    /// The phase code.
    pub code: u8,
    /// Whether the mutex of the data is poisoned.
    pub poisoned: bool,
    /// The two places of the data.
    pub slots: Slots<T>,
}

impl<T> PhasedCellSyncState<T> {
    /// The moment in the life of the cell that this is.
    pub open spec fn moment(self) -> Moment<Slots<T>> {
        Moment { code: self.code, data: self.slots }
    }
}

impl<T: Send + Sync> View for PhasedCellSync<T> {
    type V = PhasedCellSyncState<T>;

    closed spec fn view(&self) -> PhasedCellSyncState<T> {
        PhasedCellSyncState { code: self.phase, poisoned: self.poisoned, slots: self.slots }
    }
}

/// The data that a transition gets to work on, or the error that keeps it from
/// the data.
pub open spec fn guarded_work<T>(poisoned: bool, slot: Option<T>) -> Result<T, PhasedErrorKind> {
    if poisoned {
        Err(PhasedErrorKind::InternalDataMutexIsPoisoned)
    } else {
        match slot {
            Some(data) => Ok(data),
            None => Err(PhasedErrorKind::InternalDataUnavailable),
        }
    }
}

/// What behaves like the mutex of the data for one that owns the cell.
pub open spec fn owned_lock<T>(code: u8, poisoned: bool, slots: Slots<T>) -> Lock {
    if poisoned {
        Lock::Poisoned
    } else {
        Lock::Acquired { code, filled: slots.mutex is Some }
    }
}

impl<T: Send + Sync> PhasedCellSync<T> {
    /// The phase code is a known one and the data is in its place for it: in
    /// `Cleanup` that is behind the mutex, unless a poisoned mutex kept it out.
    pub open spec fn wf(&self) -> bool {
        &&& is_phase_code(self@.code)
        &&& self@.slots.placed(self@.code)
        &&& self@.code == PHASE_CLEANUP && !self@.poisoned ==> self@.slots.mutex is Some
    }

    /// Creates a new `PhasedCellSync` in the `Setup` phase, containing the provided data.
    pub fn new(data: T) -> (cell: Self)
        ensures
            cell.wf(),
            cell@ == (PhasedCellSyncState {
                code: PHASE_SETUP,
                poisoned: false,
                slots: Slots { mutex: Some(data), cell: None },
            }),
    {
        Self { phase: PHASE_SETUP, poisoned: false, slots: Slots { mutex: Some(data), cell: None } }
    }

    /// Returns the current phase of the cell with relaxed memory ordering.
    ///
    /// One that owns the cell sees the same with any memory ordering.
    pub fn phase_relaxed(&self) -> (phase: Phase)
        ensures
            phase == phase_of(self@.code),
    {
        u8_to_phase(self.phase)
    }

    /// Returns the current phase of the cell.
    pub fn phase(&self) -> (phase: Phase)
        ensures
            phase == phase_of(self@.code),
    {
        u8_to_phase(self.phase)
    }

    /// Returns a reference to the contained data with relaxed memory ordering.
    ///
    /// This method is only successful if the cell is in the `Read` phase.
    pub fn read_relaxed(&self) -> (result: Result<&T, PhasedError>)
        ensures
            match (slot_admission(self@.code, self@.slots.cell, METHOD_READ_RELAXED), result) {
                (Ok(expected), Ok(data)) => *data == expected,
                (Err(expected), Err(error)) => error == expected,
                _ => false,
            },
    {
        read_slot(self.phase, &self.slots.cell, METHOD_READ_RELAXED)
    }

    /// Returns a reference to the contained data.
    ///
    /// This method is only successful if the cell is in the `Read` phase.
    pub fn read(&self) -> (result: Result<&T, PhasedError>)
        ensures
            match (slot_admission(self@.code, self@.slots.cell, METHOD_READ), result) {
                (Ok(expected), Ok(data)) => *data == expected,
                (Err(expected), Err(error)) => error == expected,
                _ => false,
            },
    {
        read_slot(self.phase, &self.slots.cell, METHOD_READ)
    }

    /// Poisons the mutex of the data, as a panic does that unwinds past a guard
    /// of `lock`.
    pub fn poison(&mut self)
        ensures
            old(self).wf() ==> final(self).wf(),
            leads_to(old(self)@.moment(), final(self)@.moment()),
            rests(old(self)@.moment(), final(self)@.moment()),
            final(self)@ == (PhasedCellSyncState { poisoned: true, ..old(self)@ }),
    {
        self.poisoned = true;
    }

    /// Claims the cell for a transition to the `Cleanup` phase.
    ///
    /// It can be called from either the `Setup` or the `Read` phase.
    pub fn begin_transition_to_cleanup(&mut self) -> (result: Result<(), PhasedError>)
        ensures
            old(self).wf() ==> final(self).wf(),
            leads_to(old(self)@.moment(), final(self)@.moment()),
            rests(old(self)@.moment(), final(self)@.moment()),
            match cleanup_entry(old(self)@.code) {
                Some(entered) => {
                    &&& result == Ok::<(), PhasedError>(())
                    &&& final(self)@ == (PhasedCellSyncState { code: entered, ..old(self)@ })
                },
                None => {
                    &&& result == Err::<(), PhasedError>(
                        error_of(phase_of(old(self)@.code), cleanup_refusal_kind(old(self)@.code)),
                    )
                    &&& final(self)@ == old(self)@
                },
            },
    {
        match enter_cleanup(self.phase) {
            Some(entered) => {
                self.phase = entered;
                Ok(())
            },
            None => Err(refuse_cleanup(self.phase)),
        }
    }

    /// Runs the closure of a transition to the `Cleanup` phase and ends the transition.
    ///
    /// The cell ends in `Cleanup`, also where the closure fails or panics or could
    /// not be run.
    pub fn finish_transition_to_cleanup<F, E>(&mut self, f: F) -> (result: Result<
        (),
        PhasedError<E>,
    >) where F: FnOnce(&mut T) -> Result<(), E>
        requires
            old(self)@.code == PHASE_READ_TO_CLEANUP || old(self)@.code == PHASE_SETUP_TO_CLEANUP,
            guarded_work(old(self)@.poisoned, old(self)@.slots.cleaned(old(self)@.code))
                matches Ok(data) ==> may_run(f, data),
        ensures
            old(self).wf() ==> final(self).wf(),
            leads_to(old(self)@.moment(), final(self)@.moment()),
            rests(old(self)@.moment(), final(self)@.moment()),
            final(self)@.code == PHASE_CLEANUP,
            final(self)@.poisoned == old(self)@.poisoned,
            match guarded_work(old(self)@.poisoned, old(self)@.slots.cleaned(old(self)@.code)) {
                Ok(data) => exists|d: &mut T, ran: Result<(), E>|
                    {
                        &&& #[trigger] f.ensures((d,), ran)
                        &&& *d == data
                        &&& final(self)@.slots == old(self)@.slots.after_cleanup(
                            old(self)@.code,
                            *final(d),
                        )
                        &&& result == cleanup_result(ran)
                    },
                Err(kind) => {
                    &&& final(self)@.slots == old(self)@.slots
                    &&& result == Err::<(), PhasedError<E>>(error_of(Phase::Cleanup, kind))
                },
            },
    {
        let entered_at: u8 = if self.phase == PHASE_READ_TO_CLEANUP {
            PHASE_READ
        } else {
            PHASE_SETUP
        };
        self.phase = PHASE_CLEANUP;
        let work = if self.poisoned {
            Work::Poisoned
        } else {
            // The data moves before the closure runs, so that it is behind the
            // mutex even if the closure panics.
            if entered_at == PHASE_READ && self.slots.cell.is_some() {
                self.slots.swap();
                match &mut self.slots.mutex {
                    Some(data) => Work::Ran(f(data)),
                    None => Work::Missing,
                }
            } else if entered_at == PHASE_SETUP {
                match &mut self.slots.mutex {
                    Some(data) => Work::Ran(f(data)),
                    None => Work::Missing,
                }
            } else {
                Work::Missing
            }
        };
        returned(settle_cleanup(entered_at, work).outcome)
    }

    /// Transitions the cell to the `Cleanup` phase.
    ///
    /// This method takes a closure `f` which is executed on the contained data.
    /// It can be called from either the `Setup` or the `Read` phase.
    ///
    /// Returns an error if the phase transition fails, the mutex is poisoned or the
    /// closure returns an error. If the provided closure panics, the cell's phase is
    /// `Cleanup`.
    pub fn transition_to_cleanup<F, E>(&mut self, f: F) -> (result: Result<
        (),
        PhasedError<E>,
    >) where F: FnOnce(&mut T) -> Result<(), E>
        requires
            cleanup_entry(old(self)@.code) matches Some(entered) ==> (guarded_work(
                old(self)@.poisoned,
                old(self)@.slots.cleaned(entered),
            ) matches Ok(data) ==> may_run(f, data)),
        ensures
            old(self).wf() ==> final(self).wf(),
            leads_to(old(self)@.moment(), final(self)@.moment()),
            rests(old(self)@.moment(), final(self)@.moment()),
            match cleanup_entry(old(self)@.code) {
                Some(entered) => {
                    &&& final(self)@.code == PHASE_CLEANUP
                    &&& final(self)@.poisoned == old(self)@.poisoned
                    &&& match guarded_work(
                        old(self)@.poisoned,
                        old(self)@.slots.cleaned(entered),
                    ) {
                        Ok(data) => exists|d: &mut T, ran: Result<(), E>|
                            {
                                &&& #[trigger] f.ensures((d,), ran)
                                &&& *d == data
                                &&& final(self)@.slots == old(self)@.slots.after_cleanup(
                                    entered,
                                    *final(d),
                                )
                                &&& result == cleanup_result(ran)
                            },
                        Err(kind) => {
                            &&& final(self)@.slots == old(self)@.slots
                            &&& result == Err::<(), PhasedError<E>>(error_of(Phase::Cleanup, kind))
                        },
                    }
                },
                None => {
                    &&& final(self)@ == old(self)@
                    &&& result == Err::<(), PhasedError<E>>(
                        error_of(phase_of(old(self)@.code), cleanup_refusal_kind(old(self)@.code)),
                    )
                },
            },
    {
        match enter_cleanup(self.phase) {
            Some(entered) => {
                self.phase = entered;
                self.finish_transition_to_cleanup(f)
            },
            None => Err(refuse_cleanup(self.phase)),
        }
    }

    /// Claims the cell for a transition from the `Setup` phase to the `Read` phase.
    pub fn begin_transition_to_read(&mut self) -> (result: Result<(), PhasedError>)
        ensures
            old(self).wf() ==> final(self).wf(),
            leads_to(old(self)@.moment(), final(self)@.moment()),
            rests(old(self)@.moment(), final(self)@.moment()),
            match read_entry(old(self)@.code) {
                Some(entered) => {
                    &&& result == Ok::<(), PhasedError>(())
                    &&& final(self)@ == (PhasedCellSyncState { code: entered, ..old(self)@ })
                },
                None => {
                    &&& result == Err::<(), PhasedError>(
                        error_of(phase_of(old(self)@.code), read_refusal_kind(old(self)@.code)),
                    )
                    &&& final(self)@ == old(self)@
                },
            },
    {
        match enter_read(self.phase) {
            Some(entered) => {
                self.phase = entered;
                Ok(())
            },
            None => Err(refuse_read(self.phase)),
        }
    }

    /// Runs the closure of a transition to the `Read` phase and ends the transition.
    ///
    /// The cell ends in `Read`, with the data open for reading, where the closure
    /// succeeds. It is back in `Setup` where the closure fails or panics or could
    /// not be run.
    pub fn finish_transition_to_read<F, E>(&mut self, f: F) -> (result: Result<
        (),
        PhasedError<E>,
    >) where F: FnOnce(&mut T) -> Result<(), E>
        requires
            old(self)@.code == PHASE_SETUP_TO_READ,
            guarded_work(old(self)@.poisoned, old(self)@.slots.mutex) matches Ok(data) ==> may_run(
                f,
                data,
            ),
        ensures
            old(self).wf() ==> final(self).wf(),
            leads_to(old(self)@.moment(), final(self)@.moment()),
            rests(old(self)@.moment(), final(self)@.moment()),
            final(self)@.code == (if result is Ok {
                PHASE_READ
            } else {
                PHASE_SETUP
            }),
            final(self)@.poisoned == old(self)@.poisoned,
            match guarded_work(old(self)@.poisoned, old(self)@.slots.mutex) {
                Ok(data) => exists|d: &mut T, ran: Result<(), E>|
                    {
                        &&& #[trigger] f.ensures((d,), ran)
                        &&& *d == data
                        &&& final(self)@.slots == old(self)@.slots.after_read(
                            ran is Ok,
                            *final(d),
                        )
                        &&& result == read_result(ran)
                    },
                Err(kind) => {
                    &&& final(self)@.slots == old(self)@.slots
                    &&& result == Err::<(), PhasedError<E>>(error_of(Phase::Setup, kind))
                },
            },
    {
        self.phase = PHASE_SETUP;
        let work = if self.poisoned {
            Work::Poisoned
        } else {
            match &mut self.slots.mutex {
                Some(data) => Work::Ran(f(data)),
                None => Work::Missing,
            }
        };
        let settlement = settle_read(work);
        if settlement.moves {
            self.slots.swap();
        }
        self.phase = settlement.to;
        returned(settlement.outcome)
    }

    /// Transitions the cell from the `Setup` phase to the `Read` phase.
    ///
    /// This method takes a closure `f` which is executed on the contained data
    /// during the transition.
    ///
    /// Returns an error if the cell is not in the `Setup` phase, the mutex is poisoned
    /// or the closure returns an error. If the provided closure panics, the cell's
    /// phase is `Setup`.
    pub fn transition_to_read<F, E>(&mut self, f: F) -> (result: Result<
        (),
        PhasedError<E>,
    >) where F: FnOnce(&mut T) -> Result<(), E>
        requires
            read_entry(old(self)@.code) is Some ==> (guarded_work(
                old(self)@.poisoned,
                old(self)@.slots.mutex,
            ) matches Ok(data) ==> may_run(f, data)),
        ensures
            old(self).wf() ==> final(self).wf(),
            leads_to(old(self)@.moment(), final(self)@.moment()),
            rests(old(self)@.moment(), final(self)@.moment()),
            match read_entry(old(self)@.code) {
                Some(_) => {
                    &&& final(self)@.code == (if result is Ok {
                        PHASE_READ
                    } else {
                        PHASE_SETUP
                    })
                    &&& final(self)@.poisoned == old(self)@.poisoned
                    &&& match guarded_work(old(self)@.poisoned, old(self)@.slots.mutex) {
                        Ok(data) => exists|d: &mut T, ran: Result<(), E>|
                            {
                                &&& #[trigger] f.ensures((d,), ran)
                                &&& *d == data
                                &&& final(self)@.slots == old(self)@.slots.after_read(
                                    ran is Ok,
                                    *final(d),
                                )
                                &&& result == read_result(ran)
                            },
                        Err(kind) => {
                            &&& final(self)@.slots == old(self)@.slots
                            &&& result == Err::<(), PhasedError<E>>(error_of(Phase::Setup, kind))
                        },
                    }
                },
                None => {
                    &&& final(self)@ == old(self)@
                    &&& result == Err::<(), PhasedError<E>>(
                        error_of(phase_of(old(self)@.code), read_refusal_kind(old(self)@.code)),
                    )
                },
            },
    {
        match enter_read(self.phase) {
            Some(entered) => {
                self.phase = entered;
                self.finish_transition_to_read(f)
            },
            None => Err(refuse_read(self.phase)),
        }
    }

    /// Acquires the lock of the data and gives mutable access to it.
    ///
    /// This method is only successful if the cell is in the `Setup` or `Cleanup` phase.
    ///
    /// Returns an error if the cell is in the `Read` phase or in transition, or if the
    /// mutex is poisoned.
    pub fn lock(&mut self) -> (result: Result<StdMutexGuard<'_, T>, PhasedError>)
        ensures
            old(self).wf() ==> final(self).wf(),
            leads_to(old(self)@.moment(), final(self)@.moment()),
            rests(old(self)@.moment(), final(self)@.moment()),
            final(self)@.code == old(self)@.code,
            final(self)@.poisoned == old(self)@.poisoned,
            final(self)@.slots.cell == old(self)@.slots.cell,
            match (
                lock_admission(
                    old(self)@.code,
                    owned_lock(old(self)@.code, old(self)@.poisoned, old(self)@.slots),
                    METHOD_LOCK,
                ),
                result,
            ) {
                (Ok(_), Ok(guard)) => {
                    &&& old(self)@.slots.mutex == Some(*guard.inner)
                    &&& final(self)@.slots.mutex == Some(*final(guard.inner))
                },
                (Err(expected), Err(error)) => {
                    &&& error == expected
                    &&& final(self)@.slots.mutex == old(self)@.slots.mutex
                },
                _ => false,
            },
    {
        let lock = if self.poisoned {
            Lock::Poisoned
        } else {
            Lock::Acquired { code: self.phase, filled: self.slots.mutex.is_some() }
        };
        match admit_lock(self.phase, lock, METHOD_LOCK) {
            Err(e) => Err(e),
            Ok(_) => match StdMutexGuard::try_new(&mut self.slots.mutex) {
                Some(guard) => Ok(guard),
                None => vstd::pervasive::unreached(),
            },
        }
    }
}

} // verus!
