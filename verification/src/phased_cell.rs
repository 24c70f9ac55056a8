//! The basic cell.

use crate::errors::{error_of, PhasedError, METHOD_GET_MUT_UNLOCKED, METHOD_READ, METHOD_READ_RELAXED};
use crate::lifecycle::{leads_to, rests, Moment};
use crate::phase::{
    is_phase_code, phase_of, u8_to_phase, Phase, PHASE_CLEANUP, PHASE_READ, PHASE_READ_TO_CLEANUP,
    PHASE_SETUP, PHASE_SETUP_TO_CLEANUP, PHASE_SETUP_TO_READ,
};
use crate::transition::{
    admit_mut, admit_read, cleanup_entry, cleanup_refusal_kind, cleanup_result, enter_cleanup,
    enter_read, may_run, mut_admission, read_admission, read_entry, read_refusal_kind, read_result,
    refuse_cleanup, refuse_read, returned, settle_cleanup, settle_read, Work,
};
use vstd::prelude::*;

verus! {

/// A cell that manages data through distinct `Setup`, `Read`, and `Cleanup` phases.
///
/// `PhasedCell` enforces a specific data lifecycle: initialization in the `Setup`
/// phase, a read-only operational period in the `Read` phase, and deconstruction
/// in the `Cleanup` phase.
///
/// A transition is made in one call, or in two, of which the first claims the
/// cell and the second runs the closure. Between the two the cell is in
/// transition, and refuses everything but to tell its phase.
pub struct PhasedCell<T> {
    phase: u8,
    data: T,
}

/// The state of a `PhasedCell`: its phase code and its data.
pub struct PhasedCellState<T> {
    /// The phase code.
    pub code: u8,
    /// The data.
    pub data: T,
}

impl<T> PhasedCellState<T> {
    /// The moment in the life of the cell that this is.
    pub open spec fn moment(self) -> Moment<T> {
        Moment { code: self.code, data: self.data }
    }
}

impl<T> View for PhasedCell<T> {
    type V = PhasedCellState<T>;

    closed spec fn view(&self) -> PhasedCellState<T> {
        PhasedCellState { code: self.phase, data: self.data }
    }
}

impl<T> PhasedCell<T> {
    /// The phase code of the cell is one of the known ones.
    pub open spec fn wf(&self) -> bool {
        is_phase_code(self@.code)
    }

    /// Creates a new `PhasedCell` in the `Setup` phase, containing the provided data.
    pub fn new(data: T) -> (cell: Self)
        ensures
            cell.wf(),
            cell@ == (PhasedCellState { code: PHASE_SETUP, data }),
    {
        Self { phase: PHASE_SETUP, data }
    }

    /// Returns the current phase of the cell with relaxed memory ordering.
    ///
    /// One that owns the cell sees the same with any memory ordering.
    pub fn phase_relaxed(&self) -> (phase: Phase)
        ensures
            phase == phase_of(self@.code),
    {
        u8_to_phase(self.phase)
    }

    /// Returns the current phase of the cell.
    pub fn phase(&self) -> (phase: Phase)
        ensures
            phase == phase_of(self@.code),
    {
        u8_to_phase(self.phase)
    }

    /// Returns a reference to the contained data with relaxed memory ordering.
    ///
    /// This method is only successful if the cell is in the `Read` phase.
    pub fn read_relaxed(&self) -> (result: Result<&T, PhasedError>)
        ensures
            result == (match read_admission(self@.code, METHOD_READ_RELAXED) {
                Ok(_) => Ok(&self@.data),
                Err(e) => Err(e),
            }),
    {
        match admit_read(self.phase, METHOD_READ_RELAXED) {
            Ok(_) => Ok(&self.data),
            Err(e) => Err(e),
        }
    }

    /// Returns a reference to the contained data.
    ///
    /// This method is only successful if the cell is in the `Read` phase.
    pub fn read(&self) -> (result: Result<&T, PhasedError>)
        ensures
            result == (match read_admission(self@.code, METHOD_READ) {
                Ok(_) => Ok(&self@.data),
                Err(e) => Err(e),
            }),
    {
        match admit_read(self.phase, METHOD_READ) {
            Ok(_) => Ok(&self.data),
            Err(e) => Err(e),
        }
    }

    /// Claims the cell for a transition to the `Cleanup` phase.
    ///
    /// It can be called from either the `Setup` or the `Read` phase.
    pub fn begin_transition_to_cleanup(&mut self) -> (result: Result<(), PhasedError>)
        ensures
            old(self).wf() ==> final(self).wf(),
            leads_to(old(self)@.moment(), final(self)@.moment()),
            rests(old(self)@.moment(), final(self)@.moment()),
            final(self)@.data == old(self)@.data,
            match cleanup_entry(old(self)@.code) {
                Some(entered) => result == Ok::<(), PhasedError>(()) && final(self)@.code
                    == entered,
                None => result == Err::<(), PhasedError>(
                    error_of(phase_of(old(self)@.code), cleanup_refusal_kind(old(self)@.code)),
                ) && final(self)@.code == old(self)@.code,
            },
    {
        match enter_cleanup(self.phase) {
            Some(entered) => {
                self.phase = entered;
                Ok(())
            },
            None => Err(refuse_cleanup(self.phase)),
        }
    }

    /// Runs the closure of a transition to the `Cleanup` phase and ends the transition.
    ///
    /// The cell ends in `Cleanup`, also where the closure fails or panics.
    pub fn finish_transition_to_cleanup<F, E>(&mut self, f: F) -> (result: Result<
        (),
        PhasedError<E>,
    >) where F: FnOnce(&mut T) -> Result<(), E>
        requires
            old(self)@.code == PHASE_READ_TO_CLEANUP || old(self)@.code == PHASE_SETUP_TO_CLEANUP,
            may_run(f, old(self)@.data),
        ensures
            old(self).wf() ==> final(self).wf(),
            leads_to(old(self)@.moment(), final(self)@.moment()),
            rests(old(self)@.moment(), final(self)@.moment()),
            final(self)@.code == PHASE_CLEANUP,
            exists|d: &mut T, ran: Result<(), E>|
                {
                    &&& #[trigger] f.ensures((d,), ran)
                    &&& *d == old(self)@.data
                    &&& *final(d) == final(self)@.data
                    &&& result == cleanup_result(ran)
                },
    {
        let entered_at: u8 = if self.phase == PHASE_READ_TO_CLEANUP {
            PHASE_READ
        } else {
            PHASE_SETUP
        };
        self.phase = PHASE_CLEANUP;
        let ran = f(&mut self.data);
        returned(settle_cleanup(entered_at, Work::Ran(ran)).outcome)
    }

    /// Transitions the cell to the `Cleanup` phase.
    ///
    /// This method takes a closure `f` which is executed on the contained data.
    /// It can be called from either the `Setup` or the `Read` phase.
    ///
    /// Returns an error if the phase transition fails or the closure returns an error.
    /// If the provided closure panics, the cell's phase is `Cleanup`.
    pub fn transition_to_cleanup<F, E>(&mut self, f: F) -> (result: Result<
        (),
        PhasedError<E>,
    >) where F: FnOnce(&mut T) -> Result<(), E>
        requires
            cleanup_entry(old(self)@.code) is Some ==> may_run(f, old(self)@.data),
        ensures
            old(self).wf() ==> final(self).wf(),
            leads_to(old(self)@.moment(), final(self)@.moment()),
            rests(old(self)@.moment(), final(self)@.moment()),
            match cleanup_entry(old(self)@.code) {
                Some(_) => {
                    &&& final(self)@.code == PHASE_CLEANUP
                    &&& exists|d: &mut T, ran: Result<(), E>|
                        {
                            &&& #[trigger] f.ensures((d,), ran)
                            &&& *d == old(self)@.data
                            &&& *final(d) == final(self)@.data
                            &&& result == cleanup_result(ran)
                        }
                },
                None => {
                    &&& final(self)@ == old(self)@
                    &&& result == Err::<(), PhasedError<E>>(
                        error_of(phase_of(old(self)@.code), cleanup_refusal_kind(old(self)@.code)),
                    )
                },
            },
    {
        match enter_cleanup(self.phase) {
            Some(entered) => {
                self.phase = entered;
                self.finish_transition_to_cleanup(f)
            },
            None => Err(refuse_cleanup(self.phase)),
        }
    }

    /// Claims the cell for a transition from the `Setup` phase to the `Read` phase.
    pub fn begin_transition_to_read(&mut self) -> (result: Result<(), PhasedError>)
        ensures
            old(self).wf() ==> final(self).wf(),
            leads_to(old(self)@.moment(), final(self)@.moment()),
            rests(old(self)@.moment(), final(self)@.moment()),
            final(self)@.data == old(self)@.data,
            match read_entry(old(self)@.code) {
                Some(entered) => result == Ok::<(), PhasedError>(()) && final(self)@.code
                    == entered,
                None => result == Err::<(), PhasedError>(
                    error_of(phase_of(old(self)@.code), read_refusal_kind(old(self)@.code)),
                ) && final(self)@.code == old(self)@.code,
            },
    {
        match enter_read(self.phase) {
            Some(entered) => {
                self.phase = entered;
                Ok(())
            },
            None => Err(refuse_read(self.phase)),
        }
    }

    /// Runs the closure of a transition to the `Read` phase and ends the transition.
    ///
    /// The cell ends in `Read` where the closure succeeds, and is back in `Setup`
    /// where it fails or panics.
    pub fn finish_transition_to_read<F, E>(&mut self, f: F) -> (result: Result<
        (),
        PhasedError<E>,
    >) where F: FnOnce(&mut T) -> Result<(), E>
        requires
            old(self)@.code == PHASE_SETUP_TO_READ,
            may_run(f, old(self)@.data),
        ensures
            old(self).wf() ==> final(self).wf(),
            leads_to(old(self)@.moment(), final(self)@.moment()),
            rests(old(self)@.moment(), final(self)@.moment()),
            final(self)@.code == (if result is Ok {
                PHASE_READ
            } else {
                PHASE_SETUP
            }),
            exists|d: &mut T, ran: Result<(), E>|
                {
                    &&& #[trigger] f.ensures((d,), ran)
                    &&& *d == old(self)@.data
                    &&& *final(d) == final(self)@.data
                    &&& result == read_result(ran)
                },
    {
        self.phase = PHASE_SETUP;
        let ran = f(&mut self.data);
        let settlement = settle_read(Work::Ran(ran));
        self.phase = settlement.to;
        returned(settlement.outcome)
    }

    /// Transitions the cell from the `Setup` phase to the `Read` phase.
    ///
    /// This method takes a closure `f` which is executed on the contained data
    /// during the transition.
    ///
    /// Returns an error if the cell is not in the `Setup` phase or if the closure
    /// returns an error. If the provided closure panics, the cell's phase is `Setup`.
    pub fn transition_to_read<F, E>(&mut self, f: F) -> (result: Result<
        (),
        PhasedError<E>,
    >) where F: FnOnce(&mut T) -> Result<(), E>
        requires
            read_entry(old(self)@.code) is Some ==> may_run(f, old(self)@.data),
        ensures
            old(self).wf() ==> final(self).wf(),
            leads_to(old(self)@.moment(), final(self)@.moment()),
            rests(old(self)@.moment(), final(self)@.moment()),
            match read_entry(old(self)@.code) {
                Some(_) => {
                    &&& final(self)@.code == (if result is Ok {
                        PHASE_READ
                    } else {
                        PHASE_SETUP
                    })
                    &&& exists|d: &mut T, ran: Result<(), E>|
                        {
                            &&& #[trigger] f.ensures((d,), ran)
                            &&& *d == old(self)@.data
                            &&& *final(d) == final(self)@.data
                            &&& result == read_result(ran)
                        }
                },
                None => {
                    &&& final(self)@ == old(self)@
                    &&& result == Err::<(), PhasedError<E>>(
                        error_of(phase_of(old(self)@.code), read_refusal_kind(old(self)@.code)),
                    )
                },
            },
    {
        match enter_read(self.phase) {
            Some(entered) => {
                self.phase = entered;
                self.finish_transition_to_read(f)
            },
            None => Err(refuse_read(self.phase)),
        }
    }

    /// Returns a mutable reference to the contained data without acquiring a lock.
    ///
    /// This method is only successful if the cell is in the `Setup` or `Cleanup` phase.
    pub fn get_mut_unlocked(&mut self) -> (result: Result<&mut T, PhasedError>)
        ensures
            old(self).wf() ==> final(self).wf(),
            leads_to(old(self)@.moment(), final(self)@.moment()),
            rests(old(self)@.moment(), final(self)@.moment()),
            final(self)@.code == old(self)@.code,
            match (mut_admission(old(self)@.code, METHOD_GET_MUT_UNLOCKED), result) {
                (Ok(_), Ok(data)) => *data == old(self)@.data && final(self)@.data == *final(data),
                (Err(e), Err(error)) => error == e && final(self)@.data == old(self)@.data,
                _ => false,
            },
    {
        match admit_mut(self.phase, METHOD_GET_MUT_UNLOCKED) {
            Ok(_) => Ok(&mut self.data),
            Err(e) => Err(e),
        }
    }
}

} // verus!
