//! The decisions that move a cell from phase to phase.
//!
//! A transition has two moments at which it touches the phase code: it is
//! entered, which claims the cell for one caller, and it is settled, once that
//! caller's closure has run or has been found impossible to run. Both are
//! functions of plain values here, so that every cell decides alike.

use crate::errors::{error_from, error_of, PhasedError, PhasedErrorKind};
use crate::phase::{
    phase_of, u8_to_phase, PHASE_CLEANUP, PHASE_READ, PHASE_READ_TO_CLEANUP, PHASE_SETUP,
    PHASE_SETUP_TO_CLEANUP, PHASE_SETUP_TO_READ,
};
use crate::phase::Phase;
use vstd::prelude::*;

verus! {

/// What became of the work that a transition does on the data.
#[derive(Debug)]
pub enum Work<E> {
    /// The mutex of the data was poisoned, so the closure did not run.
    Poisoned,
    /// The mutex of the data was held by someone else, so the closure did not run.
    Busy,
    /// There was no data, so the closure did not run.
    Missing,
    /// The closure ran and returned.
    Ran(Result<(), E>),
    /// The closure panicked.
    Panicked,
}

/// How a caller comes out of a transition.
#[derive(Debug)]
pub enum Outcome<E> {
    /// The transition returns this.
    Returns(Result<(), PhasedError<E>>),
    /// The transition resumes the panic of its closure.
    Unwinds,
}

/// How a transition is settled.
#[derive(Debug)]
pub struct Settlement<E> {
    /// The code that the cell has if nobody else has touched it.
    pub from: u8,
    /// The code that takes its place.
    pub to: u8,
    /// Whether the data changes its place between the mutex and the cell.
    pub moves: bool,
    /// How the caller comes out.
    pub outcome: Outcome<E>,
}

/// The code of a cell after a request to replace `from` by `to`, which is
/// ignored where the code is another.
pub open spec fn changed(code: u8, from: u8, to: u8) -> u8 {
    if code == from {
        to
    } else {
        code
    }
}

/// Replaces the code `from` by `to`.
pub fn change_phase(code: u8, from: u8, to: u8) -> (new_code: u8)
    ensures
        new_code == changed(code, from, to),
{
    if code == from {
        to
    } else {
        code
    }
}

/// The code that a transition to `Cleanup` gives a cell while it lasts, where
/// one can begin.
pub open spec fn cleanup_entry(code: u8) -> Option<u8> {
    if code == PHASE_SETUP {
        Some(PHASE_SETUP_TO_CLEANUP)
    } else if code == PHASE_READ {
        Some(PHASE_READ_TO_CLEANUP)
    } else {
        None
    }
}

/// Decides whether a transition to `Cleanup` can begin.
pub fn enter_cleanup(code: u8) -> (entered: Option<u8>)
    ensures
        entered == cleanup_entry(code),
{
    match code {
        PHASE_SETUP => Some(PHASE_SETUP_TO_CLEANUP),
        PHASE_READ => Some(PHASE_READ_TO_CLEANUP),
        _ => None,
    }
}

/// Why a transition to `Cleanup` cannot begin at `code`.
pub open spec fn cleanup_refusal_kind(code: u8) -> PhasedErrorKind {
    if code == PHASE_CLEANUP {
        PhasedErrorKind::PhaseIsAlreadyCleanup
    } else if code == PHASE_SETUP_TO_READ {
        PhasedErrorKind::DuringTransitionToRead
    } else {
        PhasedErrorKind::DuringTransitionToCleanup
    }
}

/// Builds the error of a transition to `Cleanup` that cannot begin.
pub fn refuse_cleanup<E>(code: u8) -> (error: PhasedError<E>)
    ensures
        error == error_of::<E>(phase_of(code), cleanup_refusal_kind(code)),
{
    match code {
        PHASE_CLEANUP => PhasedError::new(
            u8_to_phase(PHASE_CLEANUP),
            PhasedErrorKind::PhaseIsAlreadyCleanup,
        ),
        PHASE_SETUP_TO_READ => PhasedError::new(
            u8_to_phase(PHASE_SETUP_TO_READ),
            PhasedErrorKind::DuringTransitionToRead,
        ),
        _ => PhasedError::new(u8_to_phase(code), PhasedErrorKind::DuringTransitionToCleanup),
    }
}

/// The code that a transition to `Read` gives a cell while it lasts, where one
/// can begin.
pub open spec fn read_entry(code: u8) -> Option<u8> {
    if code == PHASE_SETUP {
        Some(PHASE_SETUP_TO_READ)
    } else {
        None
    }
}

/// Decides whether a transition to `Read` can begin.
pub fn enter_read(code: u8) -> (entered: Option<u8>)
    ensures
        entered == read_entry(code),
{
    match code {
        PHASE_SETUP => Some(PHASE_SETUP_TO_READ),
        _ => None,
    }
}

/// Why a transition to `Read` cannot begin at `code`.
pub open spec fn read_refusal_kind(code: u8) -> PhasedErrorKind {
    if code == PHASE_READ {
        PhasedErrorKind::PhaseIsAlreadyRead
    } else if code == PHASE_CLEANUP {
        PhasedErrorKind::PhaseIsAlreadyCleanup
    } else if code == PHASE_SETUP_TO_READ {
        PhasedErrorKind::DuringTransitionToRead
    } else {
        PhasedErrorKind::DuringTransitionToCleanup
    }
}

/// Builds the error of a transition to `Read` that cannot begin.
pub fn refuse_read<E>(code: u8) -> (error: PhasedError<E>)
    ensures
        error == error_of::<E>(phase_of(code), read_refusal_kind(code)),
{
    match code {
        PHASE_READ => PhasedError::new(u8_to_phase(PHASE_READ), PhasedErrorKind::PhaseIsAlreadyRead),
        PHASE_CLEANUP => PhasedError::new(
            u8_to_phase(PHASE_CLEANUP),
            PhasedErrorKind::PhaseIsAlreadyCleanup,
        ),
        PHASE_SETUP_TO_READ => PhasedError::new(
            u8_to_phase(PHASE_SETUP_TO_READ),
            PhasedErrorKind::DuringTransitionToRead,
        ),
        _ => PhasedError::new(u8_to_phase(code), PhasedErrorKind::DuringTransitionToCleanup),
    }
}

/// Whether the data may be read at `code`, and the error if it may not.
pub open spec fn read_admission(code: u8, method: &'static str) -> Result<(), PhasedError> {
    if code == PHASE_READ {
        Ok(())
    } else {
        Err(error_of(phase_of(code), PhasedErrorKind::CannotCallUnlessPhaseRead(method)))
    }
}

/// Decides whether the data may be read.
pub fn admit_read(code: u8, method: &'static str) -> (admission: Result<(), PhasedError>)
    ensures
        admission == read_admission(code, method),
{
    if code != PHASE_READ {
        return Err(
            PhasedError::new(
                u8_to_phase(code),
                PhasedErrorKind::CannotCallUnlessPhaseRead(method),
            ),
        );
    }
    Ok(())
}

/// Whether the data may be changed at `code`, and the error if it may not.
pub open spec fn mut_admission(code: u8, method: &'static str) -> Result<(), PhasedError> {
    if code == PHASE_READ {
        Err(error_of(Phase::Read, PhasedErrorKind::CannotCallOnPhaseRead(method)))
    } else if code == PHASE_SETUP_TO_READ {
        Err(error_of(Phase::Setup, PhasedErrorKind::DuringTransitionToRead))
    } else if code == PHASE_SETUP_TO_CLEANUP || code == PHASE_READ_TO_CLEANUP {
        Err(error_of(Phase::Cleanup, PhasedErrorKind::DuringTransitionToCleanup))
    } else {
        Ok(())
    }
}

/// Decides whether the data may be changed outside of a transition.
pub fn admit_mut(code: u8, method: &'static str) -> (admission: Result<(), PhasedError>)
    ensures
        admission == mut_admission(code, method),
{
    match code {
        PHASE_READ => Err(
            PhasedError::new(
                u8_to_phase(PHASE_READ),
                PhasedErrorKind::CannotCallOnPhaseRead(method),
            ),
        ),
        PHASE_SETUP_TO_READ => Err(
            PhasedError::new(
                u8_to_phase(PHASE_SETUP_TO_READ),
                PhasedErrorKind::DuringTransitionToRead,
            ),
        ),
        PHASE_SETUP_TO_CLEANUP => Err(
            PhasedError::new(
                u8_to_phase(PHASE_SETUP_TO_CLEANUP),
                PhasedErrorKind::DuringTransitionToCleanup,
            ),
        ),
        PHASE_READ_TO_CLEANUP => Err(
            PhasedError::new(
                u8_to_phase(PHASE_READ_TO_CLEANUP),
                PhasedErrorKind::DuringTransitionToCleanup,
            ),
        ),
        _ => Ok(()),
    }
}

/// What a caller finds behind the mutex of the data.
#[derive(Debug, PartialEq, Eq, Clone, Copy, Structural)]
pub enum Lock {
    /// The mutex is poisoned.
    Poisoned,
    /// The caller holds the mutex now.
    Acquired {
        /// The phase code, read with the mutex held.
        code: u8,
        /// Whether the mutex guards data.
        filled: bool,
    },
}

/// Whether a caller that asked at `code` and then went for the mutex gets the
/// data, and the error if not.
///
/// The phase may have moved on while the caller waited for the mutex, so the
/// code read with the mutex held must allow changes too.
pub open spec fn lock_admission(code: u8, lock: Lock, method: &'static str) -> Result<
    (),
    PhasedError,
> {
    match mut_admission(code, method) {
        Err(e) => Err(e),
        Ok(_) => match lock {
            Lock::Poisoned => Err(
                error_of(phase_of(code), PhasedErrorKind::InternalDataMutexIsPoisoned),
            ),
            Lock::Acquired { code: later_code, filled } => match mut_admission(later_code, method) {
                Err(e) => Err(e),
                Ok(_) => if filled {
                    Ok(())
                } else {
                    Err(error_of(phase_of(code), PhasedErrorKind::InternalDataUnavailable))
                },
            },
        },
    }
}

/// Decides whether a caller that went for the mutex gets the data.
pub fn admit_lock(code: u8, lock: Lock, method: &'static str) -> (admission: Result<
    (),
    PhasedError,
>)
    ensures
        admission == lock_admission(code, lock, method),
{
    match admit_mut(code, method) {
        Err(e) => {
            return Err(e);
        },
        Ok(_) => {},
    }
    match lock {
        Lock::Poisoned => Err(
            PhasedError::new(u8_to_phase(code), PhasedErrorKind::InternalDataMutexIsPoisoned),
        ),
        Lock::Acquired { code: later_code, filled } => {
            match admit_mut(later_code, method) {
                Err(e) => {
                    return Err(e);
                },
                Ok(_) => {},
            }
            if filled {
                Ok(())
            } else {
                Err(PhasedError::new(u8_to_phase(code), PhasedErrorKind::InternalDataUnavailable))
            }
        },
    }
}

/// Whether one that holds the mutex at `code`, with data behind it or not, finds the data left
/// in the cell and brings it back.
///
/// A transition to `Cleanup` that did not get the mutex leaves it there.
pub open spec fn is_brought_back(code: u8, filled: bool) -> bool {
    code == PHASE_CLEANUP && !filled
}

/// Decides whether one that holds the mutex brings the data back from the cell.
pub fn brings_back(code: u8, filled: bool) -> (brings: bool)
    ensures
        brings == is_brought_back(code, filled),
{
    code == PHASE_CLEANUP && !filled
}

/// What a reader gets from a cell in which the data may be missing.
pub open spec fn slot_admission<T>(code: u8, slot: Option<T>, method: &'static str) -> Result<
    T,
    PhasedError,
> {
    match read_admission(code, method) {
        Err(e) => Err(e),
        Ok(_) => match slot {
            Some(data) => Ok(data),
            None => Err(error_of(phase_of(code), PhasedErrorKind::InternalDataUnavailable)),
        },
    }
}

/// Gives a reader the data that is open for reading.
pub fn read_slot<'a, T>(code: u8, slot: &'a Option<T>, method: &'static str) -> (result: Result<
    &'a T,
    PhasedError,
>)
    ensures
        match (slot_admission(code, *slot, method), result) {
            (Ok(expected), Ok(data)) => *data == expected,
            (Err(expected), Err(error)) => error == expected,
            _ => false,
        },
{
    match admit_read(code, method) {
        Err(e) => Err(e),
        Ok(_) => match slot {
            Some(data) => Ok(data),
            None => Err(
                PhasedError::new(u8_to_phase(code), PhasedErrorKind::InternalDataUnavailable),
            ),
        },
    }
}

/// The error of work that did not succeed, in a transition whose closure fails
/// with `failure` and that reports `phase`.
pub open spec fn work_outcome<E>(work: Work<E>, phase: Phase, failure: PhasedErrorKind) -> Outcome<
    E,
> {
    match work {
        Work::Poisoned => Outcome::Returns(
            Err(error_of(phase, PhasedErrorKind::InternalDataMutexIsPoisoned)),
        ),
        Work::Busy => Outcome::Returns(Err(error_of(phase, PhasedErrorKind::MutexTryLockFailed))),
        Work::Missing => Outcome::Returns(
            Err(error_of(phase, PhasedErrorKind::InternalDataUnavailable)),
        ),
        Work::Ran(ran) => Outcome::Returns(closure_result(ran, phase, failure)),
        Work::Panicked => Outcome::Unwinds,
    }
}

/// Whether a closure that changes data in place can be called on `data`.
pub open spec fn may_run<T, E, F: FnOnce(&mut T) -> Result<(), E>>(f: F, data: T) -> bool {
    forall|d: &mut T| *d == data ==> #[trigger] f.requires((d,))
}

/// What a transition returns whose closure returned `ran`, where that closure
/// fails with `failure` and the transition reports `phase`.
pub open spec fn closure_result<E>(
    ran: Result<(), E>,
    phase: Phase,
    failure: PhasedErrorKind,
) -> Result<(), PhasedError<E>> {
    match ran {
        Ok(_) => Ok(()),
        Err(e) => Err(error_from(phase, failure, e)),
    }
}

/// What a transition to `Cleanup` returns whose closure returned `ran`.
pub open spec fn cleanup_result<E>(ran: Result<(), E>) -> Result<(), PhasedError<E>> {
    closure_result(
        ran,
        Phase::Cleanup,
        PhasedErrorKind::FailToRunClosureDuringTransitionToCleanup,
    )
}

/// What a transition to `Read` returns whose closure returned `ran`.
pub open spec fn read_result<E>(ran: Result<(), E>) -> Result<(), PhasedError<E>> {
    closure_result(ran, Phase::Setup, PhasedErrorKind::FailToRunClosureDuringTransitionToRead)
}

/// The result of a transition whose closure did not panic.
pub(crate) fn returned<E>(outcome: Outcome<E>) -> (result: Result<(), PhasedError<E>>)
    requires
        outcome is Returns,
    ensures
        outcome == Outcome::Returns(result),
{
    match outcome {
        Outcome::Returns(result) => result,
        Outcome::Unwinds => vstd::pervasive::unreached(),
    }
}

/// Whether the closure was run, to its end or to a panic.
pub open spec fn was_run<E>(work: Work<E>) -> bool {
    work is Ran || work is Panicked
}

/// How a transition to `Cleanup` is settled that was entered at `entered_at`.
///
/// It always arrives at `Cleanup`, whatever became of the closure. Data that was
/// open for reading goes back to the mutex once the closure has had it; where the mutex
/// was held by someone else, the next one to hold it brings the data back.
pub open spec fn cleanup_settlement<E>(entered_at: u8, work: Work<E>) -> Settlement<E> {
    Settlement {
        from: if entered_at == PHASE_READ {
            PHASE_READ_TO_CLEANUP
        } else {
            PHASE_SETUP_TO_CLEANUP
        },
        to: PHASE_CLEANUP,
        moves: entered_at == PHASE_READ && was_run(work),
        outcome: work_outcome(
            work,
            Phase::Cleanup,
            PhasedErrorKind::FailToRunClosureDuringTransitionToCleanup,
        ),
    }
}

/// Settles a transition to `Cleanup`.
pub fn settle_cleanup<E>(entered_at: u8, work: Work<E>) -> (settlement: Settlement<E>)
    ensures
        settlement == cleanup_settlement(entered_at, work),
{
    let from: u8 = match entered_at {
        PHASE_READ => PHASE_READ_TO_CLEANUP,
        _ => PHASE_SETUP_TO_CLEANUP,
    };
    let ran = match &work {
        Work::Ran(_) => true,
        Work::Panicked => true,
        _ => false,
    };
    let outcome = match work {
        Work::Poisoned => Outcome::Returns(
            Err(
                PhasedError::new(
                    u8_to_phase(PHASE_CLEANUP),
                    PhasedErrorKind::InternalDataMutexIsPoisoned,
                ),
            ),
        ),
        Work::Busy => Outcome::Returns(
            Err(
                PhasedError::new(u8_to_phase(PHASE_CLEANUP), PhasedErrorKind::MutexTryLockFailed),
            ),
        ),
        Work::Missing => Outcome::Returns(
            Err(
                PhasedError::new(
                    u8_to_phase(PHASE_CLEANUP),
                    PhasedErrorKind::InternalDataUnavailable,
                ),
            ),
        ),
        Work::Ran(Ok(_)) => Outcome::Returns(Ok(())),
        Work::Ran(Err(e)) => Outcome::Returns(
            Err(
                PhasedError::with_source(
                    u8_to_phase(PHASE_CLEANUP),
                    PhasedErrorKind::FailToRunClosureDuringTransitionToCleanup,
                    e,
                ),
            ),
        ),
        Work::Panicked => Outcome::Unwinds,
    };
    Settlement { from, to: PHASE_CLEANUP, moves: entered_at == PHASE_READ && ran, outcome }
}

/// How a transition to `Read` is settled.
///
/// It arrives at `Read`, with the data moved there, only where the closure
/// succeeds; otherwise the cell goes back to `Setup`.
pub open spec fn read_settlement<E>(work: Work<E>) -> Settlement<E> {
    let succeeds = work matches Work::Ran(Ok(_));
    Settlement {
        from: PHASE_SETUP_TO_READ,
        to: if succeeds {
            PHASE_READ
        } else {
            PHASE_SETUP
        },
        moves: succeeds,
        outcome: work_outcome(
            work,
            Phase::Setup,
            PhasedErrorKind::FailToRunClosureDuringTransitionToRead,
        ),
    }
}

/// Settles a transition to `Read`.
pub fn settle_read<E>(work: Work<E>) -> (settlement: Settlement<E>)
    ensures
        settlement == read_settlement(work),
{
    let (to, moves, outcome): (u8, bool, Outcome<E>) = match work {
        Work::Poisoned => (
            PHASE_SETUP,
            false,
            Outcome::Returns(
                Err(
                    PhasedError::new(
                        u8_to_phase(PHASE_SETUP),
                        PhasedErrorKind::InternalDataMutexIsPoisoned,
                    ),
                ),
            ),
        ),
        Work::Busy => (
            PHASE_SETUP,
            false,
            Outcome::Returns(
                Err(
                    PhasedError::new(u8_to_phase(PHASE_SETUP), PhasedErrorKind::MutexTryLockFailed),
                ),
            ),
        ),
        Work::Missing => (
            PHASE_SETUP,
            false,
            Outcome::Returns(
                Err(
                    PhasedError::new(
                        u8_to_phase(PHASE_SETUP_TO_READ),
                        PhasedErrorKind::InternalDataUnavailable,
                    ),
                ),
            ),
        ),
        Work::Ran(Ok(_)) => (PHASE_READ, true, Outcome::Returns(Ok(()))),
        Work::Ran(Err(e)) => (
            PHASE_SETUP,
            false,
            Outcome::Returns(
                Err(
                    PhasedError::with_source(
                        u8_to_phase(PHASE_SETUP),
                        PhasedErrorKind::FailToRunClosureDuringTransitionToRead,
                        e,
                    ),
                ),
            ),
        ),
        Work::Panicked => (PHASE_SETUP, false, Outcome::Unwinds),
    };
    Settlement { from: PHASE_SETUP_TO_READ, to, moves, outcome }
}

} // verus!
