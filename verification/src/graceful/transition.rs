//! The decisions of transitions that wait for readers, and of readers that wait
//! for a transition.

use super::errors::GracefulWaitErrorKind;
use crate::errors::{error_from, error_of, PhasedError, PhasedErrorKind, METHOD_READ};
use crate::phase::{
    phase_of, u8_to_phase, Phase, PHASE_READ, PHASE_READ_TO_CLEANUP, PHASE_SETUP_TO_READ,
};
use crate::transition::{
    cleanup_settlement, read_settlement, settle_cleanup, settle_read, Outcome, Settlement, Work,
};
use vstd::prelude::*;

verus! {

/// The kind of error that a transition reports for a wait that failed.
pub open spec fn wait_error_kind(kind: GracefulWaitErrorKind) -> PhasedErrorKind {
    match kind {
        GracefulWaitErrorKind::TimedOut(timeout) => PhasedErrorKind::GracefulWaitTimeout(timeout),
        GracefulWaitErrorKind::MutexIsPoisoned => PhasedErrorKind::GracefulWaitMutexIsPoisoned,
    }
}

/// Tells the kind of error that a transition reports for a wait that failed.
pub fn to_phased_kind(kind: GracefulWaitErrorKind) -> (phased_kind: PhasedErrorKind)
    ensures
        phased_kind == wait_error_kind(kind),
{
    match kind {
        GracefulWaitErrorKind::TimedOut(timeout) => PhasedErrorKind::GracefulWaitTimeout(timeout),
        GracefulWaitErrorKind::MutexIsPoisoned => PhasedErrorKind::GracefulWaitMutexIsPoisoned,
    }
}

/// What a transition to `Cleanup` returns whose closure returned `ran` after a
/// wait that failed as `waited` says.
///
/// An error of the closure comes before one of the wait.
pub open spec fn graceful_cleanup_result<E>(
    ran: Result<(), E>,
    waited: Option<PhasedErrorKind>,
) -> Result<(), PhasedError<E>> {
    match (ran, waited) {
        (Err(e), _) => Err(
            error_from(
                Phase::Cleanup,
                PhasedErrorKind::FailToRunClosureDuringTransitionToCleanup,
                e,
            ),
        ),
        (Ok(_), Some(kind)) => Err(error_of(Phase::Cleanup, kind)),
        (Ok(_), None) => Ok(()),
    }
}

/// How a transition to `Cleanup` is settled that was entered at `entered_at` and
/// waited for the readers.
///
/// It is settled as without the wait, except in three points. An error of the wait
/// is returned where the closure succeeds. A closure that panics leaves the cell in
/// transition. Where the data is missing in a transition from `Read`, the error
/// reports the phase of `missing_at`.
pub open spec fn graceful_cleanup_settlement<E>(
    entered_at: u8,
    missing_at: u8,
    waited: Option<PhasedErrorKind>,
    work: Work<E>,
) -> Settlement<E> {
    let plain = cleanup_settlement(entered_at, work);
    match work {
        Work::Ran(ran) => Settlement {
            outcome: Outcome::Returns(graceful_cleanup_result(ran, waited)),
            ..plain
        },
        Work::Panicked => Settlement { to: plain.from, moves: false, ..plain },
        Work::Missing => if entered_at == PHASE_READ {
            Settlement {
                outcome: Outcome::Returns(
                    Err(error_of(phase_of(missing_at), PhasedErrorKind::InternalDataUnavailable)),
                ),
                ..plain
            }
        } else {
            plain
        },
        _ => plain,
    }
}

/// Settles a transition to `Cleanup` that waited for the readers.
pub fn settle_graceful_cleanup<E>(
    entered_at: u8,
    missing_at: u8,
    waited: Option<PhasedErrorKind>,
    work: Work<E>,
) -> (settlement: Settlement<E>)
    ensures
        settlement == graceful_cleanup_settlement(entered_at, missing_at, waited, work),
{
    match work {
        Work::Ran(Ok(_)) => {
            let mut settlement: Settlement<E> = settle_cleanup(entered_at, Work::Ran(Ok(())));
            if let Some(kind) = waited {
                settlement.outcome =
                Outcome::Returns(Err(PhasedError::new(u8_to_phase(PHASE_READ_TO_CLEANUP), kind)));
            }
            settlement
        },
        Work::Panicked => {
            let mut settlement: Settlement<E> = settle_cleanup(entered_at, Work::Panicked);
            settlement.to = settlement.from;
            settlement.moves = false;
            settlement
        },
        Work::Missing => {
            let mut settlement: Settlement<E> = settle_cleanup(entered_at, Work::Missing);
            if entered_at == PHASE_READ {
                settlement.outcome =
                Outcome::Returns(
                    Err(
                        PhasedError::new(
                            u8_to_phase(missing_at),
                            PhasedErrorKind::InternalDataUnavailable,
                        ),
                    ),
                );
            }
            settlement
        },
        work => settle_cleanup(entered_at, work),
    }
}

/// How a transition to `Cleanup` is settled that was entered at `entered_at`, waited for the
/// readers and catches a panic of its closure: it arrives at `Cleanup` then too.
pub open spec fn caught_cleanup_settlement<E>(
    entered_at: u8,
    waited: Option<PhasedErrorKind>,
    work: Work<E>,
) -> Settlement<E> {
    if work is Panicked {
        cleanup_settlement(entered_at, work)
    } else {
        graceful_cleanup_settlement(entered_at, entered_at, waited, work)
    }
}

/// Settles a transition to `Cleanup` that waited for the readers and catches a panic of its
/// closure.
pub fn settle_caught_cleanup<E>(
    entered_at: u8,
    waited: Option<PhasedErrorKind>,
    work: Work<E>,
) -> (settlement: Settlement<E>)
    ensures
        settlement == caught_cleanup_settlement(entered_at, waited, work),
{
    match work {
        Work::Panicked => settle_cleanup(entered_at, Work::Panicked),
        work => settle_graceful_cleanup(entered_at, entered_at, waited, work),
    }
}

/// What a transition to `Read` returns that would return `result`, if those who
/// wait for it could be told.
pub open spec fn notified_result<E>(
    result: Result<(), PhasedError<E>>,
    notified: bool,
) -> Result<(), PhasedError<E>> {
    if notified {
        result
    } else {
        Err(error_of(Phase::Setup, PhasedErrorKind::GracefulWaitMutexIsPoisoned))
    }
}

/// How a caller comes out of a transition to `Read` that would come out as `outcome`, if
/// those who wait for it could be told.
pub open spec fn notified_outcome<E>(outcome: Outcome<E>, notified: bool) -> Outcome<E> {
    match outcome {
        Outcome::Returns(result) => Outcome::Returns(notified_result(result, notified)),
        Outcome::Unwinds => Outcome::Unwinds,
    }
}

/// Tells how a caller comes out of a transition to `Read` once those who wait for it have
/// been told, or could not be told.
pub fn notice_read<E>(outcome: Outcome<E>, notified: bool) -> (told: Outcome<E>)
    ensures
        told == notified_outcome(outcome, notified),
{
    match outcome {
        Outcome::Unwinds => Outcome::Unwinds,
        Outcome::Returns(result) => Outcome::Returns(
            if notified {
                result
            } else {
                Err(
                    PhasedError::new(
                        u8_to_phase(PHASE_SETUP_TO_READ),
                        PhasedErrorKind::GracefulWaitMutexIsPoisoned,
                    ),
                )
            },
        ),
    }
}

/// How a transition to `Read` is settled that does not catch a panic of its closure, before
/// the readers are told that wait for its end.
///
/// It is settled as one that does, except that a closure that panics leaves the cell in
/// transition.
pub open spec fn graceful_read_settlement<E>(work: Work<E>) -> Settlement<E> {
    if work is Panicked {
        Settlement { to: PHASE_SETUP_TO_READ, ..read_settlement(work) }
    } else {
        read_settlement(work)
    }
}

/// Settles a transition to `Read` that does not catch a panic of its closure.
pub fn settle_graceful_read<E>(work: Work<E>) -> (settlement: Settlement<E>)
    ensures
        settlement == graceful_read_settlement(work),
{
    let mut settlement = settle_read(work);
    if let Outcome::Unwinds = settlement.outcome {
        settlement.to = PHASE_SETUP_TO_READ;
    }
    settlement
}

/// What a reader is told that wants to read.
#[derive(Debug, PartialEq, Eq, Clone, Copy, Structural)]
pub enum ReadLook {
    /// The cell is open for reading.
    Open,
    /// A transition to `Read` is in progress: the reader waits for its end and looks again.
    Wait,
}

/// What a reader is told that waits for a transition to `Read` to end, and the error where
/// the cell is not to be read and where the mutex of the wait is poisoned.
///
/// However long the transition lasts, the reader waits for its end.
pub open spec fn read_look(code: u8, poisoned: bool) -> Result<ReadLook, PhasedError> {
    if poisoned {
        Err(error_of(Phase::Setup, PhasedErrorKind::GracefulWaitMutexIsPoisoned))
    } else if code == PHASE_READ {
        Ok(ReadLook::Open)
    } else if code == PHASE_SETUP_TO_READ {
        Ok(ReadLook::Wait)
    } else {
        Err(error_of(phase_of(code), PhasedErrorKind::CannotCallUnlessPhaseRead(METHOD_READ)))
    }
}

/// Looks at the phase code for a reader that waits for a transition to `Read` to end.
pub fn look_for_read(code: u8, poisoned: bool) -> (result: Result<ReadLook, PhasedError>)
    ensures
        result == read_look(code, poisoned),
{
    if poisoned {
        return Err(
            PhasedError::new(
                u8_to_phase(PHASE_SETUP_TO_READ),
                PhasedErrorKind::GracefulWaitMutexIsPoisoned,
            ),
        );
    }
    match code {
        PHASE_READ => Ok(ReadLook::Open),
        PHASE_SETUP_TO_READ => Ok(ReadLook::Wait),
        _ => Err(
            PhasedError::new(
                u8_to_phase(code),
                PhasedErrorKind::CannotCallUnlessPhaseRead(METHOD_READ),
            ),
        ),
    }
}

} // verus!
