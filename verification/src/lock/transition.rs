//! The decisions that move a lock from phase to phase.

use super::errors::{lock_error, PhasedError, PhasedErrorKind, WaitStrategy};
use crate::phase::{
    phase_of, u8_to_phase, Phase, PHASE_CLEANUP, PHASE_READ, PHASE_READ_TO_CLEANUP, PHASE_SETUP,
    PHASE_SETUP_TO_READ,
};
use std::time::Duration;
use vstd::prelude::*;

verus! {

/// Why a transition to `Read` cannot begin at `code`.
pub open spec fn lock_read_refusal_kind(code: u8) -> PhasedErrorKind {
    if code == PHASE_READ {
        PhasedErrorKind::PhaseIsAlreadyRead
    } else if code == PHASE_SETUP_TO_READ {
        PhasedErrorKind::DuringTransitionToRead
    } else {
        PhasedErrorKind::TransitionToReadFailed
    }
}

/// Builds the error of a transition to `Read` that cannot begin.
pub fn refuse_lock_read<E>(code: u8) -> (error: PhasedError<E>)
    ensures
        error == lock_error::<E>(phase_of(code), lock_read_refusal_kind(code)),
{
    match code {
        PHASE_READ => PhasedError::new(u8_to_phase(PHASE_READ), PhasedErrorKind::PhaseIsAlreadyRead),
        PHASE_SETUP_TO_READ => PhasedError::new(
            u8_to_phase(PHASE_SETUP_TO_READ),
            PhasedErrorKind::DuringTransitionToRead,
        ),
        _ => PhasedError::new(u8_to_phase(code), PhasedErrorKind::TransitionToReadFailed),
    }
}

/// Why a transition to `Cleanup` cannot begin at `code`.
pub open spec fn lock_cleanup_refusal_kind(code: u8) -> PhasedErrorKind {
    if code == PHASE_READ_TO_CLEANUP {
        PhasedErrorKind::DuringTransitionToCleanup
    } else if code == PHASE_CLEANUP {
        PhasedErrorKind::PhaseIsAlreadyCleanup
    } else {
        PhasedErrorKind::TransitionToCleanupFailed
    }
}

/// Builds the error of a transition to `Cleanup` that cannot begin.
pub fn refuse_lock_cleanup(code: u8) -> (error: PhasedError)
    ensures
        error == lock_error::<()>(phase_of(code), lock_cleanup_refusal_kind(code)),
{
    match code {
        PHASE_READ_TO_CLEANUP => PhasedError::new(
            u8_to_phase(PHASE_READ_TO_CLEANUP),
            PhasedErrorKind::DuringTransitionToCleanup,
        ),
        PHASE_CLEANUP => PhasedError::new(
            u8_to_phase(PHASE_CLEANUP),
            PhasedErrorKind::PhaseIsAlreadyCleanup,
        ),
        _ => PhasedError::new(u8_to_phase(code), PhasedErrorKind::TransitionToCleanupFailed),
    }
}

/// The code that a transition to `Cleanup` gives a lock with a mutex: there is
/// nothing left to do for one from `Setup`.
pub open spec fn direct_cleanup_entry(code: u8) -> Option<u8> {
    if code == PHASE_SETUP {
        Some(PHASE_CLEANUP)
    } else if code == PHASE_READ {
        Some(PHASE_READ_TO_CLEANUP)
    } else {
        None
    }
}

/// Decides whether a transition to `Cleanup` of a lock with a mutex can begin.
pub fn enter_cleanup_directly(code: u8) -> (entered: Option<u8>)
    ensures
        entered == direct_cleanup_entry(code),
{
    match code {
        PHASE_SETUP => Some(PHASE_CLEANUP),
        PHASE_READ => Some(PHASE_READ_TO_CLEANUP),
        _ => None,
    }
}

/// What a transition to `Read` of a lock returns whose closure returned `ran`.
pub open spec fn lock_read_result<E>(ran: Result<(), E>) -> Result<(), PhasedError<E>> {
    match ran {
        Ok(_) => Ok(()),
        Err(e) => Err(
            PhasedError {
                phase: Phase::Setup,
                kind: PhasedErrorKind::FailToRunClosureDuringTransitionToRead,
                source: Some(e),
            },
        ),
    }
}

/// Builds the result of a transition to `Read` of a lock.
pub fn to_lock_read_result<E>(ran: Result<(), E>) -> (result: Result<(), PhasedError<E>>)
    ensures
        result == lock_read_result(ran),
{
    match ran {
        Ok(_) => Ok(()),
        Err(e) => Err(
            PhasedError::with_source(
                u8_to_phase(PHASE_SETUP_TO_READ),
                PhasedErrorKind::FailToRunClosureDuringTransitionToRead,
                e,
            ),
        ),
    }
}

/// What a graceful transition to `Cleanup` returns whose wait for `timeout` ended as
/// `timed_out` says, with `count` readers left.
pub open spec fn graceful_wait_result(timed_out: bool, count: usize, timeout: Duration) -> Result<
    (),
    PhasedError,
> {
    if timed_out && count > 0 {
        Err(
            lock_error(
                Phase::Cleanup,
                PhasedErrorKind::TransitionToCleanupTimeout(
                    WaitStrategy::GracefulWait { timeout },
                ),
            ),
        )
    } else {
        Ok(())
    }
}

/// Builds the result of a graceful transition to `Cleanup`.
pub fn to_graceful_wait_result(timed_out: bool, count: usize, timeout: Duration) -> (result: Result<
    (),
    PhasedError,
>)
    ensures
        result == graceful_wait_result(timed_out, count, timeout),
{
    if timed_out && count > 0 {
        Err(
            PhasedError::new(
                u8_to_phase(PHASE_READ_TO_CLEANUP),
                PhasedErrorKind::TransitionToCleanupTimeout(
                    WaitStrategy::GracefulWait { timeout },
                ),
            ),
        )
    } else {
        Ok(())
    }
}

} // verus!
