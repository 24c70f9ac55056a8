//! Words in which the laws speak of phases and refusals.

use crate::errors::PhasedErrorKind;
use crate::lock::PhasedErrorKind as LockErrorKind;
use crate::phase::{
    Phase, PHASE_CLEANUP, PHASE_READ, PHASE_READ_TO_CLEANUP, PHASE_SETUP, PHASE_SETUP_TO_CLEANUP,
    PHASE_SETUP_TO_READ,
};
use vstd::prelude::*;

verus! {

/// Whether a cell or a lock with the code `code` shows the phase `phase`.
pub open spec fn shows(code: u8, phase: Phase) -> bool {
    &&& phase is Setup <==> code == PHASE_SETUP || code == PHASE_SETUP_TO_READ
    &&& phase is Read <==> code == PHASE_READ
}

/// Whether `kind` tells why a cell with the code `code` does not go to `Read`.
pub open spec fn is_read_refusal(code: u8, kind: PhasedErrorKind) -> bool {
    &&& code != PHASE_SETUP
    &&& code == PHASE_READ ==> kind == PhasedErrorKind::PhaseIsAlreadyRead
    &&& code == PHASE_CLEANUP ==> kind == PhasedErrorKind::PhaseIsAlreadyCleanup
    &&& code == PHASE_SETUP_TO_READ ==> kind == PhasedErrorKind::DuringTransitionToRead
    &&& code == PHASE_SETUP_TO_CLEANUP || code == PHASE_READ_TO_CLEANUP ==> kind
        == PhasedErrorKind::DuringTransitionToCleanup
}

/// Whether `kind` tells why a cell with the code `code` does not go to `Cleanup`.
pub open spec fn is_cleanup_refusal(code: u8, kind: PhasedErrorKind) -> bool {
    &&& code != PHASE_SETUP && code != PHASE_READ
    &&& code == PHASE_CLEANUP ==> kind == PhasedErrorKind::PhaseIsAlreadyCleanup
    &&& code == PHASE_SETUP_TO_READ ==> kind == PhasedErrorKind::DuringTransitionToRead
    &&& code == PHASE_SETUP_TO_CLEANUP || code == PHASE_READ_TO_CLEANUP ==> kind
        == PhasedErrorKind::DuringTransitionToCleanup
}

/// Whether `kind` tells why the data of a cell with the code `code` cannot be changed by
/// `method`.
pub open spec fn is_change_refusal(
    code: u8,
    kind: PhasedErrorKind,
    method: &'static str,
) -> bool {
    &&& code == PHASE_READ ==> kind == PhasedErrorKind::CannotCallOnPhaseRead(method)
    &&& code == PHASE_SETUP_TO_READ ==> kind == PhasedErrorKind::DuringTransitionToRead
    &&& code == PHASE_SETUP_TO_CLEANUP || code == PHASE_READ_TO_CLEANUP ==> kind
        == PhasedErrorKind::DuringTransitionToCleanup
}

/// Whether `kind` tells why a lock with the code `code` does not go to `Read`.
pub open spec fn is_lock_read_refusal(code: u8, kind: LockErrorKind) -> bool {
    &&& code != PHASE_SETUP
    &&& code == PHASE_READ ==> kind is PhaseIsAlreadyRead
    &&& code == PHASE_SETUP_TO_READ ==> kind is DuringTransitionToRead
    &&& code != PHASE_READ && code != PHASE_SETUP_TO_READ ==> kind is TransitionToReadFailed
}

/// Whether `kind` tells why a lock with the code `code` does not go to `Cleanup`.
pub open spec fn is_lock_cleanup_refusal(code: u8, kind: LockErrorKind) -> bool {
    &&& code != PHASE_SETUP && code != PHASE_READ
    &&& code == PHASE_CLEANUP ==> kind is PhaseIsAlreadyCleanup
    &&& code == PHASE_READ_TO_CLEANUP ==> kind is DuringTransitionToCleanup
    &&& code != PHASE_CLEANUP && code != PHASE_READ_TO_CLEANUP ==> kind is TransitionToCleanupFailed
}

} // verus!
