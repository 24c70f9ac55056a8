//! What errors hold and how they are shown, said of their arguments and results alone.

use crate::errors::{duration_debug_text, str_debug_text, PhasedError, PhasedErrorKind};
use crate::graceful::{GracefulWaitError, GracefulWaitErrorKind};
use crate::lock;
use crate::lock::errors::{method_name, typed_method_name};
use crate::lock::WaitStrategy;
use crate::phase::Phase;
use vstd::prelude::*;

verus! {

/// The text of a phase is its name.
pub proof fn law_phase_text(phase: Phase, text: String)
    requires
        call_ensures(Phase::to_text, (&phase,), text),
    ensures
        phase is Setup ==> text@ == "Setup"@,
        phase is Read ==> text@ == "Read"@,
        phase is Cleanup ==> text@ == "Cleanup"@,
{
}

/// The text of an error kind is its name, with what it holds in parentheses.
pub proof fn law_kind_text(kind: PhasedErrorKind, text: String)
    requires
        call_ensures(PhasedErrorKind::to_text, (&kind,), text),
    ensures
        kind is InternalDataUnavailable ==> text@ == "InternalDataUnavailable"@,
        kind is PhaseIsAlreadyRead ==> text@ == "PhaseIsAlreadyRead"@,
        kind is PhaseIsAlreadyCleanup ==> text@ == "PhaseIsAlreadyCleanup"@,
        kind is DuringTransitionToRead ==> text@ == "DuringTransitionToRead"@,
        kind is DuringTransitionToCleanup ==> text@ == "DuringTransitionToCleanup"@,
        kind is FailToRunClosureDuringTransitionToRead
            ==> text@ == "FailToRunClosureDuringTransitionToRead"@,
        kind is FailToRunClosureDuringTransitionToCleanup
            ==> text@ == "FailToRunClosureDuringTransitionToCleanup"@,
        kind is InternalDataMutexIsPoisoned ==> text@ == "InternalDataMutexIsPoisoned"@,
        kind is MutexTryLockFailed ==> text@ == "MutexTryLockFailed"@,
        kind is GracefulWaitMutexIsPoisoned ==> text@ == "GracefulWaitMutexIsPoisoned"@,
        kind matches PhasedErrorKind::CannotCallUnlessPhaseRead(method)
            ==> text@ == "CannotCallUnlessPhaseRead("@ + str_debug_text(method@)
            + ")"@,
        kind matches PhasedErrorKind::CannotCallOnPhaseSetup(method)
            ==> text@ == "CannotCallOnPhaseSetup("@ + str_debug_text(method@)
            + ")"@,
        kind matches PhasedErrorKind::CannotCallOnPhaseRead(method)
            ==> text@ == "CannotCallOnPhaseRead("@ + str_debug_text(method@)
            + ")"@,
        kind matches PhasedErrorKind::GracefulWaitTimeout(timeout)
            ==> text@ == "GracefulWaitTimeout("@
            + duration_debug_text(timeout) + ")"@,
{
}

/// The text of an error kind of a lock is its name, with what it holds in parentheses.
pub proof fn law_lock_kind_text(kind: lock::PhasedErrorKind, text: String, strategy_text: String)
    requires
        call_ensures(lock::PhasedErrorKind::to_text, (&kind,), text),
        kind matches lock::PhasedErrorKind::TransitionToCleanupTimeout(strategy) ==> call_ensures(
            WaitStrategy::to_text,
            (&strategy,),
            strategy_text,
        ),
    ensures
        kind is MutexIsPoisoned ==> text@ == "MutexIsPoisoned"@,
        kind is StdMutexIsPoisoned ==> text@ == "StdMutexIsPoisoned"@,
        kind is TransitionToReadFailed ==> text@ == "TransitionToReadFailed"@,
        kind is PhaseIsAlreadyRead ==> text@ == "PhaseIsAlreadyRead"@,
        kind is DuringTransitionToRead ==> text@ == "DuringTransitionToRead"@,
        kind is TransitionToCleanupFailed ==> text@ == "TransitionToCleanupFailed"@,
        kind is PhaseIsAlreadyCleanup ==> text@ == "PhaseIsAlreadyCleanup"@,
        kind is DuringTransitionToCleanup ==> text@ == "DuringTransitionToCleanup"@,
        kind is FailToRunClosureDuringTransitionToRead
            ==> text@ == "FailToRunClosureDuringTransitionToRead"@,
        kind is InternalDataIsEmpty ==> text@ == "InternalDataIsEmpty"@,
        kind is InternalDataUnavailable ==> text@ == "InternalDataUnavailable"@,
        kind matches lock::PhasedErrorKind::CannotCallInSetupPhase(method)
            ==> text@ == "CannotCallInSetupPhase("@
            + str_debug_text(method@) + ")"@,
        kind matches lock::PhasedErrorKind::CannotCallInReadPhase(method)
            ==> text@ == "CannotCallInReadPhase("@
            + str_debug_text(method@) + ")"@,
        kind matches lock::PhasedErrorKind::CannotCallOutOfReadPhase(method)
            ==> text@ == "CannotCallOutOfReadPhase("@
            + str_debug_text(method@) + ")"@,
        kind matches lock::PhasedErrorKind::CannotCallOnPhaseSetup(method)
            ==> text@ == "CannotCallOnPhaseSetup("@
            + str_debug_text(method@) + ")"@,
        kind matches lock::PhasedErrorKind::CannotCallUnlessPhaseRead(method)
            ==> text@ == "CannotCallUnlessPhaseRead("@
            + str_debug_text(method@) + ")"@,
        kind matches lock::PhasedErrorKind::CannotCallUnlessPhaseSetup(method)
            ==> text@ == "CannotCallUnlessPhaseSetup("@
            + str_debug_text(method@) + ")"@,
        kind matches lock::PhasedErrorKind::CannotCallUnlessPhaseCleanup(method)
            ==> text@ == "CannotCallUnlessPhaseCleanup("@
            + str_debug_text(method@) + ")"@,
        kind matches lock::PhasedErrorKind::CannotCallUnlessSetupUnlock(method)
            ==> text@ == "CannotCallUnlessSetupUnlock("@
            + str_debug_text(method@) + ")"@,
        kind matches lock::PhasedErrorKind::CannotCallUnlessCleanupUnlock(method)
            ==> text@ == "CannotCallUnlessCleanupUnlock("@
            + str_debug_text(method@) + ")"@,
        kind matches lock::PhasedErrorKind::CannotCallOnTokioRuntime(method)
            ==> text@ == "CannotCallOnTokioRuntime("@
            + str_debug_text(method@) + ")"@,
        kind is TransitionToCleanupTimeout
            ==> text@ == "TransitionToCleanupTimeout("@ + strategy_text@ + ")"@,
{
}

/// The text of a strategy is its name, with what it holds.
pub proof fn law_strategy_text(strategy: WaitStrategy, text: String)
    requires
        call_ensures(WaitStrategy::to_text, (&strategy,), text),
    ensures
        strategy is NoWait ==> text@ == "NoWait"@,
        strategy matches WaitStrategy::FixedWait(time)
            ==> text@ == "FixedWait("@ + duration_debug_text(time) + ")"@,
        strategy matches WaitStrategy::GracefulWait { timeout }
            ==> text@ == "GracefulWait { timeout: "@
            + duration_debug_text(timeout) + " }"@,
{
}

/// The text of a failed wait is its name, with what it holds in parentheses.
pub proof fn law_wait_kind_text(kind: GracefulWaitErrorKind, text: String)
    requires
        call_ensures(GracefulWaitErrorKind::to_text, (&kind,), text),
    ensures
        kind is MutexIsPoisoned ==> text@ == "MutexIsPoisoned"@,
        kind matches GracefulWaitErrorKind::TimedOut(timeout)
            ==> text@ == "TimedOut("@ + duration_debug_text(
            timeout,
        ) + ")"@,
{
}

/// The short text of an error is made of the texts of its phase and its kind.
pub proof fn law_display_text<E>(error: &PhasedError<E>, phase: String, kind: String, text: String)
    requires
        call_ensures(Phase::to_text, (&error.phase,), phase),
        call_ensures(PhasedErrorKind::to_text, (&error.kind,), kind),
        call_ensures(PhasedError::<E>::display_text, (error,), text),
    ensures
        text@ == "["@ + phase@ + "] "@ + kind@,
{
}

/// The full text of an error is made of the texts of its phase, its kind and its source, and
/// shows a source exactly if there is one.
pub proof fn law_debug_text<E>(
    error: &PhasedError<E>,
    source_text: &str,
    phase: String,
    kind: String,
    text: String,
)
    requires
        call_ensures(Phase::to_text, (&error.phase,), phase),
        call_ensures(PhasedErrorKind::to_text, (&error.kind,), kind),
        call_ensures(PhasedError::<E>::debug_text, (error, source_text), text),
    ensures
        error.source is Some ==> text@ =~= "setup_read_cleanup::PhasedError { phase: "@ + phase@
            + ", kind: "@
            + kind@ + ", source: "@ + source_text@ + " }"@,
        error.source is None ==> text@ =~= "setup_read_cleanup::PhasedError { phase: "@ + phase@
            + ", kind: "@
            + kind@ + " }"@,
{
}

/// The full text of an error of a lock is made of the texts of its phase, its kind and its
/// source, and shows a source exactly if there is one.
pub proof fn law_debug_text_lock<E>(
    error: &lock::PhasedError<E>,
    source_text: &str,
    phase: String,
    kind: String,
    text: String,
)
    requires
        call_ensures(Phase::to_text, (&error.phase,), phase),
        call_ensures(lock::PhasedErrorKind::to_text, (&error.kind,), kind),
        call_ensures(lock::PhasedError::<E>::debug_text, (error, source_text), text),
    ensures
        error.source is Some ==> text@ =~= "setup_read_cleanup::PhasedError { phased: "@ + phase@
            + ", kind: "@
            + kind@ + ", source: "@ + source_text@ + " }"@,
        error.source is None ==> text@ =~= "setup_read_cleanup::PhasedError { phased: "@ + phase@
            + ", kind: "@
            + kind@ + " }"@,
{
}

/// The texts of an error of a wait are made of the text of its kind.
pub proof fn law_wait_error_text(
    error: &GracefulWaitError,
    kind: String,
    short: String,
    full: String,
)
    requires
        call_ensures(GracefulWaitErrorKind::to_text, (&error.kind,), kind),
        call_ensures(GracefulWaitError::display_text, (error,), short),
        call_ensures(GracefulWaitError::debug_text, (error,), full),
    ensures
        short@ == kind@,
        full@ == "setup_read_cleanup::graceful::GracefulWaitError { kind: "@ + kind@ + " }"@,
{
}

/// An error tells what it was made of, and has no source.
pub proof fn law_new_error<E>(
    made_phase: Phase,
    made_kind: PhasedErrorKind,
    error: PhasedError<E>,
    phase: Phase,
    kind: PhasedErrorKind,
    source: Option<&E>,
)
    requires
        call_ensures(PhasedError::<E>::new, (made_phase, made_kind), error),
        call_ensures(PhasedError::<E>::phase, (&error,), phase),
        call_ensures(PhasedError::<E>::kind, (&error,), kind),
        call_ensures(PhasedError::<E>::source, (&error,), source),
    ensures
        phase == made_phase,
        kind == made_kind,
        source is None,
        error.phase == made_phase && error.kind == made_kind && error.source is None,
{
}

/// An error that another one caused tells what it was made of.
pub proof fn law_error_with_source<E>(
    made_phase: Phase,
    made_kind: PhasedErrorKind,
    cause: E,
    error: PhasedError<E>,
    phase: Phase,
    kind: PhasedErrorKind,
    source: Option<&E>,
)
    requires
        call_ensures(PhasedError::<E>::with_source, (made_phase, made_kind, cause), error),
        call_ensures(PhasedError::<E>::phase, (&error,), phase),
        call_ensures(PhasedError::<E>::kind, (&error,), kind),
        call_ensures(PhasedError::<E>::source, (&error,), source),
    ensures
        phase == made_phase,
        kind == made_kind,
        source matches Some(told) && *told == cause,
        error.phase == made_phase && error.kind == made_kind && error.source == Some(cause),
{
}

/// An error of a lock holds what it was made of.
pub proof fn law_lock_error<E>(
    phase: Phase,
    kind: lock::PhasedErrorKind,
    cause: E,
    plain: lock::PhasedError<E>,
    caused: lock::PhasedError<E>,
)
    requires
        call_ensures(lock::PhasedError::<E>::new, (phase, kind), plain),
        call_ensures(lock::PhasedError::<E>::with_source, (phase, kind, cause), caused),
    ensures
        plain.phase == phase && plain.kind == kind && plain.source is None,
        caused.phase == phase && caused.kind == kind && caused.source == Some(cause),
{
}

/// An error of a wait holds its kind, and has no source.
pub proof fn law_wait_error(
    kind: GracefulWaitErrorKind,
    error: GracefulWaitError,
    source: Option<&GracefulWaitError>,
)
    requires
        call_ensures(GracefulWaitError::new, (kind,), error),
        call_ensures(GracefulWaitError::source, (&error,), source),
    ensures
        error.kind == kind,
        source is None,
{
}

/// A method of a lock is named by the type of the lock, the type of the data and its own name.
pub proof fn law_method_name(
    lock_type: &str,
    data_type: &str,
    method: &str,
    typed: String,
    plain: String,
)
    requires
        call_ensures(typed_method_name, (lock_type, data_type, method), typed),
        call_ensures(method_name, (data_type, method), plain),
    ensures
        typed@ == lock_type@ + "<"@ + data_type@ + ">::"@ + method@,
        plain@ == "setup_read_cleanup::PhasedLock"@ + "<"@ + data_type@ + ">::"@ + method@,
{
}

} // verus!
