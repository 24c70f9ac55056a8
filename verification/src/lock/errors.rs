//! The errors of phased locks and the texts that show them.

use crate::errors::{
    called_text, duration_debug_text, duration_text, payload_text, quoted, str_debug_text,
};
use crate::phase::{phase_name, Phase};
use std::time::Duration;
use vstd::prelude::*;
use vstd::string::StringExecFns;

verus! {

/// Defines the strategy for waiting for a phase transition to complete.
#[derive(Debug, PartialEq, Eq, Clone, Copy)]
pub enum WaitStrategy {
    /// Do not wait.
    NoWait,
    /// Wait for a fixed amount of time.
    FixedWait(Duration),
    /// Wait gracefully, with a specified timeout.
    GracefulWait {
        /// How long to wait at most.
        timeout: Duration,
    },
}

/// Represents the kinds of errors that can occur in each phase.
#[derive(Debug, PartialEq, Eq)]
pub enum PhasedErrorKind {
    /// Indicates that a mutex was poisoned.
    MutexIsPoisoned,
    /// Indicates that the mutex of a wait was poisoned.
    StdMutexIsPoisoned,
    /// Indicates a failure to transition to the `Read` phase.
    TransitionToReadFailed,
    /// Indicates an attempt to transition to the `Read` phase when already in it.
    PhaseIsAlreadyRead,
    /// Indicates that a transition to the `Read` phase is already in progress.
    DuringTransitionToRead,
    /// Indicates a failure to transition to the `Cleanup` phase.
    TransitionToCleanupFailed,
    /// Indicates an attempt to transition to the `Cleanup` phase when already in it.
    PhaseIsAlreadyCleanup,
    /// Indicates that a transition to the `Cleanup` phase is already in progress.
    DuringTransitionToCleanup,
    /// Indicates a timeout while waiting to transition to the `Cleanup` phase.
    TransitionToCleanupTimeout(WaitStrategy),
    /// Indicates that the provided closure failed to execute during the transition to the
    /// `Read` phase.
    FailToRunClosureDuringTransitionToRead,
    /// Indicates that the internal data is empty.
    InternalDataIsEmpty,
    /// Indicates that the internal data is not available.
    InternalDataUnavailable,
    /// Indicates an attempt to call a method that is not allowed in the `Setup` phase.
    CannotCallInSetupPhase(String),
    /// Indicates an attempt to call a method that is not allowed in the `Read` phase.
    CannotCallInReadPhase(String),
    /// Indicates an attempt to call a method that is not allowed outside of the `Read` phase.
    CannotCallOutOfReadPhase(String),
    /// Indicates an attempt to call a method before the first `Read` phase.
    CannotCallOnPhaseSetup(String),
    /// Indicates an attempt to call a method before or after the `Read` phase.
    CannotCallUnlessPhaseRead(String),
    /// Indicates an attempt to call a method after the `Setup` phase.
    CannotCallUnlessPhaseSetup(String),
    /// Indicates an attempt to call a method before the `Cleanup` phase.
    CannotCallUnlessPhaseCleanup(String),
    /// Indicates an attempt to call a method of a lock that is locked in the `Setup` phase.
    CannotCallUnlessSetupUnlock(String),
    /// Indicates an attempt to call a method of a lock that is locked in the `Cleanup` phase.
    CannotCallUnlessCleanupUnlock(String),
    /// Indicates an attempt to call a blocking method on a tokio runtime.
    CannotCallOnTokioRuntime(String),
}

/// Represents an error that occurs in a specific execution phase.
///
/// `E` is the error type of the closure that a transition runs, and `()` where no
/// closure is run.
#[derive(Debug)]
pub struct PhasedError<E = ()> {
    /// The phase in which the error occurred.
    pub phase: Phase,
    /// The specific kind of error.
    pub kind: PhasedErrorKind,
    /// The underlying error that caused this error, if any.
    pub source: Option<E>,
}

/// The error of the given kind, without a source.
pub open spec fn lock_error<E>(phase: Phase, kind: PhasedErrorKind) -> PhasedError<E> {
    PhasedError { phase, kind, source: None }
}

impl<E> PhasedError<E> {
    /// Creates an error without a source.
    pub fn new(phase: Phase, kind: PhasedErrorKind) -> (error: Self)
        ensures
            error == lock_error::<E>(phase, kind),
    {
        Self { phase, kind, source: None }
    }

    /// Creates an error that another error caused.
    pub fn with_source(phase: Phase, kind: PhasedErrorKind, source: E) -> (error: Self)
        ensures
            error == (PhasedError { phase, kind, source: Some(source) }),
    {
        Self { phase, kind, source: Some(source) }
    }

    /// Returns the text that describes this error in full to a developer.
    ///
    /// `source_text` is the text of the source, and is shown only where there
    /// is one.
    pub fn debug_text(&self, source_text: &str) -> (text: String)
        ensures
            text@ == "setup_read_cleanup::PhasedError { phased: "@ + phase_name(self.phase)
                + ", kind: "@ + lock_kind_text(self.kind) + (if self.source is Some {
                ", source: "@ + source_text@
            } else {
                Seq::empty()
            }) + " }"@,
    {
        let mut text = "setup_read_cleanup::PhasedError { phased: ".to_owned();
        text.append(self.phase.to_text().as_str());
        text.append(", kind: ");
        text.append(self.kind.to_text().as_str());
        if self.source.is_some() {
            text.append(", source: ");
            text.append(source_text);
        }
        text.append(" }");
        text
    }
}

/// The text of a wait strategy.
pub open spec fn strategy_text(strategy: WaitStrategy) -> Seq<char> {
    match strategy {
        WaitStrategy::NoWait => "NoWait"@,
        WaitStrategy::FixedWait(time) => called_text("FixedWait("@, duration_debug_text(time)),
        WaitStrategy::GracefulWait { timeout } => "GracefulWait { timeout: "@
            + duration_debug_text(timeout) + " }"@,
    }
}

impl WaitStrategy {
    /// Returns the text of this strategy, as messages show it.
    pub fn to_text(&self) -> (text: String)
        ensures
            text@ == strategy_text(*self),
    {
        match self {
            WaitStrategy::NoWait => "NoWait".to_owned(),
            WaitStrategy::FixedWait(time) => payload_text("FixedWait(", duration_text(time)),
            WaitStrategy::GracefulWait { timeout } => {
                let mut text = "GracefulWait { timeout: ".to_owned();
                text.append(duration_text(timeout).as_str());
                text.append(" }");
                text
            },
        }
    }
}

/// The text of an error kind.
pub open spec fn lock_kind_text(kind: PhasedErrorKind) -> Seq<char> {
    match kind {
        PhasedErrorKind::MutexIsPoisoned => "MutexIsPoisoned"@,
        PhasedErrorKind::StdMutexIsPoisoned => "StdMutexIsPoisoned"@,
        PhasedErrorKind::TransitionToReadFailed => "TransitionToReadFailed"@,
        PhasedErrorKind::PhaseIsAlreadyRead => "PhaseIsAlreadyRead"@,
        PhasedErrorKind::DuringTransitionToRead => "DuringTransitionToRead"@,
        PhasedErrorKind::TransitionToCleanupFailed => "TransitionToCleanupFailed"@,
        PhasedErrorKind::PhaseIsAlreadyCleanup => "PhaseIsAlreadyCleanup"@,
        PhasedErrorKind::DuringTransitionToCleanup => "DuringTransitionToCleanup"@,
        PhasedErrorKind::TransitionToCleanupTimeout(strategy) => called_text(
            "TransitionToCleanupTimeout("@,
            strategy_text(strategy),
        ),
        PhasedErrorKind::FailToRunClosureDuringTransitionToRead => {
            "FailToRunClosureDuringTransitionToRead"@
        },
        PhasedErrorKind::InternalDataIsEmpty => "InternalDataIsEmpty"@,
        PhasedErrorKind::InternalDataUnavailable => "InternalDataUnavailable"@,
        PhasedErrorKind::CannotCallInSetupPhase(method) => called_text(
            "CannotCallInSetupPhase("@,
            str_debug_text(method@),
        ),
        PhasedErrorKind::CannotCallInReadPhase(method) => called_text(
            "CannotCallInReadPhase("@,
            str_debug_text(method@),
        ),
        PhasedErrorKind::CannotCallOutOfReadPhase(method) => called_text(
            "CannotCallOutOfReadPhase("@,
            str_debug_text(method@),
        ),
        PhasedErrorKind::CannotCallOnPhaseSetup(method) => called_text(
            "CannotCallOnPhaseSetup("@,
            str_debug_text(method@),
        ),
        PhasedErrorKind::CannotCallUnlessPhaseRead(method) => called_text(
            "CannotCallUnlessPhaseRead("@,
            str_debug_text(method@),
        ),
        PhasedErrorKind::CannotCallUnlessPhaseSetup(method) => called_text(
            "CannotCallUnlessPhaseSetup("@,
            str_debug_text(method@),
        ),
        PhasedErrorKind::CannotCallUnlessPhaseCleanup(method) => called_text(
            "CannotCallUnlessPhaseCleanup("@,
            str_debug_text(method@),
        ),
        PhasedErrorKind::CannotCallUnlessSetupUnlock(method) => called_text(
            "CannotCallUnlessSetupUnlock("@,
            str_debug_text(method@),
        ),
        PhasedErrorKind::CannotCallUnlessCleanupUnlock(method) => called_text(
            "CannotCallUnlessCleanupUnlock("@,
            str_debug_text(method@),
        ),
        PhasedErrorKind::CannotCallOnTokioRuntime(method) => called_text(
            "CannotCallOnTokioRuntime("@,
            str_debug_text(method@),
        ),
    }
}

impl PhasedErrorKind {
    /// Returns the text of this kind, as messages show it.
    pub fn to_text(&self) -> (text: String)
        ensures
            text@ == lock_kind_text(*self),
    {
        match self {
            PhasedErrorKind::MutexIsPoisoned => "MutexIsPoisoned".to_owned(),
            PhasedErrorKind::StdMutexIsPoisoned => "StdMutexIsPoisoned".to_owned(),
            PhasedErrorKind::TransitionToReadFailed => "TransitionToReadFailed".to_owned(),
            PhasedErrorKind::PhaseIsAlreadyRead => "PhaseIsAlreadyRead".to_owned(),
            PhasedErrorKind::DuringTransitionToRead => "DuringTransitionToRead".to_owned(),
            PhasedErrorKind::TransitionToCleanupFailed => "TransitionToCleanupFailed".to_owned(),
            PhasedErrorKind::PhaseIsAlreadyCleanup => "PhaseIsAlreadyCleanup".to_owned(),
            PhasedErrorKind::DuringTransitionToCleanup => "DuringTransitionToCleanup".to_owned(),
            PhasedErrorKind::TransitionToCleanupTimeout(strategy) => {
                payload_text("TransitionToCleanupTimeout(", strategy.to_text())
            },
            PhasedErrorKind::FailToRunClosureDuringTransitionToRead => {
                "FailToRunClosureDuringTransitionToRead".to_owned()
            },
            PhasedErrorKind::InternalDataIsEmpty => "InternalDataIsEmpty".to_owned(),
            PhasedErrorKind::InternalDataUnavailable => "InternalDataUnavailable".to_owned(),
            PhasedErrorKind::CannotCallInSetupPhase(method) => {
                payload_text("CannotCallInSetupPhase(", quoted(method.as_str()))
            },
            PhasedErrorKind::CannotCallInReadPhase(method) => {
                payload_text("CannotCallInReadPhase(", quoted(method.as_str()))
            },
            PhasedErrorKind::CannotCallOutOfReadPhase(method) => {
                payload_text("CannotCallOutOfReadPhase(", quoted(method.as_str()))
            },
            PhasedErrorKind::CannotCallOnPhaseSetup(method) => {
                payload_text("CannotCallOnPhaseSetup(", quoted(method.as_str()))
            },
            PhasedErrorKind::CannotCallUnlessPhaseRead(method) => {
                payload_text("CannotCallUnlessPhaseRead(", quoted(method.as_str()))
            },
            PhasedErrorKind::CannotCallUnlessPhaseSetup(method) => {
                payload_text("CannotCallUnlessPhaseSetup(", quoted(method.as_str()))
            },
            PhasedErrorKind::CannotCallUnlessPhaseCleanup(method) => {
                payload_text("CannotCallUnlessPhaseCleanup(", quoted(method.as_str()))
            },
            PhasedErrorKind::CannotCallUnlessSetupUnlock(method) => {
                payload_text("CannotCallUnlessSetupUnlock(", quoted(method.as_str()))
            },
            PhasedErrorKind::CannotCallUnlessCleanupUnlock(method) => {
                payload_text("CannotCallUnlessCleanupUnlock(", quoted(method.as_str()))
            },
            PhasedErrorKind::CannotCallOnTokioRuntime(method) => {
                payload_text("CannotCallOnTokioRuntime(", quoted(method.as_str()))
            },
        }
    }
}

/// The name of the type of a lock.
pub const LOCK_TYPE: &'static str = "setup_read_cleanup::PhasedLock";

/// The name of the type of a lock that is for tasks only.
pub const TASK_LOCK_TYPE: &'static str = "setup_read_cleanup::tokio::PhasedLock";

/// The name of a method of a lock of the type that `lock_type` names, around data of the type
/// that `data_type` names.
pub open spec fn typed_method_text(
    lock_type: Seq<char>,
    data_type: Seq<char>,
    method: Seq<char>,
) -> Seq<char> {
    lock_type + "<"@ + data_type + ">::"@ + method
}

/// Names a method of a lock of the type that `lock_type` names, around data of the type that
/// `data_type` names.
pub fn typed_method_name(lock_type: &str, data_type: &str, method: &str) -> (text: String)
    ensures
        text@ == typed_method_text(lock_type@, data_type@, method@),
{
    let mut text = lock_type.to_owned();
    text.append("<");
    text.append(data_type);
    text.append(">::");
    text.append(method);
    text
}

/// The name of a method of a lock around data of the type that `data_type` names.
pub open spec fn method_text(data_type: Seq<char>, method: Seq<char>) -> Seq<char> {
    typed_method_text(LOCK_TYPE@, data_type, method)
}

/// Names a method of a lock around data of the type that `data_type` names.
pub fn method_name(data_type: &str, method: &str) -> (text: String)
    ensures
        text@ == method_text(data_type@, method@),
{
    typed_method_name(LOCK_TYPE, data_type, method)
}

} // verus!
