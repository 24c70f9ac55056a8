//! The errors of phased cells and the texts that show them.

use crate::phase::{phase_name, Phase};
use std::time::Duration;
use vstd::prelude::*;
use vstd::string::StringExecFns;

verus! {

/// The name under which an error reports the method `read`.
pub const METHOD_READ: &'static str = "read";

/// The name under which an error reports the method `read_relaxed`.
pub const METHOD_READ_RELAXED: &'static str = "read_relaxed";

/// The name under which an error reports the method `get_mut_unlocked`.
pub const METHOD_GET_MUT_UNLOCKED: &'static str = "get_mut_unlocked";

/// The name under which an error reports the method `lock`.
pub const METHOD_LOCK: &'static str = "lock";

/// The name under which an error reports the method `lock_async`.
pub const METHOD_LOCK_ASYNC: &'static str = "lock_async";

/// An enumeration of possible error kinds that can occur in a phased cell.
///
/// This enum categorizes the various errors that can arise during phase transitions
/// or data access, providing specific information about the nature of the failure.
#[derive(Debug, PartialEq, Eq, Clone, Copy)]
pub enum PhasedErrorKind {
    /// An error indicating that a method was called before or after the `Read` phase.
    CannotCallUnlessPhaseRead(&'static str),
    /// An error indicating that a method was called during the `Setup` phase.
    CannotCallOnPhaseSetup(&'static str),
    /// An error indicating that a method was called during the `Read` phase.
    CannotCallOnPhaseRead(&'static str),
    /// An error indicating that the internal data is not available.
    InternalDataUnavailable,
    /// An error indicating that the phase is already `Read`.
    PhaseIsAlreadyRead,
    /// An error indicating that the phase is already `Cleanup`.
    PhaseIsAlreadyCleanup,
    /// An error indicating that a phase transition to `Read` is in progress.
    DuringTransitionToRead,
    /// An error indicating that a phase transition to `Cleanup` is in progress.
    DuringTransitionToCleanup,
    /// An error indicating that a closure failed to run during the transition to `Read`.
    FailToRunClosureDuringTransitionToRead,
    /// An error indicating that a closure failed to run during the transition to `Cleanup`.
    FailToRunClosureDuringTransitionToCleanup,
    /// An error indicating that a `std::sync::Mutex` for internal data is poisoned.
    InternalDataMutexIsPoisoned,
    /// An error indicating that the internal data mutex could not be locked non-blockingly.
    MutexTryLockFailed,
    /// An error indicating a timeout occurred while waiting for a graceful cleanup.
    GracefulWaitTimeout(Duration),
    /// An error indicating that a `std::sync::Mutex` for graceful-wait is poisoned.
    GracefulWaitMutexIsPoisoned,
}

/// A structure representing an error that occurred within a phased cell.
///
/// It contains the phase in which the error occurred, the kind of error, and an
/// optional source error for more context. `E` is the error type of the closure
/// that a transition runs, and `()` where no closure is run.
#[derive(Debug)]
pub struct PhasedError<E = ()> {
    /// The phase in which the error occurred.
    pub phase: Phase,
    /// The kind of error that occurred.
    pub kind: PhasedErrorKind,
    /// The error that caused this one, if there is one.
    pub source: Option<E>,
}

/// The error of the given kind, without a source.
pub open spec fn error_of<E>(phase: Phase, kind: PhasedErrorKind) -> PhasedError<E> {
    PhasedError { phase, kind, source: None }
}

/// The error of the given kind that `source` caused.
pub open spec fn error_from<E>(phase: Phase, kind: PhasedErrorKind, source: E) -> PhasedError<E> {
    PhasedError { phase, kind, source: Some(source) }
}

impl<E> PhasedError<E> {
    /// Creates an error without a source.
    pub fn new(phase: Phase, kind: PhasedErrorKind) -> (error: Self)
        ensures
            error == error_of::<E>(phase, kind),
    {
        Self { phase, kind, source: None }
    }

    /// Creates an error that another error caused.
    pub fn with_source(phase: Phase, kind: PhasedErrorKind, source: E) -> (error: Self)
        ensures
            error == error_from(phase, kind, source),
    {
        Self { phase, kind, source: Some(source) }
    }

    /// Gets the phase in which the error occurred.
    pub fn phase(&self) -> (phase: Phase)
        ensures
            phase == self.phase,
    {
        self.phase
    }

    /// Gets the kind of error that occurred.
    pub fn kind(&self) -> (kind: PhasedErrorKind)
        ensures
            kind == self.kind,
    {
        self.kind
    }

    /// Gets the error that caused this one.
    pub fn source(&self) -> (source: Option<&E>)
        ensures
            source == (match self.source {
                Some(e) => Some(&e),
                None => None,
            }),
    {
        self.source.as_ref()
    }

    /// Returns the text that describes this error in full to a developer.
    ///
    /// `source_text` is the text of the source, and is shown only where there
    /// is one.
    pub fn debug_text(&self, source_text: &str) -> (text: String)
        ensures
            text@ == "setup_read_cleanup::PhasedError { phase: "@ + phase_name(self.phase)
                + ", kind: "@ + kind_text(self.kind) + (if self.source is Some {
                ", source: "@ + source_text@
            } else {
                Seq::empty()
            }) + " }"@,
    {
        let mut text = "setup_read_cleanup::PhasedError { phase: ".to_owned();
        text.append(self.phase.to_text().as_str());
        text.append(", kind: ");
        text.append(self.kind.to_text().as_str());
        if self.source.is_some() {
            text.append(", source: ");
            text.append(source_text);
        }
        text.append(" }");
        text
    }

    /// Returns the short text that describes this error.
    pub fn display_text(&self) -> (text: String)
        ensures
            text@ == "["@ + phase_name(self.phase) + "] "@ + kind_text(self.kind),
    {
        let mut text = "[".to_owned();
        text.append(self.phase.to_text().as_str());
        text.append("] ");
        text.append(self.kind.to_text().as_str());
        text
    }
}

/// The text of an error kind.
pub open spec fn kind_text(kind: PhasedErrorKind) -> Seq<char> {
    match kind {
        PhasedErrorKind::CannotCallUnlessPhaseRead(method) => called_text(
            "CannotCallUnlessPhaseRead("@,
            str_debug_text(method@),
        ),
        PhasedErrorKind::CannotCallOnPhaseSetup(method) => called_text(
            "CannotCallOnPhaseSetup("@,
            str_debug_text(method@),
        ),
        PhasedErrorKind::CannotCallOnPhaseRead(method) => called_text(
            "CannotCallOnPhaseRead("@,
            str_debug_text(method@),
        ),
        PhasedErrorKind::InternalDataUnavailable => "InternalDataUnavailable"@,
        PhasedErrorKind::PhaseIsAlreadyRead => "PhaseIsAlreadyRead"@,
        PhasedErrorKind::PhaseIsAlreadyCleanup => "PhaseIsAlreadyCleanup"@,
        PhasedErrorKind::DuringTransitionToRead => "DuringTransitionToRead"@,
        PhasedErrorKind::DuringTransitionToCleanup => "DuringTransitionToCleanup"@,
        PhasedErrorKind::FailToRunClosureDuringTransitionToRead => {
            "FailToRunClosureDuringTransitionToRead"@
        },
        PhasedErrorKind::FailToRunClosureDuringTransitionToCleanup => {
            "FailToRunClosureDuringTransitionToCleanup"@
        },
        PhasedErrorKind::InternalDataMutexIsPoisoned => "InternalDataMutexIsPoisoned"@,
        PhasedErrorKind::MutexTryLockFailed => "MutexTryLockFailed"@,
        PhasedErrorKind::GracefulWaitTimeout(timeout) => called_text(
            "GracefulWaitTimeout("@,
            duration_debug_text(timeout),
        ),
        PhasedErrorKind::GracefulWaitMutexIsPoisoned => "GracefulWaitMutexIsPoisoned"@,
    }
}

/// A variant's name with its opening parenthesis, its payload, and the closing
/// parenthesis.
pub open spec fn called_text(head: Seq<char>, payload: Seq<char>) -> Seq<char> {
    head + payload + ")"@
}

impl PhasedErrorKind {
    /// Returns the text of this kind, as messages show it.
    pub fn to_text(&self) -> (text: String)
        ensures
            text@ == kind_text(*self),
    {
        match self {
            PhasedErrorKind::CannotCallUnlessPhaseRead(method) => {
                payload_text("CannotCallUnlessPhaseRead(", quoted(method))
            },
            PhasedErrorKind::CannotCallOnPhaseSetup(method) => {
                payload_text("CannotCallOnPhaseSetup(", quoted(method))
            },
            PhasedErrorKind::CannotCallOnPhaseRead(method) => {
                payload_text("CannotCallOnPhaseRead(", quoted(method))
            },
            PhasedErrorKind::InternalDataUnavailable => "InternalDataUnavailable".to_owned(),
            PhasedErrorKind::PhaseIsAlreadyRead => "PhaseIsAlreadyRead".to_owned(),
            PhasedErrorKind::PhaseIsAlreadyCleanup => "PhaseIsAlreadyCleanup".to_owned(),
            PhasedErrorKind::DuringTransitionToRead => "DuringTransitionToRead".to_owned(),
            PhasedErrorKind::DuringTransitionToCleanup => "DuringTransitionToCleanup".to_owned(),
            PhasedErrorKind::FailToRunClosureDuringTransitionToRead => {
                "FailToRunClosureDuringTransitionToRead".to_owned()
            },
            PhasedErrorKind::FailToRunClosureDuringTransitionToCleanup => {
                "FailToRunClosureDuringTransitionToCleanup".to_owned()
            },
            PhasedErrorKind::InternalDataMutexIsPoisoned => {
                "InternalDataMutexIsPoisoned".to_owned()
            },
            PhasedErrorKind::MutexTryLockFailed => "MutexTryLockFailed".to_owned(),
            PhasedErrorKind::GracefulWaitTimeout(timeout) => {
                payload_text("GracefulWaitTimeout(", duration_text(timeout))
            },
            PhasedErrorKind::GracefulWaitMutexIsPoisoned => {
                "GracefulWaitMutexIsPoisoned".to_owned()
            },
        }
    }
}

/// Puts a variant's payload between its name and the closing parenthesis.
pub(crate) fn payload_text(head: &str, payload: String) -> (text: String)
    ensures
        text@ == called_text(head@, payload@),
{
    let mut text = head.to_owned();
    text.append(payload.as_str());
    text.append(")");
    text
}

/// What the `Debug` formatting of a string writes.
pub uninterp spec fn str_debug_text(s: Seq<char>) -> Seq<char>;

/// What the `Debug` formatting of a duration writes.
pub uninterp spec fn duration_debug_text(duration: Duration) -> Seq<char>;

/// The `Debug` formatting of `str`: the string in double quotes, with its
/// special characters escaped. What it writes is a function of the string alone
/// and is named `str_debug_text` here.
#[verifier::external_body]
pub(crate) fn quoted(s: &str) -> (text: String)
    ensures
        text@ == str_debug_text(s@),
{
    format!("{:?}", s)
}

/// The `Debug` formatting of `std::time::Duration`, such as `12s` for twelve
/// seconds. What it writes is a function of the duration alone and is named
/// `duration_debug_text` here.
#[verifier::external_body]
pub(crate) fn duration_text(duration: &Duration) -> (text: String)
    ensures
        text@ == duration_debug_text(*duration),
{
    format!("{:?}", duration)
}

} // verus!
