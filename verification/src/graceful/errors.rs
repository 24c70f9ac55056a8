//! The errors of a wait for readers and the texts that show them.

use crate::errors::{called_text, duration_debug_text, duration_text, payload_text};
use std::time::Duration;
use vstd::prelude::*;
use vstd::string::StringExecFns;

verus! {

/// The ways in which a wait for readers can fail.
#[derive(Debug, PartialEq, Eq, Clone, Copy)]
pub enum GracefulWaitErrorKind {
    /// Readers were still active after the given time.
    TimedOut(Duration),
    /// The mutex of the wait is poisoned.
    MutexIsPoisoned,
}

/// An error of a wait for readers.
#[derive(Debug)]
pub struct GracefulWaitError {
    /// The kind of error that occurred.
    pub kind: GracefulWaitErrorKind,
}

/// The text of an error kind.
pub open spec fn wait_kind_text(kind: GracefulWaitErrorKind) -> Seq<char> {
    match kind {
        GracefulWaitErrorKind::TimedOut(timeout) => called_text(
            "TimedOut("@,
            duration_debug_text(timeout),
        ),
        GracefulWaitErrorKind::MutexIsPoisoned => "MutexIsPoisoned"@,
    }
}

impl GracefulWaitErrorKind {
    /// Returns the text of this kind, as messages show it.
    pub fn to_text(&self) -> (text: String)
        ensures
            text@ == wait_kind_text(*self),
    {
        match self {
            GracefulWaitErrorKind::TimedOut(timeout) => {
                payload_text("TimedOut(", duration_text(timeout))
            },
            GracefulWaitErrorKind::MutexIsPoisoned => "MutexIsPoisoned".to_owned(),
        }
    }
}

impl GracefulWaitError {
    /// Creates an error of the given kind.
    pub fn new(kind: GracefulWaitErrorKind) -> (error: Self)
        ensures
            error == (GracefulWaitError { kind }),
    {
        Self { kind }
    }

    /// Gets the error that caused this one, of which there is none.
    pub fn source(&self) -> (source: Option<&GracefulWaitError>)
        ensures
            source is None,
    {
        None
    }

    /// Returns the text that describes this error in full to a developer.
    pub fn debug_text(&self) -> (text: String)
        ensures
            text@ == "setup_read_cleanup::graceful::GracefulWaitError { kind: "@ + wait_kind_text(
                self.kind,
            ) + " }"@,
    {
        let mut text = "setup_read_cleanup::graceful::GracefulWaitError { kind: ".to_owned();
        text.append(self.kind.to_text().as_str());
        text.append(" }");
        text
    }

    /// Returns the short text that describes this error.
    pub fn display_text(&self) -> (text: String)
        ensures
            text@ == wait_kind_text(self.kind),
    {
        self.kind.to_text()
    }
}

} // verus!
