//! The phases of a cell and the codes under which a cell stores them.

use vstd::prelude::*;

verus! {

/// Represents the current operational phase of a phased cell.
///
/// The lifecycle of a phased cell progresses through these three distinct phases:
/// 1. `Setup`: The initial phase where the data is constructed and initialized.
/// 2. `Read`: The main operational phase where the data is accessed for read-only operations.
/// 3. `Cleanup`: The final phase where the data is deconstructed and resources are released.
#[derive(Debug, PartialEq, Eq, Clone, Copy, Structural)]
pub enum Phase {
    /// The initial phase for setting up the data.
    Setup,
    /// The phase for reading the data.
    Read,
    /// The final phase for cleaning up the data.
    Cleanup,
}

/// The code of a cell that is being set up.
pub const PHASE_SETUP: u8 = 0;

/// The code of a cell that is open for reading.
pub const PHASE_READ: u8 = 1;

/// The code of a cell that is being cleaned up.
pub const PHASE_CLEANUP: u8 = 2;

/// The code of a cell on its way from `Setup` to `Read`.
pub const PHASE_SETUP_TO_READ: u8 = 3;

/// The code of a cell on its way from `Read` to `Cleanup`.
pub const PHASE_READ_TO_CLEANUP: u8 = 4;

/// The code of a cell on its way from `Setup` to `Cleanup`.
pub const PHASE_SETUP_TO_CLEANUP: u8 = 5;

/// Whether `code` is one of the six codes that a cell can be in.
pub open spec fn is_phase_code(code: u8) -> bool {
    code <= PHASE_SETUP_TO_CLEANUP
}

/// Whether `code` marks a transition that has begun and has not ended.
pub open spec fn is_in_transition(code: u8) -> bool {
    code == PHASE_SETUP_TO_READ || code == PHASE_READ_TO_CLEANUP || code == PHASE_SETUP_TO_CLEANUP
}

/// The phase that a cell with this code reports.
///
/// A cell on its way to `Read` still reports `Setup`; a cell on its way to
/// `Cleanup` already reports `Cleanup`, and so does an unknown code.
pub open spec fn phase_of(code: u8) -> Phase {
    if code == PHASE_SETUP || code == PHASE_SETUP_TO_READ {
        Phase::Setup
    } else if code == PHASE_READ {
        Phase::Read
    } else {
        Phase::Cleanup
    }
}

/// The place of a phase in the lifecycle.
pub open spec fn phase_rank(phase: Phase) -> nat {
    match phase {
        Phase::Setup => 0,
        Phase::Read => 1,
        Phase::Cleanup => 2,
    }
}

/// Tells the phase that a code stands for.
pub fn u8_to_phase(phase_code: u8) -> (phase: Phase)
    ensures
        phase == phase_of(phase_code),
{
    match phase_code {
        PHASE_SETUP => Phase::Setup,
        PHASE_READ => Phase::Read,
        PHASE_CLEANUP => Phase::Cleanup,
        PHASE_SETUP_TO_READ => Phase::Setup,
        PHASE_READ_TO_CLEANUP => Phase::Cleanup,
        PHASE_SETUP_TO_CLEANUP => Phase::Cleanup,
        _ => Phase::Cleanup,
    }
}

/// The name of a phase.
pub open spec fn phase_name(phase: Phase) -> Seq<char> {
    match phase {
        Phase::Setup => "Setup"@,
        Phase::Read => "Read"@,
        Phase::Cleanup => "Cleanup"@,
    }
}

impl Phase {
    /// Returns the name of the phase, as messages show it.
    pub fn to_text(&self) -> (text: String)
        ensures
            text@ == phase_name(*self),
    {
        match self {
            Phase::Setup => "Setup".to_owned(),
            Phase::Read => "Read".to_owned(),
            Phase::Cleanup => "Cleanup".to_owned(),
        }
    }
}

} // verus!
