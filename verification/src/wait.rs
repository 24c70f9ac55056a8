//! Pausing before a cleanup.

use crate::graceful::wait::{next_wait_step, wait_step, WaitStep};
use crate::time::duration_nanos;
use std::time::Duration;
use vstd::prelude::*;

verus! {

/// How to pause before a cleanup.
#[derive(Debug, PartialEq, Eq, Clone, Copy)]
pub enum Wait {
    /// Not at all.
    Zero,
    /// For a fixed time.
    Fixed(Duration),
    /// Until all readers have finished.
    Graceful {
        /// How long at most.
        timeout: Duration,
    },
}

/// What one who pauses does next.
#[derive(Debug, PartialEq, Eq, Clone, Copy)]
pub enum PauseStep {
    /// The pause is over, and gives back how it was to be made where the time was up before
    /// the readers had finished.
    Over(Result<(), Wait>),
    /// Sleeps for the given time.
    Sleep(Duration),
    /// Sleeps for a while, for at most about the given number of nanoseconds, and then looks
    /// for the readers again.
    Nap(u128),
}

/// What to do next in a pause that has lasted `elapsed` nanoseconds, with `count` active
/// readers, by one who has slept in it already or not.
pub open spec fn pause_step(wait: Wait, slept: bool, count: usize, elapsed: u128) -> PauseStep {
    match wait {
        Wait::Zero => PauseStep::Over(Ok(())),
        Wait::Fixed(time) => if slept {
            PauseStep::Over(Ok(()))
        } else {
            PauseStep::Sleep(time)
        },
        Wait::Graceful { timeout } => match wait_step(count, elapsed, duration_nanos(timeout)) {
            WaitStep::Finished => PauseStep::Over(Ok(())),
            WaitStep::TimedOut => PauseStep::Over(Err(wait)),
            WaitStep::Park(nanos) => PauseStep::Nap(nanos),
        },
    }
}

/// Decides what to do next in a pause.
pub fn next_pause_step(wait: Wait, slept: bool, count: usize, elapsed: u128) -> (step: PauseStep)
    ensures
        step == pause_step(wait, slept, count, elapsed),
{
    match wait {
        Wait::Zero => PauseStep::Over(Ok(())),
        Wait::Fixed(time) => if slept {
            PauseStep::Over(Ok(()))
        } else {
            PauseStep::Sleep(time)
        },
        Wait::Graceful { timeout } => match next_wait_step(count, elapsed, timeout.as_nanos()) {
            WaitStep::Finished => PauseStep::Over(Ok(())),
            WaitStep::TimedOut => PauseStep::Over(Err(wait)),
            WaitStep::Park(nanos) => PauseStep::Nap(nanos),
        },
    }
}

/// A pause fails exactly where it is to wait for readers, some are left, and its time is up.
pub proof fn law_pause_fails_in_time_only(wait: Wait, slept: bool, count: usize, elapsed: u128)
    ensures
        pause_step(wait, slept, count, elapsed) matches PauseStep::Over(Err(given)) ==> given
            == wait,
        pause_step(wait, slept, count, elapsed) matches PauseStep::Over(Err(_)) <==> (wait
            matches Wait::Graceful { timeout } && count > 0 && elapsed >= duration_nanos(timeout)),
{
}

} // verus!
