//! Counting readers and waiting for them to finish.

use super::errors::{GracefulWaitError, GracefulWaitErrorKind};
use crate::bell::{Bell, Rings};
use crate::time::duration_nanos;
use std::time::Duration;
use vstd::prelude::*;

verus! {

/// How many readers can be active at a time.
pub open spec fn max_read_count() -> int {
    isize::MAX as int
}

/// What came of counting a reader out.
#[derive(Debug, PartialEq, Eq, Clone, Copy, Structural)]
pub enum CountDown {
    /// No reader was active, so there was nothing to count.
    Excessive,
    /// The reader was counted out.
    Counted {
        /// Whether those who wait for the readers are woken.
        wakes: bool,
    },
}

/// What one who waits for the readers does next.
#[derive(Debug, PartialEq, Eq, Clone, Copy, Structural)]
pub enum WaitStep {
    /// The wait is over: no reader is active.
    Finished,
    /// The wait is over: the time is up.
    TimedOut,
    /// The wait goes on, for at most the given number of nanoseconds before the
    /// next look.
    Park(u128),
}

/// What to do next in a wait that may last `limit` nanoseconds and has lasted
/// `elapsed`, with `count` active readers.
pub open spec fn wait_step(count: usize, elapsed: u128, limit: u128) -> WaitStep {
    if count == 0 {
        WaitStep::Finished
    } else if elapsed >= limit {
        WaitStep::TimedOut
    } else {
        WaitStep::Park((limit - elapsed) as u128)
    }
}

/// Decides what to do next in a wait for the readers.
pub fn next_wait_step(count: usize, elapsed: u128, limit: u128) -> (step: WaitStep)
    ensures
        step == wait_step(count, elapsed, limit),
{
    if count == 0 {
        return WaitStep::Finished;
    }
    if elapsed >= limit {
        return WaitStep::TimedOut;
    }
    WaitStep::Park(limit - elapsed)
}

/// The count without one reader, where there is one.
pub open spec fn lowered(count: usize) -> Option<usize> {
    if count == 0 {
        None
    } else {
        Some((count - 1) as usize)
    }
}

/// Counts one reader out, where there is one.
pub fn lower(count: usize) -> (new_count: Option<usize>)
    ensures
        new_count == lowered(count),
{
    if count == 0 {
        None
    } else {
        Some(count - 1)
    }
}

/// A count of active readers, and the means to wait for the last one, for threads.
///
/// Those who wait hold a mutex between two looks at the count. It is poisoned once
/// a holder of its lock has panicked.
pub struct GracefulWaitSync {
    counter: usize,
    blocker: bool,
    poisoned: bool,
}

/// The state of a `GracefulWaitSync`.
pub struct GracefulWaitSyncState {
    /// The number of active readers.
    pub counter: usize,
    /// Whether those who wait have ever been woken.
    pub blocker: bool,
    /// Whether the mutex of the wait is poisoned.
    pub poisoned: bool,
}

impl View for GracefulWaitSync {
    type V = GracefulWaitSyncState;

    closed spec fn view(&self) -> GracefulWaitSyncState {
        GracefulWaitSyncState {
            counter: self.counter,
            blocker: self.blocker,
            poisoned: self.poisoned,
        }
    }
}

impl GracefulWaitSync {
    /// Creates a new `GracefulWaitSync`.
    pub fn new() -> (wait: Self)
        ensures
            wait@ == (GracefulWaitSyncState { counter: 0, blocker: false, poisoned: false }),
    {
        Self { counter: 0, blocker: false, poisoned: false }
    }

    /// Returns the number of active readers.
    pub fn count(&self) -> (count: usize)
        ensures
            count == self@.counter,
    {
        self.counter
    }

    /// Returns whether the mutex of the wait is poisoned.
    pub fn is_poisoned(&self) -> (poisoned: bool)
        ensures
            poisoned == self@.poisoned,
    {
        self.poisoned
    }

    /// Poisons the mutex of the wait, as a panic does that unwinds past a guard of it.
    pub fn poison(&mut self)
        ensures
            final(self)@ == (GracefulWaitSyncState { poisoned: true, ..old(self)@ }),
    {
        self.poisoned = true;
    }

    /// Increments the internal counter of active readers.
    pub fn count_up(&mut self)
        requires
            old(self)@.counter < max_read_count(),
        ensures
            final(self)@ == (GracefulWaitSyncState {
                counter: (old(self)@.counter + 1) as usize,
                ..old(self)@
            }),
    {
        self.counter = self.counter + 1;
    }

    /// Decrements the internal counter of active readers.
    ///
    /// If the counter becomes zero and the provided closure `f` returns true,
    /// it notifies the waiting thread.
    pub fn count_down<F>(&mut self, f: F) -> (counted: CountDown) where F: Fn() -> bool
        requires
            old(self)@.counter == 1 && !old(self)@.poisoned ==> f.requires(()),
        ensures
            match lowered(old(self)@.counter) {
                None => counted == CountDown::Excessive && final(self)@ == old(self)@,
                Some(count) => {
                    &&& final(self)@.counter == count
                    &&& final(self)@.poisoned == old(self)@.poisoned
                    &&& if count == 0 && !old(self)@.poisoned {
                        exists|wakes: bool|
                            {
                                &&& #[trigger] f.ensures((), wakes)
                                &&& counted == (CountDown::Counted { wakes })
                                &&& final(self)@.blocker == (old(self)@.blocker || wakes)
                            }
                    } else {
                        &&& counted == (CountDown::Counted { wakes: false })
                        &&& final(self)@.blocker == old(self)@.blocker
                    }
                },
            },
    {
        match lower(self.counter) {
            None => CountDown::Excessive,
            Some(count) => {
                self.counter = count;
                if count == 0 && !self.poisoned {
                    let wakes = f();
                    if wakes {
                        self.blocker = true;
                    }
                    CountDown::Counted { wakes }
                } else {
                    CountDown::Counted { wakes: false }
                }
            },
        }
    }

    /// Looks at the count in a wait that has lasted `elapsed` nanoseconds.
    ///
    /// Returns `None` where the wait is over, and where it is not how many
    /// nanoseconds it may last until the next look.
    ///
    /// Returns an error if the wait times out or if the underlying mutex is poisoned.
    pub fn look(&self, timeout: Duration, elapsed: u128) -> (result: Result<
        Option<u128>,
        GracefulWaitError,
    >)
        ensures
            result == (if self@.poisoned {
                Err::<Option<u128>, GracefulWaitError>(
                    GracefulWaitError { kind: GracefulWaitErrorKind::MutexIsPoisoned },
                )
            } else {
                match wait_step(self@.counter, elapsed, duration_nanos(timeout)) {
                    WaitStep::Finished => Ok(None),
                    WaitStep::TimedOut => Err(
                        GracefulWaitError { kind: GracefulWaitErrorKind::TimedOut(timeout) },
                    ),
                    WaitStep::Park(nanos) => Ok(Some(nanos)),
                }
            }),
    {
        if self.poisoned {
            return Err(GracefulWaitError::new(GracefulWaitErrorKind::MutexIsPoisoned));
        }
        match next_wait_step(self.counter, elapsed, timeout.as_nanos()) {
            WaitStep::Finished => Ok(None),
            WaitStep::TimedOut => Err(
                GracefulWaitError::new(GracefulWaitErrorKind::TimedOut(timeout)),
            ),
            WaitStep::Park(nanos) => Ok(Some(nanos)),
        }
    }

    /// Waits until all active readers have finished, or until the timeout is reached.
    ///
    /// No reader can finish while the caller has this borrowed, so a wait that does
    /// not end at the first look ends when the time is up.
    ///
    /// Returns an error if the wait times out or if the underlying mutex is poisoned.
    pub fn wait_gracefully(&self, timeout: Duration) -> (result: Result<(), GracefulWaitError>)
        ensures
            result == (if self@.poisoned {
                Err::<(), GracefulWaitError>(
                    GracefulWaitError { kind: GracefulWaitErrorKind::MutexIsPoisoned },
                )
            } else if self@.counter == 0 {
                Ok(())
            } else {
                Err(GracefulWaitError { kind: GracefulWaitErrorKind::TimedOut(timeout) })
            }),
    {
        match self.look(timeout, 0) {
            Ok(None) => Ok(()),
            Ok(Some(_)) => match self.look(timeout, timeout.as_nanos()) {
                Ok(_) => Ok(()),
                Err(e) => Err(e),
            },
            Err(e) => Err(e),
        }
    }
}

/// A count of active readers, and the means to wait for the last one, for tasks.
pub struct GracefulWaitAsync {
    counter: usize,
    bell: Bell,
}

/// The state of a `GracefulWaitAsync`.
pub struct GracefulWaitAsyncState {
    /// The number of active readers.
    pub counter: usize,
    /// How often those who wait have been woken.
    pub rings: Rings,
}

impl View for GracefulWaitAsync {
    type V = GracefulWaitAsyncState;

    closed spec fn view(&self) -> GracefulWaitAsyncState {
        GracefulWaitAsyncState { counter: self.counter, rings: self.bell@ }
    }
}

impl GracefulWaitAsyncState {
    /// The state with one more active reader; the count wraps around.
    pub open spec fn counted_up(self) -> GracefulWaitAsyncState {
        GracefulWaitAsyncState {
            counter: if self.counter == usize::MAX {
                0
            } else {
                (self.counter + 1) as usize
            },
            ..self
        }
    }

    /// The state once every task that waits has been woken.
    pub open spec fn woken(self) -> GracefulWaitAsyncState {
        GracefulWaitAsyncState {
            rings: Rings { all: self.rings.all + 1, ..self.rings },
            ..self
        }
    }

    /// The state once a reader has been counted out, with `count` left, and every task that
    /// waits has been woken if `wakes`.
    pub open spec fn counted_down(self, count: usize, wakes: bool) -> GracefulWaitAsyncState {
        let counted = GracefulWaitAsyncState { counter: count, ..self };
        if wakes {
            counted.woken()
        } else {
            counted
        }
    }
}

impl GracefulWaitAsync {
    /// Creates a new `GracefulWaitAsync`.
    pub fn new() -> (wait: Self)
        ensures
            wait@ == (GracefulWaitAsyncState { counter: 0, rings: Rings { all: 0, one: 0 } }),
    {
        Self { counter: 0, bell: Bell::new() }
    }

    /// Returns the number of active readers.
    pub fn count(&self) -> (count: usize)
        ensures
            count == self@.counter,
    {
        self.counter
    }

    /// Increments the internal counter of active readers, which wraps around.
    pub fn count_up(&mut self)
        ensures
            final(self)@ == old(self)@.counted_up(),
    {
        self.counter = self.counter.wrapping_add(1);
    }

    /// Decrements the internal counter of active readers.
    ///
    /// If the counter becomes zero and the provided closure `f` returns true,
    /// it notifies the waiting tasks.
    pub fn count_down<F>(&mut self, f: F) -> (counted: CountDown) where F: Fn() -> bool
        requires
            old(self)@.counter == 1 ==> f.requires(()),
        ensures
            match lowered(old(self)@.counter) {
                None => counted == CountDown::Excessive && final(self)@ == old(self)@,
                Some(count) => if count == 0 {
                    exists|wakes: bool|
                        {
                            &&& #[trigger] f.ensures((), wakes)
                            &&& counted == (CountDown::Counted { wakes })
                            &&& final(self)@ == old(self)@.counted_down(count, wakes)
                        }
                } else {
                    &&& counted == (CountDown::Counted { wakes: false })
                    &&& final(self)@ == old(self)@.counted_down(count, false)
                },
            },
    {
        match lower(self.counter) {
            None => CountDown::Excessive,
            Some(count) => {
                self.counter = count;
                if count == 0 {
                    let wakes = f();
                    if wakes {
                        self.bell.ring_for_all();
                    }
                    CountDown::Counted { wakes }
                } else {
                    CountDown::Counted { wakes: false }
                }
            },
        }
    }

    /// Wakes every task that waits.
    pub fn wake(&mut self)
        ensures
            final(self)@ == old(self)@.woken(),
    {
        self.bell.ring_for_all();
    }

    /// Waits until all active readers have finished, or until the timeout is reached.
    ///
    /// No reader can finish while the caller has this borrowed, so a wait that does
    /// not end at the first look ends when the time is up.
    ///
    /// Returns an error if the wait times out.
    pub fn wait_gracefully_async(&self, timeout: Duration) -> (result: Result<
        (),
        GracefulWaitError,
    >)
        ensures
            result == (if self@.counter == 0 {
                Ok::<(), GracefulWaitError>(())
            } else {
                Err(GracefulWaitError { kind: GracefulWaitErrorKind::TimedOut(timeout) })
            }),
    {
        match next_wait_step(self.counter, timeout.as_nanos(), timeout.as_nanos()) {
            WaitStep::Finished => Ok(()),
            _ => Err(GracefulWaitError::new(GracefulWaitErrorKind::TimedOut(timeout))),
        }
    }
}

} // verus!
