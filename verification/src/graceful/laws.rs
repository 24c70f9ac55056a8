//! What holds of graceful cells across their operations.

use super::phased_cell::GracefulPhasedCellState;
use super::phased_cell_async::{GracefulPhasedCellAsync, GracefulPhasedCellAsyncState};
use super::phased_cell_sync::{GracefulPhasedCellSync, GracefulPhasedCellSyncState};
use super::transition::{
    caught_cleanup_settlement, graceful_cleanup_result, graceful_cleanup_settlement,
    graceful_read_settlement, read_look, ReadLook,
};
use super::wait::{lowered, max_read_count, wait_step, WaitStep};
use crate::errors::{
    error_from, error_of, PhasedError, PhasedErrorKind, METHOD_LOCK, METHOD_LOCK_ASYNC, METHOD_READ,
};
use crate::phase::{Phase, PHASE_CLEANUP, PHASE_READ, PHASE_SETUP, PHASE_SETUP_TO_READ};
use crate::phased_cell_sync::owned_lock;
use crate::slots::Slots;
use crate::transition::{changed, cleanup_entry, lock_admission, slot_admission, Lock, Work};
use std::time::Duration;
use vstd::prelude::*;

verus! {

/// A `GracefulPhasedCell` that is cleaned up from `Read` without an error had no reader left.
pub proof fn law_clean_cell_has_no_readers<T, E>(
    state: GracefulPhasedCellState<T>,
    timeout: Duration,
    ran: Result<(), E>,
)
    requires
        graceful_cleanup_result(ran, state.waited(timeout)) is Ok,
    ensures
        state.wait.counter == 0,
        ran is Ok,
{
}

/// A `GracefulPhasedCellSync` that is cleaned up from `Read` without an error had no reader
/// left.
pub proof fn law_clean_cell_sync_has_no_readers<T, E>(
    state: GracefulPhasedCellSyncState<T>,
    timeout: Duration,
    ran: Result<(), E>,
)
    requires
        graceful_cleanup_result(ran, state.waited(timeout)) is Ok,
    ensures
        state.wait.counter == 0,
        ran is Ok,
{
}

/// A `GracefulPhasedCellAsync` that is cleaned up without an error had no reader left.
pub proof fn law_clean_cell_async_has_no_readers<T, E>(
    state: GracefulPhasedCellAsyncState<T>,
    timeout: Duration,
    ran: Result<(), E>,
)
    requires
        graceful_cleanup_result(ran, state.waited(timeout)) is Ok,
    ensures
        state.wait.counter == 0,
        ran is Ok,
{
}

/// A `GracefulPhasedCellAsync` that is cleaned up from `Setup` never waits for readers.
pub proof fn law_no_wait_from_setup<T: Send + Sync>(
    cell: GracefulPhasedCellAsync<T>,
    timeout: Duration,
)
    requires
        cell.wf(),
        cell@.code == PHASE_SETUP,
    ensures
        cell@.waited(timeout) is None,
{
}

/// A well-formed `GracefulPhasedCellSync` whose mutex is not poisoned can be locked exactly in
/// `Setup` and `Cleanup`, and read exactly in `Read`.
pub proof fn law_graceful_cell_sync_opens_by_phase<T: Send + Sync>(cell: GracefulPhasedCellSync<T>)
    requires
        cell.wf(),
        !cell@.poisoned,
    ensures
        lock_admission(
            cell@.code,
            owned_lock(cell@.code, cell@.poisoned, cell@.slots),
            METHOD_LOCK,
        ) is Ok <==> cell@.code == PHASE_SETUP || cell@.code == PHASE_CLEANUP,
        slot_admission(cell@.code, cell@.slots.cell, METHOD_READ) is Ok <==> cell@.code
            == PHASE_READ,
{
}

/// A well-formed `GracefulPhasedCellAsync` can be locked exactly in `Setup` and `Cleanup`, and
/// read exactly in `Read`.
pub proof fn law_graceful_cell_async_opens_by_phase<T: Send + Sync>(
    cell: GracefulPhasedCellAsync<T>,
)
    requires
        cell.wf(),
    ensures
        lock_admission(
            cell@.code,
            Lock::Acquired { code: cell@.code, filled: cell@.slots.mutex is Some },
            METHOD_LOCK_ASYNC,
        ) is Ok <==> cell@.code == PHASE_SETUP || cell@.code == PHASE_CLEANUP,
        slot_admission(cell@.code, cell@.slots.cell, METHOD_READ) is Ok <==> cell@.code
            == PHASE_READ,
{
}

/// One who finishes reading a `GracefulPhasedCell` undoes what reading did to it.
pub proof fn law_finishing_undoes_reading<T>(state: GracefulPhasedCellState<T>)
    requires
        state.wait.counter < max_read_count(),
    ensures
        lowered(state.counted_up().wait.counter) == Some(state.wait.counter),
        state.counted_up().data == state.data,
        state.counted_up().code == state.code,
{
}

/// One who finishes reading a `GracefulPhasedCellSync` undoes what reading did to it.
pub proof fn law_finishing_undoes_reading_sync<T>(state: GracefulPhasedCellSyncState<T>)
    requires
        state.wait.counter < max_read_count(),
    ensures
        lowered(state.counted_up().wait.counter) == Some(state.wait.counter),
        state.counted_up().slots == state.slots,
        state.counted_up().code == state.code,
{
}

/// One who finishes reading a `GracefulPhasedCellAsync` undoes what reading did to it,
/// unless the count wrapped around.
pub proof fn law_finishing_undoes_reading_async<T>(state: GracefulPhasedCellAsyncState<T>)
    requires
        state.wait.counter < usize::MAX,
    ensures
        lowered(state.counted_up().wait.counter) == Some(state.wait.counter),
        state.counted_up().slots == state.slots,
        state.counted_up().code == state.code,
{
}

/// What a reader does to the count of active readers.
pub enum ReaderEvent {
    /// A reader is admitted.
    Read,
    /// A reader finishes.
    Finish,
}

/// Whether an event takes the count of active readers from `before` to `after`, as `count_up`
/// and `count_down` do.
pub open spec fn counts(before: usize, event: ReaderEvent, after: usize) -> bool {
    match event {
        ReaderEvent::Read => after == before + 1,
        ReaderEvent::Finish => match lowered(before) {
            Some(count) => after == count,
            None => after == before,
        },
    }
}

/// How many readers were admitted in the events.
pub open spec fn reads(events: Seq<ReaderEvent>) -> nat
    decreases events.len(),
{
    if events.len() == 0 {
        0
    } else {
        reads(events.drop_last()) + (if events.last() is Read {
            1nat
        } else {
            0
        })
    }
}

/// How many readers finished in the events.
pub open spec fn finishes(events: Seq<ReaderEvent>) -> nat
    decreases events.len(),
{
    if events.len() == 0 {
        0
    } else {
        finishes(events.drop_last()) + (if events.last() is Finish {
            1nat
        } else {
            0
        })
    }
}

/// As long as nobody finishes who was not admitted, the count is the number of those who
/// were admitted and have not finished, in whatever order they came and went.
pub proof fn law_count_is_active_readers(events: Seq<ReaderEvent>, history: Seq<usize>)
    requires
        history.len() == events.len() + 1,
        history[0] == 0,
        forall|k: int|
            0 <= k < events.len() ==> counts(history[k], #[trigger] events[k], history[k + 1]),
        forall|k: int| 0 <= k < events.len() && #[trigger] events[k] is Finish ==> history[k] > 0,
    ensures
        history.last() == reads(events) - finishes(events),
    decreases events.len(),
{
    if events.len() > 0 {
        let n = events.len() - 1;
        law_count_is_active_readers(events.drop_last(), history.drop_last());
        assert(counts(history[n], events[n], history[n + 1]));
    }
}

/// A wait for readers is over exactly when none is left or the time is up, and never goes
/// on beyond its limit.
pub proof fn law_wait_ends_in_time(count: usize, elapsed: u128, limit: u128)
    ensures
        wait_step(count, elapsed, limit) is Finished <==> count == 0,
        wait_step(count, elapsed, limit) is TimedOut <==> count > 0 && elapsed >= limit,
        wait_step(count, elapsed, limit) matches WaitStep::Park(nanos) ==> nanos > 0 && elapsed
            + nanos == limit,
{
}

/// As long as the mutex of the wait is sound, a reader waits exactly while a transition to
/// `Read` is in progress, and is never told that its time is up.
pub proof fn law_reader_waits_out_the_transition(code: u8)
    ensures
        read_look(code, false) == Ok::<ReadLook, PhasedError>(ReadLook::Wait) <==> code
            == PHASE_SETUP_TO_READ,
        read_look(code, false) == Ok::<ReadLook, PhasedError>(ReadLook::Open) <==> code
            == PHASE_READ,
        read_look(code, false) matches Err(e) ==> e.kind is CannotCallUnlessPhaseRead,
{
}

/// A reader that waits for a transition to `Read` gets what the closure left, if that
/// succeeds, and an error if the transition is undone.
pub proof fn law_waiting_reader_gets_what_was_left<T, E>(slots: Slots<T>, left: T, work: Work<E>)
    requires
        !(work is Panicked),
    ensures
        ({
            let settled = graceful_read_settlement(work);
            let code = changed(PHASE_SETUP_TO_READ, settled.from, settled.to);
            if work matches Work::Ran(Ok(_)) {
                &&& settled.moves
                &&& read_look(code, false) == Ok::<ReadLook, PhasedError>(ReadLook::Open)
                &&& slot_admission(code, slots.after_read(true, left).cell, METHOD_READ) == Ok::<
                    T,
                    PhasedError,
                >(left)
            } else {
                read_look(code, false) == Err::<ReadLook, PhasedError>(
                    error_of(Phase::Setup, PhasedErrorKind::CannotCallUnlessPhaseRead(METHOD_READ)),
                )
            }
        }),
{
}

/// Where both the closure and the wait for readers fail, the error is that of the closure.
pub proof fn law_closure_error_comes_first<E>(e: E, waited: Option<PhasedErrorKind>)
    ensures
        graceful_cleanup_result(Err::<(), E>(e), waited) == Err::<(), PhasedError<E>>(
            error_from(
                Phase::Cleanup,
                PhasedErrorKind::FailToRunClosureDuringTransitionToCleanup,
                e,
            ),
        ),
{
}

/// A transition to `Cleanup` of a `GracefulPhasedCell` always arrives there, after a panic of
/// its closure too.
pub proof fn law_graceful_cell_cleanup_arrives<E>(
    entered_at: u8,
    entered: u8,
    waited: Option<PhasedErrorKind>,
    work: Work<E>,
)
    requires
        cleanup_entry(entered_at) == Some(entered),
    ensures
        changed(
            entered,
            caught_cleanup_settlement(entered_at, waited, work).from,
            caught_cleanup_settlement(entered_at, waited, work).to,
        ) == PHASE_CLEANUP,
        caught_cleanup_settlement(entered_at, waited, work).outcome is Unwinds <==> work
            is Panicked,
{
}

/// A transition to `Cleanup` of a `GracefulPhasedCellSync` or a `GracefulPhasedCellAsync`
/// arrives there unless its closure panics, and then the cell is left in transition.
pub proof fn law_graceful_cleanup_arrives<E>(
    entered_at: u8,
    entered: u8,
    missing_at: u8,
    waited: Option<PhasedErrorKind>,
    work: Work<E>,
)
    requires
        cleanup_entry(entered_at) == Some(entered),
    ensures
        changed(
            entered,
            graceful_cleanup_settlement(entered_at, missing_at, waited, work).from,
            graceful_cleanup_settlement(entered_at, missing_at, waited, work).to,
        ) == (if work is Panicked {
            entered
        } else {
            PHASE_CLEANUP
        }),
{
}

/// A transition to `Read` of a `GracefulPhasedCellSync` or a `GracefulPhasedCellAsync` arrives
/// there exactly if its closure succeeds, is left in transition if it panics, and is undone
/// otherwise.
pub proof fn law_graceful_read_arrives_or_is_undone<E>(work: Work<E>)
    ensures
        changed(
            PHASE_SETUP_TO_READ,
            graceful_read_settlement(work).from,
            graceful_read_settlement(work).to,
        ) == (match work {
            Work::Ran(Ok(_)) => PHASE_READ,
            Work::Panicked => PHASE_SETUP_TO_READ,
            _ => PHASE_SETUP,
        }),
{
}

} // verus!
