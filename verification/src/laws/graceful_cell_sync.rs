//! What the operations of `GracefulPhasedCellSync` do, said of their arguments and results alone.

use super::words::{is_change_refusal, is_cleanup_refusal, is_read_refusal, shows};
use crate::errors::{PhasedError, PhasedErrorKind};
use crate::graceful::transition::ReadLook;
use crate::graceful::wait::CountDown;
use crate::guards::StdMutexGuard;
use crate::graceful::phased_cell_sync::GracefulPhasedCellSync;
use crate::phase::{
    Phase, PHASE_CLEANUP, PHASE_READ, PHASE_READ_TO_CLEANUP, PHASE_SETUP, PHASE_SETUP_TO_CLEANUP,
    PHASE_SETUP_TO_READ,
};
use crate::time::duration_nanos;
use std::time::Duration;
use vstd::prelude::*;

verus! {

/// A new `GracefulPhasedCellSync` is in `Setup`, holds what it was made of, and has never been
/// read.
pub proof fn law_new_graceful_cell_sync<T: Send + Sync>(data: T, cell: GracefulPhasedCellSync<T>)
    requires
        call_ensures(GracefulPhasedCellSync::<T>::new, (data,), cell),
    ensures
        cell@.code == PHASE_SETUP,
        cell@.slots.mutex == Some(data),
        cell@.slots.cell is None,
        !cell@.poisoned,
        cell@.wait.counter == 0,
        !cell@.wait.blocker,
        !cell@.wait.poisoned,
{
}

/// The phase of a `GracefulPhasedCellSync` is `Setup` up to the end of a transition to `Read`,
/// `Read` in between, and `Cleanup` from the beginning of a transition there, by either method.
pub proof fn law_phase_of_graceful_cell_sync<T: Send + Sync>(
    cell: &GracefulPhasedCellSync<T>,
    exact: Phase,
    relaxed: Phase,
)
    requires
        call_ensures(GracefulPhasedCellSync::<T>::phase, (cell,), exact),
        call_ensures(GracefulPhasedCellSync::<T>::phase_relaxed, (cell,), relaxed),
    ensures
        relaxed == exact,
        exact is Setup <==> cell@.code == PHASE_SETUP || cell@.code == PHASE_SETUP_TO_READ,
        exact is Read <==> cell@.code == PHASE_READ,
{
}

/// `read` of a `GracefulPhasedCellSync` gives the data exactly in `Read`, counts the reader
/// exactly if it does, and changes nothing else. One that has waited for a transition to `Read`
/// is told where the wait is poisoned.
pub proof fn law_read_graceful_cell_sync<T: Send + Sync>(
    cell: &mut GracefulPhasedCellSync<T>,
    result: Result<&T, PhasedError>,
)
    requires
        call_ensures(GracefulPhasedCellSync::<T>::read, (cell,), result),
    ensures
        result is Ok <==> old(cell)@.code == PHASE_READ && old(cell)@.slots.cell is Some,
        result matches Ok(data) ==> old(cell)@.slots.cell == Some(*data),
        result matches Err(e) ==> e.source is None && shows(old(cell)@.code, e.phase),
        old(cell)@.code == PHASE_SETUP_TO_READ ==> (result matches Err(e) && e.kind
            == PhasedErrorKind::GracefulWaitMutexIsPoisoned),
        old(cell)@.code != PHASE_READ && old(cell)@.code != PHASE_SETUP_TO_READ
            ==> (result matches Err(e) && e.kind
            == PhasedErrorKind::CannotCallUnlessPhaseRead("read")),
        old(cell)@.code == PHASE_READ && old(cell)@.slots.cell is None
            ==> (result matches Err(e) && e.kind
            == PhasedErrorKind::InternalDataUnavailable),
        final(cell)@.code == old(cell)@.code,
        final(cell)@.slots == old(cell)@.slots,
        final(cell)@.poisoned == old(cell)@.poisoned,
        final(cell)@.wait.poisoned == old(cell)@.wait.poisoned,
        final(cell)@.wait.blocker == old(cell)@.wait.blocker,
        result is Ok && old(cell)@.wait.counter < usize::MAX ==> final(cell)@.wait.counter
            == old(cell)@.wait.counter + 1,
        result is Err ==> final(cell)@.wait == old(cell)@.wait,
{
}

/// `read_relaxed` of a `GracefulPhasedCellSync` gives the data exactly in `Read`, counts the
/// reader exactly if it does, and changes nothing else.
pub proof fn law_read_relaxed_graceful_cell_sync<T: Send + Sync>(
    cell: &mut GracefulPhasedCellSync<T>,
    result: Result<&T, PhasedError>,
)
    requires
        call_ensures(GracefulPhasedCellSync::<T>::read_relaxed, (cell,), result),
    ensures
        result is Ok <==> old(cell)@.code == PHASE_READ && old(cell)@.slots.cell is Some,
        result matches Ok(data) ==> old(cell)@.slots.cell == Some(*data),
        result matches Err(e) ==> e.source is None && shows(old(cell)@.code, e.phase),
        old(cell)@.code != PHASE_READ ==> (result matches Err(e) && e.kind
            == PhasedErrorKind::CannotCallUnlessPhaseRead("read_relaxed")),
        old(cell)@.code == PHASE_READ && old(cell)@.slots.cell is None
            ==> (result matches Err(e) && e.kind
            == PhasedErrorKind::InternalDataUnavailable),
        final(cell)@.code == old(cell)@.code,
        final(cell)@.slots == old(cell)@.slots,
        final(cell)@.poisoned == old(cell)@.poisoned,
        final(cell)@.wait.poisoned == old(cell)@.wait.poisoned,
        final(cell)@.wait.blocker == old(cell)@.wait.blocker,
        result is Ok && old(cell)@.wait.counter < usize::MAX ==> final(cell)@.wait.counter
            == old(cell)@.wait.counter + 1,
        result is Err ==> final(cell)@.wait == old(cell)@.wait,
{
}

/// One who finishes reading a `GracefulPhasedCellSync` lowers the count of active readers by
/// exactly one, where there is one, and wakes one that waits to clean up exactly if it was the
/// last.
pub proof fn law_finish_reading_graceful_cell_sync<T: Send + Sync>(
    cell: &mut GracefulPhasedCellSync<T>,
    counted: CountDown,
)
    requires
        call_ensures(GracefulPhasedCellSync::<T>::finish_reading, (cell,), counted),
    ensures
        final(cell)@.code == old(cell)@.code,
        final(cell)@.slots == old(cell)@.slots,
        final(cell)@.poisoned == old(cell)@.poisoned,
        old(cell)@.wait.counter > 0 ==> final(cell)@.wait.counter == old(cell)@.wait.counter - 1,
        old(cell)@.wait.counter == 0 ==> final(cell)@ == old(cell)@,
        counted is Excessive <==> old(cell)@.wait.counter == 0,
        counted == (CountDown::Counted { wakes: true })
            <==> old(cell)@.wait.counter == 1 && old(cell)@.code == PHASE_READ_TO_CLEANUP
            && !old(cell)@.wait.poisoned,
        final(cell)@.wait.poisoned == old(cell)@.wait.poisoned,
        final(cell)@.wait.blocker
            <==> old(cell)@.wait.blocker || old(cell)@.wait.counter == 1
            && old(cell)@.code == PHASE_READ_TO_CLEANUP && !old(cell)@.wait.poisoned,
{
}

/// Reading a `GracefulPhasedCellSync` and then finishing leaves it as it was.
pub proof fn law_finishing_undoes_read_graceful_cell_sync<T: Send + Sync>(
    reading: &mut GracefulPhasedCellSync<T>,
    finishing: &mut GracefulPhasedCellSync<T>,
    result: Result<&T, PhasedError>,
    counted: CountDown,
)
    requires
        call_ensures(GracefulPhasedCellSync::<T>::read, (reading,), result),
        call_ensures(GracefulPhasedCellSync::<T>::finish_reading, (finishing,), counted),
        *final(reading) == *old(finishing),
        result is Ok,
        old(reading)@.wait.counter < usize::MAX,
    ensures
        final(finishing)@ == old(reading)@,
        counted == (CountDown::Counted { wakes: false }),
{
}

/// A transition of a `GracefulPhasedCellSync` to `Read` begins exactly in `Setup`, and touches
/// nothing but the phase code.
pub proof fn law_begin_read_graceful_cell_sync<T: Send + Sync>(
    cell: &mut GracefulPhasedCellSync<T>,
    result: Result<(), PhasedError>,
)
    requires
        call_ensures(GracefulPhasedCellSync::<T>::begin_transition_to_read, (cell,), result),
    ensures
        result is Ok <==> old(cell)@.code == PHASE_SETUP,
        result is Ok ==> final(cell)@.code == PHASE_SETUP_TO_READ,
        result is Err ==> final(cell)@.code == old(cell)@.code,
        final(cell)@.slots == old(cell)@.slots,
        final(cell)@.poisoned == old(cell)@.poisoned,
        final(cell)@.wait == old(cell)@.wait,
        result matches Err(e) ==> e.source is None && shows(old(cell)@.code, e.phase)
            && is_read_refusal(
            old(cell)@.code,
            e.kind,
        ),
{
}

/// A transition of a `GracefulPhasedCellSync` to `Cleanup` begins exactly in `Setup` and in
/// `Read`, and touches nothing but the phase code.
pub proof fn law_begin_cleanup_graceful_cell_sync<T: Send + Sync>(
    cell: &mut GracefulPhasedCellSync<T>,
    result: Result<(), PhasedError>,
)
    requires
        call_ensures(GracefulPhasedCellSync::<T>::begin_transition_to_cleanup, (cell,), result),
    ensures
        result is Ok <==> old(cell)@.code == PHASE_SETUP || old(cell)@.code == PHASE_READ,
        result is Ok && old(cell)@.code == PHASE_SETUP
            ==> final(cell)@.code == PHASE_SETUP_TO_CLEANUP,
        result is Ok && old(cell)@.code == PHASE_READ
            ==> final(cell)@.code == PHASE_READ_TO_CLEANUP,
        result is Err ==> final(cell)@.code == old(cell)@.code,
        final(cell)@.slots == old(cell)@.slots,
        final(cell)@.poisoned == old(cell)@.poisoned,
        final(cell)@.wait == old(cell)@.wait,
        result matches Err(e) ==> e.source is None && shows(old(cell)@.code, e.phase)
            && is_cleanup_refusal(old(cell)@.code, e.kind),
{
}

/// `finish_transition_to_read` of a `GracefulPhasedCellSync` arrives at `Read` with what the
/// closure left open for reading, exactly if the closure succeeds; otherwise the cell is in
/// `Setup` with what the closure left, and the error of the closure is the source.
pub proof fn law_finish_read_graceful_cell_sync<
    T: Send + Sync,
    F: FnOnce(&mut T) -> Result<(), E>,
    E,
>(
    cell: &mut GracefulPhasedCellSync<T>,
    f: F,
    rel: spec_fn(T, T, Result<(), E>) -> bool,
    result: Result<(), PhasedError<E>>,
)
    requires
        call_ensures(
            GracefulPhasedCellSync::<T>::finish_transition_to_read::<F, E>,
            (cell, f),
            result,
        ),
        forall|d: &mut T, r: Result<(), E>| #[trigger] f.ensures((d,), r) ==> rel(*d, *final(d), r),
        old(cell)@.code == PHASE_SETUP_TO_READ,
    ensures
        final(cell)@.poisoned == old(cell)@.poisoned,
        final(cell)@.wait == old(cell)@.wait,
        old(cell)@.wait.poisoned ==> (result matches Err(e) && e.phase == Phase::Setup && e.kind
            == PhasedErrorKind::GracefulWaitMutexIsPoisoned && e.source is None),
        old(cell)@.poisoned ==> final(cell)@.code == PHASE_SETUP
            && final(cell)@.slots == old(cell)@.slots
            && (old(cell)@.wait.poisoned || (result matches Err(e) && e.phase == Phase::Setup
                && e.kind
            == PhasedErrorKind::InternalDataMutexIsPoisoned && e.source is None)),
        !old(cell)@.poisoned && old(cell)@.slots.mutex is None ==> final(cell)@.code == PHASE_SETUP
            && final(cell)@.slots == old(cell)@.slots && (old(cell)@.wait.poisoned
                || (result matches Err(e) && e.phase == Phase::Setup && e.kind
            == PhasedErrorKind::InternalDataUnavailable && e.source is None)),
        !old(cell)@.poisoned && old(cell)@.slots.mutex is Some
            ==> exists|left: T, ran: Result<(), E>|
            {
                &&& #[trigger] rel(old(cell)@.slots.mutex->0, left, ran)
                &&& ran is Ok ==> {
                    &&& (old(cell)@.wait.poisoned || (result is Ok))
                    &&& final(cell)@.code == PHASE_READ
                    &&& final(cell)@.slots.cell == Some(left)
                    &&& final(cell)@.slots.mutex == old(cell)@.slots.cell
                }
                &&& ran matches Err(source) ==> {
                    &&& (old(cell)@.wait.poisoned || (result matches Err(e)
                        && e.phase == Phase::Setup
                        && e.kind == PhasedErrorKind::FailToRunClosureDuringTransitionToRead
                        && e.source == Some(source)))
                    &&& final(cell)@.code == PHASE_SETUP
                    &&& final(cell)@.slots.mutex == Some(left)
                    &&& final(cell)@.slots.cell == old(cell)@.slots.cell
                }
            },
{
}

/// `transition_to_read` of a `GracefulPhasedCellSync` arrives at `Read` with what the closure
/// left open for reading, exactly if the closure succeeds; otherwise the cell is in `Setup`
/// with what the closure left, and the error of the closure is the source.
pub proof fn law_read_transition_graceful_cell_sync<
    T: Send + Sync,
    F: FnOnce(&mut T) -> Result<(), E>,
    E,
>(
    cell: &mut GracefulPhasedCellSync<T>,
    f: F,
    rel: spec_fn(T, T, Result<(), E>) -> bool,
    result: Result<(), PhasedError<E>>,
)
    requires
        call_ensures(GracefulPhasedCellSync::<T>::transition_to_read::<F, E>, (cell, f), result),
        forall|d: &mut T, r: Result<(), E>| #[trigger] f.ensures((d,), r) ==> rel(*d, *final(d), r),
    ensures
        old(cell)@.code != PHASE_SETUP ==> final(cell)@ == old(cell)@ && (result matches Err(e)
            && e.source is None && shows(old(cell)@.code, e.phase) && is_read_refusal(
            old(cell)@.code,
            e.kind,
        )),
        final(cell)@.poisoned == old(cell)@.poisoned,
        final(cell)@.wait == old(cell)@.wait,
        old(cell)@.code == PHASE_SETUP && old(cell)@.wait.poisoned
            ==> (result matches Err(e) && e.phase == Phase::Setup && e.kind
            == PhasedErrorKind::GracefulWaitMutexIsPoisoned && e.source is None),
        old(cell)@.code == PHASE_SETUP && old(cell)@.poisoned
            ==> final(cell)@.code == PHASE_SETUP && final(cell)@.slots == old(cell)@.slots
            && (old(cell)@.wait.poisoned || (result matches Err(e) && e.phase == Phase::Setup
                && e.kind
            == PhasedErrorKind::InternalDataMutexIsPoisoned && e.source is None)),
        old(cell)@.code == PHASE_SETUP && !old(cell)@.poisoned && old(cell)@.slots.mutex is None
            ==> final(cell)@.code == PHASE_SETUP
            && final(cell)@.slots == old(cell)@.slots && (old(cell)@.wait.poisoned
                || (result matches Err(e) && e.phase == Phase::Setup && e.kind
            == PhasedErrorKind::InternalDataUnavailable && e.source is None)),
        old(cell)@.code == PHASE_SETUP && !old(cell)@.poisoned && old(cell)@.slots.mutex is Some
            ==> exists|left: T, ran: Result<(), E>|
            {
                &&& #[trigger] rel(old(cell)@.slots.mutex->0, left, ran)
                &&& ran is Ok ==> {
                    &&& (old(cell)@.wait.poisoned || (result is Ok))
                    &&& final(cell)@.code == PHASE_READ
                    &&& final(cell)@.slots.cell == Some(left)
                    &&& final(cell)@.slots.mutex == old(cell)@.slots.cell
                }
                &&& ran matches Err(source) ==> {
                    &&& (old(cell)@.wait.poisoned || (result matches Err(e)
                        && e.phase == Phase::Setup
                        && e.kind == PhasedErrorKind::FailToRunClosureDuringTransitionToRead
                        && e.source == Some(source)))
                    &&& final(cell)@.code == PHASE_SETUP
                    &&& final(cell)@.slots.mutex == Some(left)
                    &&& final(cell)@.slots.cell == old(cell)@.slots.cell
                }
            },
{
}

/// `finish_transition_to_cleanup` of a `GracefulPhasedCellSync` arrives at `Cleanup`, with what
/// the closure left behind the mutex, whether the closure succeeds or fails. Its error is the
/// source of the result; without one, the result is that of the wait.
pub proof fn law_finish_cleanup_graceful_cell_sync<
    T: Send + Sync,
    F: FnOnce(&mut T) -> Result<(), E>,
    E,
>(
    cell: &mut GracefulPhasedCellSync<T>,
    waited: Option<PhasedErrorKind>,
    f: F,
    rel: spec_fn(T, T, Result<(), E>) -> bool,
    result: Result<(), PhasedError<E>>,
)
    requires
        call_ensures(
            GracefulPhasedCellSync::<T>::finish_transition_to_cleanup::<F, E>,
            (cell, waited, f),
            result,
        ),
        forall|d: &mut T, r: Result<(), E>| #[trigger] f.ensures((d,), r) ==> rel(*d, *final(d), r),
        old(cell)@.code == PHASE_SETUP_TO_CLEANUP || old(cell)@.code == PHASE_READ_TO_CLEANUP,
    ensures
        (old(cell)@.code == PHASE_SETUP_TO_CLEANUP || old(cell)@.code == PHASE_READ_TO_CLEANUP)
            ==> final(cell)@.code == PHASE_CLEANUP,
        final(cell)@.poisoned == old(cell)@.poisoned,
        final(cell)@.wait == old(cell)@.wait,
        old(cell)@.code == PHASE_SETUP_TO_CLEANUP && !old(cell)@.poisoned
            && old(cell)@.slots.mutex is Some ==> exists|left: T, ran: Result<(), E>|
            {
                &&& #[trigger] rel(old(cell)@.slots.mutex->0, left, ran)
                &&& final(cell)@.slots.mutex == Some(left)
                &&& final(cell)@.slots.cell == old(cell)@.slots.cell
                &&& ran is Ok ==> {
                    &&& (waited is None ==> result is Ok)
                    &&& (waited matches Some(kind)
                        ==> (result matches Err(e) && e.phase == Phase::Cleanup
                        && e.kind == kind && e.source is None))
                }
                &&& ran matches Err(source)
                    ==> (result matches Err(e) && e.phase == Phase::Cleanup && e.kind
                    == PhasedErrorKind::FailToRunClosureDuringTransitionToCleanup
                        && e.source == Some(source))
            },
        old(cell)@.code == PHASE_READ_TO_CLEANUP && !old(cell)@.poisoned
            && old(cell)@.slots.cell is Some ==> exists|left: T, ran: Result<(), E>|
            {
                &&& #[trigger] rel(old(cell)@.slots.cell->0, left, ran)
                &&& final(cell)@.slots.mutex == Some(left)
                &&& final(cell)@.slots.cell == old(cell)@.slots.mutex
                &&& ran is Ok ==> {
                    &&& (waited is None ==> result is Ok)
                    &&& (waited matches Some(kind)
                        ==> (result matches Err(e) && e.phase == Phase::Cleanup
                        && e.kind == kind && e.source is None))
                }
                &&& ran matches Err(source)
                    ==> (result matches Err(e) && e.phase == Phase::Cleanup && e.kind
                    == PhasedErrorKind::FailToRunClosureDuringTransitionToCleanup
                        && e.source == Some(source))
            },
        (old(cell)@.code == PHASE_SETUP_TO_CLEANUP || old(cell)@.code == PHASE_READ_TO_CLEANUP)
            && old(cell)@.poisoned ==> final(cell)@.slots == old(cell)@.slots
            && (result matches Err(e) && e.phase
            == Phase::Cleanup && e.kind == PhasedErrorKind::InternalDataMutexIsPoisoned
                && e.source is None),
        old(cell)@.code == PHASE_SETUP_TO_CLEANUP && !old(cell)@.poisoned
            && old(cell)@.slots.mutex is None ==> final(cell)@.slots == old(cell)@.slots
            && (result matches Err(e) && e.phase == Phase::Cleanup && e.kind
            == PhasedErrorKind::InternalDataUnavailable && e.source is None),
        old(cell)@.code == PHASE_READ_TO_CLEANUP && !old(cell)@.poisoned
            && old(cell)@.slots.cell is None ==> final(cell)@.slots == old(cell)@.slots
            && (result matches Err(e) && e.phase == Phase::Setup && e.kind
            == PhasedErrorKind::InternalDataUnavailable && e.source is None),
{
}

/// `transition_to_cleanup` of a `GracefulPhasedCellSync` arrives at `Cleanup`, with what the
/// closure left behind the mutex, whether the closure succeeds or fails. Its error is the
/// source of the result; without one, the result is `Ok` exactly if the wait for the readers
/// was over, whatever the timeout.
pub proof fn law_cleanup_transition_graceful_cell_sync<
    T: Send + Sync,
    F: FnOnce(&mut T) -> Result<(), E>,
    E,
>(
    cell: &mut GracefulPhasedCellSync<T>,
    timeout: Duration,
    f: F,
    rel: spec_fn(T, T, Result<(), E>) -> bool,
    result: Result<(), PhasedError<E>>,
)
    requires
        call_ensures(
            GracefulPhasedCellSync::<T>::transition_to_cleanup::<F, E>,
            (cell, timeout, f),
            result,
        ),
        forall|d: &mut T, r: Result<(), E>| #[trigger] f.ensures((d,), r) ==> rel(*d, *final(d), r),
    ensures
        !(old(cell)@.code == PHASE_SETUP || old(cell)@.code == PHASE_READ)
            ==> final(cell)@ == old(cell)@ && (result matches Err(e)
            && e.source is None && shows(old(cell)@.code, e.phase) && is_cleanup_refusal(
            old(cell)@.code,
            e.kind,
        )),
        (old(cell)@.code == PHASE_SETUP || old(cell)@.code == PHASE_READ)
            ==> final(cell)@.code == PHASE_CLEANUP,
        final(cell)@.poisoned == old(cell)@.poisoned,
        final(cell)@.wait == old(cell)@.wait,
        old(cell)@.code == PHASE_SETUP && !old(cell)@.poisoned && old(cell)@.slots.mutex is Some
            ==> exists|left: T, ran: Result<(), E>|
            {
                &&& #[trigger] rel(old(cell)@.slots.mutex->0, left, ran)
                &&& final(cell)@.slots.mutex == Some(left)
                &&& final(cell)@.slots.cell == old(cell)@.slots.cell
                &&& ran is Ok ==> result is Ok
                &&& ran matches Err(source)
                    ==> (result matches Err(e) && e.phase == Phase::Cleanup && e.kind
                    == PhasedErrorKind::FailToRunClosureDuringTransitionToCleanup
                        && e.source == Some(source))
            },
        old(cell)@.code == PHASE_READ && !old(cell)@.poisoned && old(cell)@.slots.cell is Some
            ==> exists|left: T, ran: Result<(), E>|
            {
                &&& #[trigger] rel(old(cell)@.slots.cell->0, left, ran)
                &&& final(cell)@.slots.mutex == Some(left)
                &&& final(cell)@.slots.cell == old(cell)@.slots.mutex
                &&& ran is Ok ==> {
                    &&& (result is Ok <==> old(cell)@.wait.counter == 0
                        && !old(cell)@.wait.poisoned)
                    &&& (old(cell)@.wait.poisoned
                        ==> (result matches Err(e) && e.phase == Phase::Cleanup && e.kind
                        == PhasedErrorKind::GracefulWaitMutexIsPoisoned && e.source is None))
                    &&& (!old(cell)@.wait.poisoned && old(cell)@.wait.counter > 0
                        ==> (result matches Err(e) && e.phase == Phase::Cleanup && e.kind
                        == PhasedErrorKind::GracefulWaitTimeout(timeout) && e.source is None))
                }
                &&& ran matches Err(source)
                    ==> (result matches Err(e) && e.phase == Phase::Cleanup && e.kind
                    == PhasedErrorKind::FailToRunClosureDuringTransitionToCleanup
                        && e.source == Some(source))
            },
        (old(cell)@.code == PHASE_SETUP || old(cell)@.code == PHASE_READ) && old(cell)@.poisoned
            ==> final(cell)@.slots == old(cell)@.slots && (result matches Err(e) && e.phase
            == Phase::Cleanup && e.kind == PhasedErrorKind::InternalDataMutexIsPoisoned
                && e.source is None),
        old(cell)@.code == PHASE_SETUP && !old(cell)@.poisoned && old(cell)@.slots.mutex is None
            ==> final(cell)@.slots == old(cell)@.slots
            && (result matches Err(e) && e.phase == Phase::Cleanup && e.kind
            == PhasedErrorKind::InternalDataUnavailable && e.source is None),
        old(cell)@.code == PHASE_READ && !old(cell)@.poisoned && old(cell)@.slots.cell is None
            ==> final(cell)@.slots == old(cell)@.slots
            && (result matches Err(e) && e.phase == Phase::Setup && e.kind
            == PhasedErrorKind::InternalDataUnavailable && e.source is None),
{
}

/// A `GracefulPhasedCellSync` can be locked exactly in `Setup` and in `Cleanup`, where its
/// mutex is sound and there is data to lock; what is written is what the cell holds behind the
/// mutex then.
pub proof fn law_lock_graceful_cell_sync<T: Send + Sync>(
    cell: &mut GracefulPhasedCellSync<T>,
    result: Result<StdMutexGuard<'_, T>, PhasedError>,
)
    requires
        call_ensures(GracefulPhasedCellSync::<T>::lock, (cell,), result),
        old(cell)@.code <= PHASE_SETUP_TO_CLEANUP,
    ensures
        result is Ok <==> (old(cell)@.code == PHASE_SETUP || old(cell)@.code == PHASE_CLEANUP)
            && !old(cell)@.poisoned && old(cell)@.slots.mutex is Some,
        result matches Ok(guard) ==> old(cell)@.slots.mutex == Some(*guard.inner)
            && final(cell)@.slots.mutex == Some(
            *final(guard.inner),
        ),
        final(cell)@.slots.cell == old(cell)@.slots.cell,
        result is Err ==> final(cell)@.slots.mutex == old(cell)@.slots.mutex,
        final(cell)@.code == old(cell)@.code,
        final(cell)@.poisoned == old(cell)@.poisoned,
        final(cell)@.wait == old(cell)@.wait,
        result matches Err(e) ==> e.source is None && shows(old(cell)@.code, e.phase),
        !(old(cell)@.code == PHASE_SETUP || old(cell)@.code == PHASE_CLEANUP)
            ==> (result matches Err(e) && is_change_refusal(
            old(cell)@.code,
            e.kind,
            "lock",
        )),
        (old(cell)@.code == PHASE_SETUP || old(cell)@.code == PHASE_CLEANUP)
            && old(cell)@.poisoned ==> (result matches Err(e) && e.kind
            == PhasedErrorKind::InternalDataMutexIsPoisoned),
        (old(cell)@.code == PHASE_SETUP || old(cell)@.code == PHASE_CLEANUP)
            && !old(cell)@.poisoned && old(cell)@.slots.mutex is None
            ==> (result matches Err(e) && e.kind
            == PhasedErrorKind::InternalDataUnavailable),
{
}

/// Poisoning the mutex of a `GracefulPhasedCellSync` changes nothing else.
pub proof fn law_poison_graceful_cell_sync<T: Send + Sync>(cell: &mut GracefulPhasedCellSync<T>)
    requires
        call_ensures(GracefulPhasedCellSync::<T>::poison, (cell,), ()),
    ensures
        final(cell)@.poisoned,
        final(cell)@.code == old(cell)@.code,
        final(cell)@.slots == old(cell)@.slots,
        final(cell)@.wait == old(cell)@.wait,
{
}

/// Poisoning the mutex of the wait of a `GracefulPhasedCellSync` changes nothing else.
pub proof fn law_poison_wait_graceful_cell_sync<T: Send + Sync>(
    cell: &mut GracefulPhasedCellSync<T>,
)
    requires
        call_ensures(GracefulPhasedCellSync::<T>::poison_wait, (cell,), ()),
    ensures
        final(cell)@.wait.poisoned,
        final(cell)@.wait.counter == old(cell)@.wait.counter,
        final(cell)@.wait.blocker == old(cell)@.wait.blocker,
        final(cell)@.code == old(cell)@.code,
        final(cell)@.slots == old(cell)@.slots,
        final(cell)@.poisoned == old(cell)@.poisoned,
{
}

/// One that waits to clean up a `GracefulPhasedCellSync` goes ahead exactly if no reader is
/// active, waits on for the rest of its time as long as one is, and is told exactly then that
/// its time is up.
pub proof fn law_wait_for_cleanup_graceful_cell_sync<T: Send + Sync>(
    cell: &GracefulPhasedCellSync<T>,
    timeout: Duration,
    elapsed: u128,
    result: Result<Option<u128>, PhasedError>,
)
    requires
        call_ensures(
            GracefulPhasedCellSync::<T>::wait_for_cleanup_phase,
            (cell, timeout, elapsed),
            result,
        ),
    ensures
        result == Ok::<Option<u128>, PhasedError>(None)
            <==> !cell@.wait.poisoned && cell@.wait.counter == 0,
        result matches Ok(Some(nanos))
            ==> !cell@.wait.poisoned && cell@.wait.counter > 0 && nanos > 0 && elapsed + nanos
            == duration_nanos(timeout),
        !cell@.wait.poisoned && cell@.wait.counter > 0 && elapsed < duration_nanos(timeout)
            ==> result is Ok,
        !cell@.wait.poisoned && cell@.wait.counter > 0 && elapsed >= duration_nanos(timeout)
            ==> (result matches Err(e) && e.kind
            == PhasedErrorKind::GracefulWaitTimeout(timeout)),
        result matches Err(e) ==> e.source is None && shows(cell@.code, e.phase),
        cell@.wait.poisoned ==> (result matches Err(e) && e.kind
            == PhasedErrorKind::GracefulWaitMutexIsPoisoned),
{
}

/// A reader of a `GracefulPhasedCellSync` waits exactly as long as a transition to `Read`
/// lasts.
pub proof fn law_wait_for_read_graceful_cell_sync<T: Send + Sync>(
    cell: &GracefulPhasedCellSync<T>,
    result: Result<ReadLook, PhasedError>,
)
    requires
        call_ensures(GracefulPhasedCellSync::<T>::wait_for_read_phase, (cell,), result),
    ensures
        result == Ok::<ReadLook, PhasedError>(ReadLook::Wait)
            <==> !cell@.wait.poisoned && cell@.code == PHASE_SETUP_TO_READ,
        result == Ok::<ReadLook, PhasedError>(ReadLook::Open)
            <==> !cell@.wait.poisoned && cell@.code == PHASE_READ,
        result matches Err(e) ==> e.source is None,
        !cell@.wait.poisoned && result is Err
            ==> (result matches Err(e) && shows(cell@.code, e.phase) && e.kind
            == PhasedErrorKind::CannotCallUnlessPhaseRead("read")),
        cell@.wait.poisoned ==> (result matches Err(e) && e.phase == Phase::Setup && e.kind
            == PhasedErrorKind::GracefulWaitMutexIsPoisoned),
{
}

/// `read_or_wait` of a `GracefulPhasedCellSync` gives the data and counts the reader exactly in
/// `Read`, and tells to wait exactly while a transition to `Read` is in progress.
pub proof fn law_read_or_wait_graceful_cell_sync<T: Send + Sync>(
    cell: &mut GracefulPhasedCellSync<T>,
    result: Result<Option<&T>, PhasedError>,
)
    requires
        call_ensures(GracefulPhasedCellSync::<T>::read_or_wait, (cell,), result),
    ensures
        result matches Ok(None) <==> !old(cell)@.wait.poisoned
            && old(cell)@.code == PHASE_SETUP_TO_READ,
        result matches Ok(Some(_))
            <==> old(cell)@.code == PHASE_READ && old(cell)@.slots.cell is Some,
        result matches Ok(Some(data)) ==> old(cell)@.slots.cell == Some(*data),
        final(cell)@.code == old(cell)@.code,
        final(cell)@.slots == old(cell)@.slots,
        final(cell)@.poisoned == old(cell)@.poisoned,
        (result matches Ok(Some(_))) && old(cell)@.wait.counter < usize::MAX
            ==> final(cell)@.wait.counter
            == old(cell)@.wait.counter + 1,
        !(result matches Ok(Some(_))) ==> final(cell)@.wait == old(cell)@.wait,
        final(cell)@.wait.poisoned == old(cell)@.wait.poisoned,
        final(cell)@.wait.blocker == old(cell)@.wait.blocker,
        old(cell)@.code == PHASE_SETUP_TO_READ ==> (result matches Err(e) ==> e.kind
            == PhasedErrorKind::GracefulWaitMutexIsPoisoned),
        old(cell)@.code == PHASE_READ && old(cell)@.slots.cell is None
            ==> (result matches Err(e) && e.kind
            == PhasedErrorKind::InternalDataUnavailable),
        result matches Err(e) ==> e.source is None && shows(old(cell)@.code, e.phase),
        old(cell)@.code != PHASE_READ && old(cell)@.code != PHASE_SETUP_TO_READ
            ==> (result matches Err(e) && e.kind
            == PhasedErrorKind::CannotCallUnlessPhaseRead("read")),
{
}

/// What a `GracefulPhasedCellSync` asks of its callers: a closure that can be called, and of
/// one that ends a transition that it is in progress; of one that reads that it is not.
pub proof fn law_calls_of_graceful_cell_sync<T: Send + Sync, F: FnOnce(&mut T) -> Result<(), E>, E>(
    cell: &mut GracefulPhasedCellSync<T>,
    timeout: Duration,
    waited: Option<PhasedErrorKind>,
    f: F,
)
    requires
        forall|d: &mut T| #[trigger] f.requires((d,)),
    ensures
        call_requires(GracefulPhasedCellSync::<T>::transition_to_read::<F, E>, (cell, f)),
        old(cell)@.code == PHASE_SETUP_TO_READ ==> call_requires(
            GracefulPhasedCellSync::<T>::finish_transition_to_read::<F, E>,
            (cell, f),
        ),
        call_requires(
            GracefulPhasedCellSync::<T>::transition_to_cleanup::<F, E>,
            (cell, timeout, f),
        ),
        old(cell)@.code == PHASE_SETUP_TO_CLEANUP || old(cell)@.code == PHASE_READ_TO_CLEANUP
            ==> call_requires(GracefulPhasedCellSync::<T>::finish_transition_to_cleanup::<F, E>, (cell, waited, f)),
        old(cell)@.wait.counter < isize::MAX ==> call_requires(
            GracefulPhasedCellSync::<T>::read_relaxed,
            (cell,),
        ),
        old(cell)@.wait.counter < isize::MAX ==> call_requires(
            GracefulPhasedCellSync::<T>::read_or_wait,
            (cell,),
        ),
        old(cell)@.wait.counter < isize::MAX && (old(cell)@.code != PHASE_SETUP_TO_READ
            || old(cell)@.wait.poisoned)
                ==> call_requires(GracefulPhasedCellSync::<T>::read, (cell,)),
{
}

/// A reader of a `GracefulPhasedCellSync` gets what the closure of the transition to `Read`
/// left.
pub proof fn law_read_after_transition_graceful_cell_sync<
    T: Send + Sync,
    F: FnOnce(&mut T) -> Result<(), E>,
    E,
>(
    cell: &mut GracefulPhasedCellSync<T>,
    reader: &mut GracefulPhasedCellSync<T>,
    f: F,
    rel: spec_fn(T, T, Result<(), E>) -> bool,
    result: Result<(), PhasedError<E>>,
    read: Result<&T, PhasedError>,
)
    requires
        call_ensures(GracefulPhasedCellSync::<T>::transition_to_read::<F, E>, (cell, f), result),
        forall|d: &mut T, r: Result<(), E>| #[trigger] f.ensures((d,), r) ==> rel(*d, *final(d), r),
        call_ensures(GracefulPhasedCellSync::<T>::read, (reader,), read),
        *final(cell) == *old(reader),
        old(cell)@.code == PHASE_SETUP,
        result is Ok,
        old(cell)@.slots.mutex is Some,
    ensures
        read is Ok,
        exists|ran: Result<(), E>| #[trigger] rel((old(cell)@.slots.mutex->0), *read->Ok_0, ran)
            && ran is Ok,
{
}

} // verus!
