//! What the operations of `PhasedCellAsync` do, said of their arguments and results alone.

use super::words::{is_change_refusal, is_cleanup_refusal, is_read_refusal, shows};
use crate::errors::{PhasedError, PhasedErrorKind};
use crate::guards::TokioMutexGuard;
use crate::phased_cell_async::PhasedCellAsync;
use crate::phase::{
    Phase, PHASE_CLEANUP, PHASE_READ, PHASE_READ_TO_CLEANUP, PHASE_SETUP, PHASE_SETUP_TO_CLEANUP,
    PHASE_SETUP_TO_READ,
};
use vstd::prelude::*;

verus! {

/// A new `PhasedCellAsync` is in `Setup`, holds what it was made of, and has never been read.
pub proof fn law_new_cell_async<T: Send + Sync>(data: T, cell: PhasedCellAsync<T>)
    requires
        call_ensures(PhasedCellAsync::<T>::new, (data,), cell),
    ensures
        cell@.code == PHASE_SETUP,
        cell@.slots.mutex == Some(data),
        cell@.slots.cell is None,
{
}

/// The phase of a `PhasedCellAsync` is `Setup` up to the end of a transition to `Read`, `Read`
/// in between, and `Cleanup` from the beginning of a transition there, by either method.
pub proof fn law_phase_of_cell_async<T: Send + Sync>(
    cell: &PhasedCellAsync<T>,
    exact: Phase,
    relaxed: Phase,
)
    requires
        call_ensures(PhasedCellAsync::<T>::phase, (cell,), exact),
        call_ensures(PhasedCellAsync::<T>::phase_relaxed, (cell,), relaxed),
    ensures
        relaxed == exact,
        exact is Setup <==> cell@.code == PHASE_SETUP || cell@.code == PHASE_SETUP_TO_READ,
        exact is Read <==> cell@.code == PHASE_READ,
{
}

/// `read` of a `PhasedCellAsync` gives the data exactly in `Read`.
pub proof fn law_read_cell_async<T: Send + Sync>(
    cell: &PhasedCellAsync<T>,
    result: Result<&T, PhasedError>,
)
    requires
        call_ensures(PhasedCellAsync::<T>::read, (cell,), result),
    ensures
        result is Ok <==> cell@.code == PHASE_READ && cell@.slots.cell is Some,
        result matches Ok(data) ==> cell@.slots.cell == Some(*data),
        result matches Err(e) ==> e.source is None && shows(cell@.code, e.phase),
        cell@.code != PHASE_READ ==> (result matches Err(e) && e.kind
            == PhasedErrorKind::CannotCallUnlessPhaseRead("read")),
        cell@.code == PHASE_READ && cell@.slots.cell is None ==> (result matches Err(e) && e.kind
            == PhasedErrorKind::InternalDataUnavailable),
{
}

/// `read_relaxed` of a `PhasedCellAsync` gives the data exactly in `Read`.
pub proof fn law_read_relaxed_cell_async<T: Send + Sync>(
    cell: &PhasedCellAsync<T>,
    result: Result<&T, PhasedError>,
)
    requires
        call_ensures(PhasedCellAsync::<T>::read_relaxed, (cell,), result),
    ensures
        result is Ok <==> cell@.code == PHASE_READ && cell@.slots.cell is Some,
        result matches Ok(data) ==> cell@.slots.cell == Some(*data),
        result matches Err(e) ==> e.source is None && shows(cell@.code, e.phase),
        cell@.code != PHASE_READ ==> (result matches Err(e) && e.kind
            == PhasedErrorKind::CannotCallUnlessPhaseRead("read_relaxed")),
        cell@.code == PHASE_READ && cell@.slots.cell is None ==> (result matches Err(e) && e.kind
            == PhasedErrorKind::InternalDataUnavailable),
{
}

/// A transition of a `PhasedCellAsync` to `Read` begins exactly in `Setup`, and touches nothing
/// but the phase code.
pub proof fn law_begin_read_cell_async<T: Send + Sync>(
    cell: &mut PhasedCellAsync<T>,
    result: Result<(), PhasedError>,
)
    requires
        call_ensures(PhasedCellAsync::<T>::begin_transition_to_read, (cell,), result),
    ensures
        result is Ok <==> old(cell)@.code == PHASE_SETUP,
        result is Ok ==> final(cell)@.code == PHASE_SETUP_TO_READ,
        result is Err ==> final(cell)@.code == old(cell)@.code,
        final(cell)@.slots == old(cell)@.slots,
        result matches Err(e) ==> e.source is None && shows(old(cell)@.code, e.phase)
            && is_read_refusal(
            old(cell)@.code,
            e.kind,
        ),
{
}

/// A transition of a `PhasedCellAsync` to `Cleanup` begins exactly in `Setup` and in `Read`,
/// and touches nothing but the phase code.
pub proof fn law_begin_cleanup_cell_async<T: Send + Sync>(
    cell: &mut PhasedCellAsync<T>,
    result: Result<(), PhasedError>,
)
    requires
        call_ensures(PhasedCellAsync::<T>::begin_transition_to_cleanup, (cell,), result),
    ensures
        result is Ok <==> old(cell)@.code == PHASE_SETUP || old(cell)@.code == PHASE_READ,
        result is Ok && old(cell)@.code == PHASE_SETUP
            ==> final(cell)@.code == PHASE_SETUP_TO_CLEANUP,
        result is Ok && old(cell)@.code == PHASE_READ
            ==> final(cell)@.code == PHASE_READ_TO_CLEANUP,
        result is Err ==> final(cell)@.code == old(cell)@.code,
        final(cell)@.slots == old(cell)@.slots,
        result matches Err(e) ==> e.source is None && shows(old(cell)@.code, e.phase)
            && is_cleanup_refusal(old(cell)@.code, e.kind),
{
}

/// `finish_transition_to_read` of a `PhasedCellAsync` arrives at `Read` with what the closure
/// left open for reading, exactly if the closure succeeds; otherwise the cell is in `Setup`
/// with what the closure left, and the error of the closure is the source.
pub proof fn law_finish_read_cell_async<T: Send + Sync, F: FnOnce(&mut T) -> Result<(), E>, E>(
    cell: &mut PhasedCellAsync<T>,
    f: F,
    rel: spec_fn(T, T, Result<(), E>) -> bool,
    result: Result<(), PhasedError<E>>,
)
    requires
        call_ensures(PhasedCellAsync::<T>::finish_transition_to_read::<F, E>, (cell, f), result),
        forall|d: &mut T, r: Result<(), E>| #[trigger] f.ensures((d,), r) ==> rel(*d, *final(d), r),
        old(cell)@.code == PHASE_SETUP_TO_READ,
    ensures
        old(cell)@.slots.mutex is None ==> final(cell)@.code == PHASE_SETUP
            && final(cell)@.slots == old(cell)@.slots && (result matches Err(e)
                && e.phase == Phase::Setup && e.kind
            == PhasedErrorKind::InternalDataUnavailable && e.source is None),
        old(cell)@.slots.mutex is Some ==> exists|left: T, ran: Result<(), E>|
            {
                &&& #[trigger] rel(old(cell)@.slots.mutex->0, left, ran)
                &&& ran is Ok ==> {
                    &&& (result is Ok)
                    &&& final(cell)@.code == PHASE_READ
                    &&& final(cell)@.slots.cell == Some(left)
                    &&& final(cell)@.slots.mutex == old(cell)@.slots.cell
                }
                &&& ran matches Err(source) ==> {
                    &&& (result matches Err(e) && e.phase == Phase::Setup
                        && e.kind == PhasedErrorKind::FailToRunClosureDuringTransitionToRead
                        && e.source == Some(source))
                    &&& final(cell)@.code == PHASE_SETUP
                    &&& final(cell)@.slots.mutex == Some(left)
                    &&& final(cell)@.slots.cell == old(cell)@.slots.cell
                }
            },
{
}

/// `transition_to_read_async` of a `PhasedCellAsync` arrives at `Read` with what the closure
/// left open for reading, exactly if the closure succeeds; otherwise the cell is in `Setup`
/// with what the closure left, and the error of the closure is the source.
pub proof fn law_read_transition_cell_async<T: Send + Sync, F: FnOnce(&mut T) -> Result<(), E>, E>(
    cell: &mut PhasedCellAsync<T>,
    f: F,
    rel: spec_fn(T, T, Result<(), E>) -> bool,
    result: Result<(), PhasedError<E>>,
)
    requires
        call_ensures(PhasedCellAsync::<T>::transition_to_read_async::<F, E>, (cell, f), result),
        forall|d: &mut T, r: Result<(), E>| #[trigger] f.ensures((d,), r) ==> rel(*d, *final(d), r),
    ensures
        old(cell)@.code != PHASE_SETUP ==> final(cell)@ == old(cell)@ && (result matches Err(e)
            && e.source is None && shows(old(cell)@.code, e.phase) && is_read_refusal(
            old(cell)@.code,
            e.kind,
        )),
        old(cell)@.code == PHASE_SETUP && old(cell)@.slots.mutex is None
            ==> final(cell)@.code == PHASE_SETUP
            && final(cell)@.slots == old(cell)@.slots && (result matches Err(e)
                && e.phase == Phase::Setup && e.kind
            == PhasedErrorKind::InternalDataUnavailable && e.source is None),
        old(cell)@.code == PHASE_SETUP && old(cell)@.slots.mutex is Some
            ==> exists|left: T, ran: Result<(), E>|
            {
                &&& #[trigger] rel(old(cell)@.slots.mutex->0, left, ran)
                &&& ran is Ok ==> {
                    &&& (result is Ok)
                    &&& final(cell)@.code == PHASE_READ
                    &&& final(cell)@.slots.cell == Some(left)
                    &&& final(cell)@.slots.mutex == old(cell)@.slots.cell
                }
                &&& ran matches Err(source) ==> {
                    &&& (result matches Err(e) && e.phase == Phase::Setup
                        && e.kind == PhasedErrorKind::FailToRunClosureDuringTransitionToRead
                        && e.source == Some(source))
                    &&& final(cell)@.code == PHASE_SETUP
                    &&& final(cell)@.slots.mutex == Some(left)
                    &&& final(cell)@.slots.cell == old(cell)@.slots.cell
                }
            },
{
}

/// `finish_transition_to_cleanup` of a `PhasedCellAsync` arrives at `Cleanup`, with what the
/// closure left behind the mutex, whether the closure succeeds or fails. Its error is the
/// source of the result; without one, the result is `Ok`.
pub proof fn law_finish_cleanup_cell_async<T: Send + Sync, F: FnOnce(&mut T) -> Result<(), E>, E>(
    cell: &mut PhasedCellAsync<T>,
    f: F,
    rel: spec_fn(T, T, Result<(), E>) -> bool,
    result: Result<(), PhasedError<E>>,
)
    requires
        call_ensures(PhasedCellAsync::<T>::finish_transition_to_cleanup::<F, E>, (cell, f), result),
        forall|d: &mut T, r: Result<(), E>| #[trigger] f.ensures((d,), r) ==> rel(*d, *final(d), r),
        old(cell)@.code == PHASE_SETUP_TO_CLEANUP || old(cell)@.code == PHASE_READ_TO_CLEANUP,
    ensures
        (old(cell)@.code == PHASE_SETUP_TO_CLEANUP || old(cell)@.code == PHASE_READ_TO_CLEANUP)
            ==> final(cell)@.code == PHASE_CLEANUP,
        old(cell)@.code == PHASE_SETUP_TO_CLEANUP && old(cell)@.slots.mutex is Some
            ==> exists|left: T, ran: Result<(), E>|
            {
                &&& #[trigger] rel(old(cell)@.slots.mutex->0, left, ran)
                &&& final(cell)@.slots.mutex == Some(left)
                &&& final(cell)@.slots.cell == old(cell)@.slots.cell
                &&& ran is Ok ==> result is Ok
                &&& ran matches Err(source)
                    ==> (result matches Err(e) && e.phase == Phase::Cleanup && e.kind
                    == PhasedErrorKind::FailToRunClosureDuringTransitionToCleanup
                        && e.source == Some(source))
            },
        old(cell)@.code == PHASE_READ_TO_CLEANUP && old(cell)@.slots.cell is Some
            ==> exists|left: T, ran: Result<(), E>|
            {
                &&& #[trigger] rel(old(cell)@.slots.cell->0, left, ran)
                &&& final(cell)@.slots.mutex == Some(left)
                &&& final(cell)@.slots.cell == old(cell)@.slots.mutex
                &&& ran is Ok ==> result is Ok
                &&& ran matches Err(source)
                    ==> (result matches Err(e) && e.phase == Phase::Cleanup && e.kind
                    == PhasedErrorKind::FailToRunClosureDuringTransitionToCleanup
                        && e.source == Some(source))
            },
        old(cell)@.code == PHASE_SETUP_TO_CLEANUP && old(cell)@.slots.mutex is None
            ==> final(cell)@.slots == old(cell)@.slots
            && (result matches Err(e) && e.phase == Phase::Cleanup && e.kind
            == PhasedErrorKind::InternalDataUnavailable && e.source is None),
        old(cell)@.code == PHASE_READ_TO_CLEANUP && old(cell)@.slots.cell is None
            ==> final(cell)@.slots == old(cell)@.slots
            && (result matches Err(e) && e.phase == Phase::Cleanup && e.kind
            == PhasedErrorKind::InternalDataUnavailable && e.source is None),
{
}

/// `transition_to_cleanup_async` of a `PhasedCellAsync` arrives at `Cleanup`, with what the
/// closure left behind the mutex, whether the closure succeeds or fails. Its error is the
/// source of the result; without one, the result is `Ok`.
pub proof fn law_cleanup_transition_cell_async<
    T: Send + Sync,
    F: FnOnce(&mut T) -> Result<(), E>,
    E,
>(
    cell: &mut PhasedCellAsync<T>,
    f: F,
    rel: spec_fn(T, T, Result<(), E>) -> bool,
    result: Result<(), PhasedError<E>>,
)
    requires
        call_ensures(PhasedCellAsync::<T>::transition_to_cleanup_async::<F, E>, (cell, f), result),
        forall|d: &mut T, r: Result<(), E>| #[trigger] f.ensures((d,), r) ==> rel(*d, *final(d), r),
    ensures
        !(old(cell)@.code == PHASE_SETUP || old(cell)@.code == PHASE_READ)
            ==> final(cell)@ == old(cell)@ && (result matches Err(e)
            && e.source is None && shows(old(cell)@.code, e.phase) && is_cleanup_refusal(
            old(cell)@.code,
            e.kind,
        )),
        (old(cell)@.code == PHASE_SETUP || old(cell)@.code == PHASE_READ)
            ==> final(cell)@.code == PHASE_CLEANUP,
        old(cell)@.code == PHASE_SETUP && old(cell)@.slots.mutex is Some
            ==> exists|left: T, ran: Result<(), E>|
            {
                &&& #[trigger] rel(old(cell)@.slots.mutex->0, left, ran)
                &&& final(cell)@.slots.mutex == Some(left)
                &&& final(cell)@.slots.cell == old(cell)@.slots.cell
                &&& ran is Ok ==> result is Ok
                &&& ran matches Err(source)
                    ==> (result matches Err(e) && e.phase == Phase::Cleanup && e.kind
                    == PhasedErrorKind::FailToRunClosureDuringTransitionToCleanup
                        && e.source == Some(source))
            },
        old(cell)@.code == PHASE_READ && old(cell)@.slots.cell is Some
            ==> exists|left: T, ran: Result<(), E>|
            {
                &&& #[trigger] rel(old(cell)@.slots.cell->0, left, ran)
                &&& final(cell)@.slots.mutex == Some(left)
                &&& final(cell)@.slots.cell == old(cell)@.slots.mutex
                &&& ran is Ok ==> result is Ok
                &&& ran matches Err(source)
                    ==> (result matches Err(e) && e.phase == Phase::Cleanup && e.kind
                    == PhasedErrorKind::FailToRunClosureDuringTransitionToCleanup
                        && e.source == Some(source))
            },
        old(cell)@.code == PHASE_SETUP && old(cell)@.slots.mutex is None
            ==> final(cell)@.slots == old(cell)@.slots
            && (result matches Err(e) && e.phase == Phase::Cleanup && e.kind
            == PhasedErrorKind::InternalDataUnavailable && e.source is None),
        old(cell)@.code == PHASE_READ && old(cell)@.slots.cell is None
            ==> final(cell)@.slots == old(cell)@.slots
            && (result matches Err(e) && e.phase == Phase::Cleanup && e.kind
            == PhasedErrorKind::InternalDataUnavailable && e.source is None),
{
}

/// `finish_force_to_read` of a `PhasedCellAsync` arrives at `Read` with what the closure left
/// open for reading, exactly if the closure succeeds; otherwise the cell is in `Setup` with
/// what the closure left, and the error of the closure is the source.
pub proof fn law_finish_force_to_read_cell_async<
    T: Send + Sync,
    F: FnOnce(&mut T) -> Result<(), E>,
    E,
>(
    cell: &mut PhasedCellAsync<T>,
    locked: bool,
    f: F,
    rel: spec_fn(T, T, Result<(), E>) -> bool,
    result: Result<(), PhasedError<E>>,
)
    requires
        call_ensures(PhasedCellAsync::<T>::finish_force_to_read::<F, E>, (cell, locked, f), result),
        forall|d: &mut T, r: Result<(), E>| #[trigger] f.ensures((d,), r) ==> rel(*d, *final(d), r),
        old(cell)@.code == PHASE_SETUP_TO_READ,
        locked,
    ensures
        old(cell)@.slots.mutex is None ==> final(cell)@.code == PHASE_SETUP
            && final(cell)@.slots == old(cell)@.slots && (result matches Err(e)
                && e.phase == Phase::Setup && e.kind
            == PhasedErrorKind::InternalDataUnavailable && e.source is None),
        old(cell)@.slots.mutex is Some ==> exists|left: T, ran: Result<(), E>|
            {
                &&& #[trigger] rel(old(cell)@.slots.mutex->0, left, ran)
                &&& ran is Ok ==> {
                    &&& (result is Ok)
                    &&& final(cell)@.code == PHASE_READ
                    &&& final(cell)@.slots.cell == Some(left)
                    &&& final(cell)@.slots.mutex == old(cell)@.slots.cell
                }
                &&& ran matches Err(source) ==> {
                    &&& (result matches Err(e) && e.phase == Phase::Setup
                        && e.kind == PhasedErrorKind::FailToRunClosureDuringTransitionToRead
                        && e.source == Some(source))
                    &&& final(cell)@.code == PHASE_SETUP
                    &&& final(cell)@.slots.mutex == Some(left)
                    &&& final(cell)@.slots.cell == old(cell)@.slots.cell
                }
            },
{
}

/// `force_to_read` of a `PhasedCellAsync` arrives at `Read` with what the closure left open for
/// reading, exactly if the closure succeeds; otherwise the cell is in `Setup` with what the
/// closure left, and the error of the closure is the source.
pub proof fn law_force_to_read_cell_async<T: Send + Sync, F: FnOnce(&mut T) -> Result<(), E>, E>(
    cell: &mut PhasedCellAsync<T>,
    f: F,
    rel: spec_fn(T, T, Result<(), E>) -> bool,
    result: Result<(), PhasedError<E>>,
)
    requires
        call_ensures(PhasedCellAsync::<T>::force_to_read::<F, E>, (cell, f), result),
        forall|d: &mut T, r: Result<(), E>| #[trigger] f.ensures((d,), r) ==> rel(*d, *final(d), r),
    ensures
        old(cell)@.code != PHASE_SETUP ==> final(cell)@ == old(cell)@ && (result matches Err(e)
            && e.source is None && shows(old(cell)@.code, e.phase) && is_read_refusal(
            old(cell)@.code,
            e.kind,
        )),
        old(cell)@.code == PHASE_SETUP && old(cell)@.slots.mutex is None
            ==> final(cell)@.code == PHASE_SETUP
            && final(cell)@.slots == old(cell)@.slots && (result matches Err(e)
                && e.phase == Phase::Setup && e.kind
            == PhasedErrorKind::InternalDataUnavailable && e.source is None),
        old(cell)@.code == PHASE_SETUP && old(cell)@.slots.mutex is Some
            ==> exists|left: T, ran: Result<(), E>|
            {
                &&& #[trigger] rel(old(cell)@.slots.mutex->0, left, ran)
                &&& ran is Ok ==> {
                    &&& (result is Ok)
                    &&& final(cell)@.code == PHASE_READ
                    &&& final(cell)@.slots.cell == Some(left)
                    &&& final(cell)@.slots.mutex == old(cell)@.slots.cell
                }
                &&& ran matches Err(source) ==> {
                    &&& (result matches Err(e) && e.phase == Phase::Setup
                        && e.kind == PhasedErrorKind::FailToRunClosureDuringTransitionToRead
                        && e.source == Some(source))
                    &&& final(cell)@.code == PHASE_SETUP
                    &&& final(cell)@.slots.mutex == Some(left)
                    &&& final(cell)@.slots.cell == old(cell)@.slots.cell
                }
            },
{
}

/// `finish_force_to_cleanup` of a `PhasedCellAsync` arrives at `Cleanup`, with what the closure
/// left behind the mutex, whether the closure succeeds or fails. Its error is the source of the
/// result; without one, the result is `Ok`.
pub proof fn law_finish_force_to_cleanup_cell_async<
    T: Send + Sync,
    F: FnOnce(&mut T) -> Result<(), E>,
    E,
>(
    cell: &mut PhasedCellAsync<T>,
    locked: bool,
    f: F,
    rel: spec_fn(T, T, Result<(), E>) -> bool,
    result: Result<(), PhasedError<E>>,
)
    requires
        call_ensures(
            PhasedCellAsync::<T>::finish_force_to_cleanup::<F, E>,
            (cell, locked, f),
            result,
        ),
        forall|d: &mut T, r: Result<(), E>| #[trigger] f.ensures((d,), r) ==> rel(*d, *final(d), r),
        old(cell)@.code == PHASE_SETUP_TO_CLEANUP || old(cell)@.code == PHASE_READ_TO_CLEANUP,
        locked,
    ensures
        (old(cell)@.code == PHASE_SETUP_TO_CLEANUP || old(cell)@.code == PHASE_READ_TO_CLEANUP)
            ==> final(cell)@.code == PHASE_CLEANUP,
        old(cell)@.code == PHASE_SETUP_TO_CLEANUP && old(cell)@.slots.mutex is Some
            ==> exists|left: T, ran: Result<(), E>|
            {
                &&& #[trigger] rel(old(cell)@.slots.mutex->0, left, ran)
                &&& final(cell)@.slots.mutex == Some(left)
                &&& final(cell)@.slots.cell == old(cell)@.slots.cell
                &&& ran is Ok ==> result is Ok
                &&& ran matches Err(source)
                    ==> (result matches Err(e) && e.phase == Phase::Cleanup && e.kind
                    == PhasedErrorKind::FailToRunClosureDuringTransitionToCleanup
                        && e.source == Some(source))
            },
        old(cell)@.code == PHASE_READ_TO_CLEANUP && old(cell)@.slots.cell is Some
            ==> exists|left: T, ran: Result<(), E>|
            {
                &&& #[trigger] rel(old(cell)@.slots.cell->0, left, ran)
                &&& final(cell)@.slots.mutex == Some(left)
                &&& final(cell)@.slots.cell == old(cell)@.slots.mutex
                &&& ran is Ok ==> result is Ok
                &&& ran matches Err(source)
                    ==> (result matches Err(e) && e.phase == Phase::Cleanup && e.kind
                    == PhasedErrorKind::FailToRunClosureDuringTransitionToCleanup
                        && e.source == Some(source))
            },
        old(cell)@.code == PHASE_SETUP_TO_CLEANUP && old(cell)@.slots.mutex is None
            ==> final(cell)@.slots == old(cell)@.slots
            && (result matches Err(e) && e.phase == Phase::Cleanup && e.kind
            == PhasedErrorKind::InternalDataUnavailable && e.source is None),
        old(cell)@.code == PHASE_READ_TO_CLEANUP && old(cell)@.slots.cell is None
            ==> final(cell)@.slots == old(cell)@.slots
            && (result matches Err(e) && e.phase == Phase::Cleanup && e.kind
            == PhasedErrorKind::InternalDataUnavailable && e.source is None),
{
}

/// `force_to_cleanup` of a `PhasedCellAsync` arrives at `Cleanup`, with what the closure left
/// behind the mutex, whether the closure succeeds or fails. Its error is the source of the
/// result; without one, the result is `Ok`.
pub proof fn law_force_to_cleanup_cell_async<T: Send + Sync, F: FnOnce(&mut T) -> Result<(), E>, E>(
    cell: &mut PhasedCellAsync<T>,
    f: F,
    rel: spec_fn(T, T, Result<(), E>) -> bool,
    result: Result<(), PhasedError<E>>,
)
    requires
        call_ensures(PhasedCellAsync::<T>::force_to_cleanup::<F, E>, (cell, f), result),
        forall|d: &mut T, r: Result<(), E>| #[trigger] f.ensures((d,), r) ==> rel(*d, *final(d), r),
    ensures
        !(old(cell)@.code == PHASE_SETUP || old(cell)@.code == PHASE_READ)
            ==> final(cell)@ == old(cell)@ && (result matches Err(e)
            && e.source is None && shows(old(cell)@.code, e.phase) && is_cleanup_refusal(
            old(cell)@.code,
            e.kind,
        )),
        (old(cell)@.code == PHASE_SETUP || old(cell)@.code == PHASE_READ)
            ==> final(cell)@.code == PHASE_CLEANUP,
        old(cell)@.code == PHASE_SETUP && old(cell)@.slots.mutex is Some
            ==> exists|left: T, ran: Result<(), E>|
            {
                &&& #[trigger] rel(old(cell)@.slots.mutex->0, left, ran)
                &&& final(cell)@.slots.mutex == Some(left)
                &&& final(cell)@.slots.cell == old(cell)@.slots.cell
                &&& ran is Ok ==> result is Ok
                &&& ran matches Err(source)
                    ==> (result matches Err(e) && e.phase == Phase::Cleanup && e.kind
                    == PhasedErrorKind::FailToRunClosureDuringTransitionToCleanup
                        && e.source == Some(source))
            },
        old(cell)@.code == PHASE_READ && old(cell)@.slots.cell is Some
            ==> exists|left: T, ran: Result<(), E>|
            {
                &&& #[trigger] rel(old(cell)@.slots.cell->0, left, ran)
                &&& final(cell)@.slots.mutex == Some(left)
                &&& final(cell)@.slots.cell == old(cell)@.slots.mutex
                &&& ran is Ok ==> result is Ok
                &&& ran matches Err(source)
                    ==> (result matches Err(e) && e.phase == Phase::Cleanup && e.kind
                    == PhasedErrorKind::FailToRunClosureDuringTransitionToCleanup
                        && e.source == Some(source))
            },
        old(cell)@.code == PHASE_SETUP && old(cell)@.slots.mutex is None
            ==> final(cell)@.slots == old(cell)@.slots
            && (result matches Err(e) && e.phase == Phase::Cleanup && e.kind
            == PhasedErrorKind::InternalDataUnavailable && e.source is None),
        old(cell)@.code == PHASE_READ && old(cell)@.slots.cell is None
            ==> final(cell)@.slots == old(cell)@.slots
            && (result matches Err(e) && e.phase == Phase::Cleanup && e.kind
            == PhasedErrorKind::InternalDataUnavailable && e.source is None),
{
}

/// `finish_force_to_read` that did not get the mutex leaves the data of a `PhasedCellAsync`
/// where it is, and the cell in `Setup`.
pub proof fn law_finish_force_to_read_without_mutex<
    T: Send + Sync,
    F: FnOnce(&mut T) -> Result<(), E>,
    E,
>(
    cell: &mut PhasedCellAsync<T>,
    f: F,
    result: Result<(), PhasedError<E>>,
)
    requires
        call_ensures(PhasedCellAsync::<T>::finish_force_to_read::<F, E>, (cell, false, f), result),
        old(cell)@.code == PHASE_SETUP_TO_READ,
    ensures
        final(cell)@.code == PHASE_SETUP,
        final(cell)@.slots == old(cell)@.slots,
        result matches Err(e) && e.phase == Phase::Setup
            && e.kind == PhasedErrorKind::MutexTryLockFailed
            && e.source is None,
{
}

/// `finish_force_to_cleanup` that did not get the mutex leaves the data of a `PhasedCellAsync`
/// where it is, and the cell in `Cleanup`.
pub proof fn law_finish_force_to_cleanup_without_mutex<
    T: Send + Sync,
    F: FnOnce(&mut T) -> Result<(), E>,
    E,
>(
    cell: &mut PhasedCellAsync<T>,
    f: F,
    result: Result<(), PhasedError<E>>,
)
    requires
        call_ensures(
            PhasedCellAsync::<T>::finish_force_to_cleanup::<F, E>,
            (cell, false, f),
            result,
        ),
        old(cell)@.code == PHASE_SETUP_TO_CLEANUP || old(cell)@.code == PHASE_READ_TO_CLEANUP,
    ensures
        final(cell)@.code == PHASE_CLEANUP,
        final(cell)@.slots == old(cell)@.slots,
        result matches Err(e) && e.phase == Phase::Cleanup
            && e.kind == PhasedErrorKind::MutexTryLockFailed
            && e.source is None,
{
}

/// A `PhasedCellAsync` can be locked exactly in `Setup` and in `Cleanup` and there is data to
/// lock; what is written is what the cell holds behind the mutex then.
pub proof fn law_lock_cell_async<T: Send + Sync>(
    cell: &mut PhasedCellAsync<T>,
    result: Result<TokioMutexGuard<'_, T>, PhasedError>,
)
    requires
        call_ensures(PhasedCellAsync::<T>::lock_async, (cell,), result),
        old(cell)@.code <= PHASE_SETUP_TO_CLEANUP,
    ensures
        result is Ok <==> old(cell)@.code == PHASE_SETUP && old(cell)@.slots.mutex is Some
            || old(cell)@.code
            == PHASE_CLEANUP && (old(cell)@.slots.mutex is Some || old(cell)@.slots.cell is Some),
        result matches Ok(guard) ==> {
            &&& old(cell)@.slots.mutex is Some
                ==> old(cell)@.slots.mutex == Some(*guard.inner)
                && final(cell)@.slots.cell == old(cell)@.slots.cell
            &&& old(cell)@.slots.mutex is None
                ==> old(cell)@.slots.cell == Some(*guard.inner) && final(cell)@.slots.cell is None
            &&& final(cell)@.slots.mutex == Some(*final(guard.inner))
        },
        result is Err ==> final(cell)@.slots == old(cell)@.slots,
        final(cell)@.code == old(cell)@.code,
        result matches Err(e) ==> e.source is None && shows(old(cell)@.code, e.phase),
        !(old(cell)@.code == PHASE_SETUP || old(cell)@.code == PHASE_CLEANUP)
            ==> (result matches Err(e) && is_change_refusal(
            old(cell)@.code,
            e.kind,
            "lock_async",
        )),
        (old(cell)@.code == PHASE_SETUP || old(cell)@.code == PHASE_CLEANUP)
            && old(cell)@.slots.mutex is None && !(result is Ok)
            ==> (result matches Err(e) && e.kind
            == PhasedErrorKind::InternalDataUnavailable),
{
}

/// What a `PhasedCellAsync` asks of its callers: a closure that can be called, and of one that
/// ends a transition that it is in progress.
pub proof fn law_calls_of_cell_async<T: Send + Sync, F: FnOnce(&mut T) -> Result<(), E>, E>(
    cell: &mut PhasedCellAsync<T>,
    f: F,
    locked: bool,
)
    requires
        forall|d: &mut T| #[trigger] f.requires((d,)),
    ensures
        call_requires(PhasedCellAsync::<T>::transition_to_read_async::<F, E>, (cell, f)),
        old(cell)@.code == PHASE_SETUP_TO_READ ==> call_requires(
            PhasedCellAsync::<T>::finish_transition_to_read::<F, E>,
            (cell, f),
        ),
        call_requires(PhasedCellAsync::<T>::transition_to_cleanup_async::<F, E>, (cell, f)),
        old(cell)@.code == PHASE_SETUP_TO_CLEANUP || old(cell)@.code == PHASE_READ_TO_CLEANUP
            ==> call_requires(PhasedCellAsync::<T>::finish_transition_to_cleanup::<F, E>, (cell, f)),
        call_requires(PhasedCellAsync::<T>::force_to_read::<F, E>, (cell, f)),
        call_requires(PhasedCellAsync::<T>::force_to_cleanup::<F, E>, (cell, f)),
        old(cell)@.code == PHASE_SETUP_TO_READ ==> call_requires(
            PhasedCellAsync::<T>::finish_force_to_read::<F, E>,
            (cell, locked, f),
        ),
        old(cell)@.code == PHASE_SETUP_TO_CLEANUP || old(cell)@.code == PHASE_READ_TO_CLEANUP
            ==> call_requires(PhasedCellAsync::<T>::finish_force_to_cleanup::<F, E>, (cell, locked, f)),
{
}

/// A reader of a `PhasedCellAsync` gets what the closure of the transition to `Read` left.
pub proof fn law_read_after_transition_cell_async<
    T: Send + Sync,
    F: FnOnce(&mut T) -> Result<(), E>,
    E,
>(
    cell: &mut PhasedCellAsync<T>,
    reader: &PhasedCellAsync<T>,
    f: F,
    rel: spec_fn(T, T, Result<(), E>) -> bool,
    result: Result<(), PhasedError<E>>,
    read: Result<&T, PhasedError>,
)
    requires
        call_ensures(PhasedCellAsync::<T>::transition_to_read_async::<F, E>, (cell, f), result),
        forall|d: &mut T, r: Result<(), E>| #[trigger] f.ensures((d,), r) ==> rel(*d, *final(d), r),
        call_ensures(PhasedCellAsync::<T>::read, (reader,), read),
        *final(cell) == *reader,
        old(cell)@.code == PHASE_SETUP,
        result is Ok,
        old(cell)@.slots.mutex is Some,
    ensures
        read is Ok,
        exists|ran: Result<(), E>| #[trigger] rel((old(cell)@.slots.mutex->0), *read->Ok_0, ran)
            && ran is Ok,
{
}

} // verus!
