//! What the operations of `PhasedCellSync` do, said of their arguments and results alone.

use super::words::{is_change_refusal, is_cleanup_refusal, is_read_refusal, shows};
use crate::errors::{PhasedError, PhasedErrorKind};
use crate::guards::StdMutexGuard;
use crate::phased_cell_sync::PhasedCellSync;
use crate::phase::{
    Phase, PHASE_CLEANUP, PHASE_READ, PHASE_READ_TO_CLEANUP, PHASE_SETUP, PHASE_SETUP_TO_CLEANUP,
    PHASE_SETUP_TO_READ,
};
use vstd::prelude::*;

verus! {

/// A new `PhasedCellSync` is in `Setup`, holds what it was made of, and has never been read.
pub proof fn law_new_cell_sync<T: Send + Sync>(data: T, cell: PhasedCellSync<T>)
    requires
        call_ensures(PhasedCellSync::<T>::new, (data,), cell),
    ensures
        cell@.code == PHASE_SETUP,
        cell@.slots.mutex == Some(data),
        cell@.slots.cell is None,
        !cell@.poisoned,
{
}

/// The phase of a `PhasedCellSync` is `Setup` up to the end of a transition to `Read`, `Read`
/// in between, and `Cleanup` from the beginning of a transition there, by either method.
pub proof fn law_phase_of_cell_sync<T: Send + Sync>(
    cell: &PhasedCellSync<T>,
    exact: Phase,
    relaxed: Phase,
)
    requires
        call_ensures(PhasedCellSync::<T>::phase, (cell,), exact),
        call_ensures(PhasedCellSync::<T>::phase_relaxed, (cell,), relaxed),
    ensures
        relaxed == exact,
        exact is Setup <==> cell@.code == PHASE_SETUP || cell@.code == PHASE_SETUP_TO_READ,
        exact is Read <==> cell@.code == PHASE_READ,
{
}

/// `read` of a `PhasedCellSync` gives the data exactly in `Read`.
pub proof fn law_read_cell_sync<T: Send + Sync>(
    cell: &PhasedCellSync<T>,
    result: Result<&T, PhasedError>,
)
    requires
        call_ensures(PhasedCellSync::<T>::read, (cell,), result),
    ensures
        result is Ok <==> cell@.code == PHASE_READ && cell@.slots.cell is Some,
        result matches Ok(data) ==> cell@.slots.cell == Some(*data),
        result matches Err(e) ==> e.source is None && shows(cell@.code, e.phase),
        cell@.code != PHASE_READ ==> (result matches Err(e) && e.kind
            == PhasedErrorKind::CannotCallUnlessPhaseRead("read")),
        cell@.code == PHASE_READ && cell@.slots.cell is None ==> (result matches Err(e) && e.kind
            == PhasedErrorKind::InternalDataUnavailable),
{
}

/// `read_relaxed` of a `PhasedCellSync` gives the data exactly in `Read`.
pub proof fn law_read_relaxed_cell_sync<T: Send + Sync>(
    cell: &PhasedCellSync<T>,
    result: Result<&T, PhasedError>,
)
    requires
        call_ensures(PhasedCellSync::<T>::read_relaxed, (cell,), result),
    ensures
        result is Ok <==> cell@.code == PHASE_READ && cell@.slots.cell is Some,
        result matches Ok(data) ==> cell@.slots.cell == Some(*data),
        result matches Err(e) ==> e.source is None && shows(cell@.code, e.phase),
        cell@.code != PHASE_READ ==> (result matches Err(e) && e.kind
            == PhasedErrorKind::CannotCallUnlessPhaseRead("read_relaxed")),
        cell@.code == PHASE_READ && cell@.slots.cell is None ==> (result matches Err(e) && e.kind
            == PhasedErrorKind::InternalDataUnavailable),
{
}

/// A transition of a `PhasedCellSync` to `Read` begins exactly in `Setup`, and touches nothing
/// but the phase code.
pub proof fn law_begin_read_cell_sync<T: Send + Sync>(
    cell: &mut PhasedCellSync<T>,
    result: Result<(), PhasedError>,
)
    requires
        call_ensures(PhasedCellSync::<T>::begin_transition_to_read, (cell,), result),
    ensures
        result is Ok <==> old(cell)@.code == PHASE_SETUP,
        result is Ok ==> final(cell)@.code == PHASE_SETUP_TO_READ,
        result is Err ==> final(cell)@.code == old(cell)@.code,
        final(cell)@.slots == old(cell)@.slots,
        final(cell)@.poisoned == old(cell)@.poisoned,
        result matches Err(e) ==> e.source is None && shows(old(cell)@.code, e.phase)
            && is_read_refusal(
            old(cell)@.code,
            e.kind,
        ),
{
}

/// A transition of a `PhasedCellSync` to `Cleanup` begins exactly in `Setup` and in `Read`, and
/// touches nothing but the phase code.
pub proof fn law_begin_cleanup_cell_sync<T: Send + Sync>(
    cell: &mut PhasedCellSync<T>,
    result: Result<(), PhasedError>,
)
    requires
        call_ensures(PhasedCellSync::<T>::begin_transition_to_cleanup, (cell,), result),
    ensures
        result is Ok <==> old(cell)@.code == PHASE_SETUP || old(cell)@.code == PHASE_READ,
        result is Ok && old(cell)@.code == PHASE_SETUP
            ==> final(cell)@.code == PHASE_SETUP_TO_CLEANUP,
        result is Ok && old(cell)@.code == PHASE_READ
            ==> final(cell)@.code == PHASE_READ_TO_CLEANUP,
        result is Err ==> final(cell)@.code == old(cell)@.code,
        final(cell)@.slots == old(cell)@.slots,
        final(cell)@.poisoned == old(cell)@.poisoned,
        result matches Err(e) ==> e.source is None && shows(old(cell)@.code, e.phase)
            && is_cleanup_refusal(old(cell)@.code, e.kind),
{
}

/// `finish_transition_to_read` of a `PhasedCellSync` arrives at `Read` with what the closure
/// left open for reading, exactly if the closure succeeds; otherwise the cell is in `Setup`
/// with what the closure left, and the error of the closure is the source.
pub proof fn law_finish_read_cell_sync<T: Send + Sync, F: FnOnce(&mut T) -> Result<(), E>, E>(
    cell: &mut PhasedCellSync<T>,
    f: F,
    rel: spec_fn(T, T, Result<(), E>) -> bool,
    result: Result<(), PhasedError<E>>,
)
    requires
        call_ensures(PhasedCellSync::<T>::finish_transition_to_read::<F, E>, (cell, f), result),
        forall|d: &mut T, r: Result<(), E>| #[trigger] f.ensures((d,), r) ==> rel(*d, *final(d), r),
        old(cell)@.code == PHASE_SETUP_TO_READ,
    ensures
        final(cell)@.poisoned == old(cell)@.poisoned,
        old(cell)@.poisoned ==> final(cell)@.code == PHASE_SETUP
            && final(cell)@.slots == old(cell)@.slots
            && (result matches Err(e) && e.phase == Phase::Setup && e.kind
            == PhasedErrorKind::InternalDataMutexIsPoisoned && e.source is None),
        !old(cell)@.poisoned && old(cell)@.slots.mutex is None ==> final(cell)@.code == PHASE_SETUP
            && final(cell)@.slots == old(cell)@.slots && (result matches Err(e)
                && e.phase == Phase::Setup && e.kind
            == PhasedErrorKind::InternalDataUnavailable && e.source is None),
        !old(cell)@.poisoned && old(cell)@.slots.mutex is Some
            ==> exists|left: T, ran: Result<(), E>|
            {
                &&& #[trigger] rel(old(cell)@.slots.mutex->0, left, ran)
                &&& ran is Ok ==> {
                    &&& (result is Ok)
                    &&& final(cell)@.code == PHASE_READ
                    &&& final(cell)@.slots.cell == Some(left)
                    &&& final(cell)@.slots.mutex == old(cell)@.slots.cell
                }
                &&& ran matches Err(source) ==> {
                    &&& (result matches Err(e) && e.phase == Phase::Setup
                        && e.kind == PhasedErrorKind::FailToRunClosureDuringTransitionToRead
                        && e.source == Some(source))
                    &&& final(cell)@.code == PHASE_SETUP
                    &&& final(cell)@.slots.mutex == Some(left)
                    &&& final(cell)@.slots.cell == old(cell)@.slots.cell
                }
            },
{
}

/// `transition_to_read` of a `PhasedCellSync` arrives at `Read` with what the closure left open
/// for reading, exactly if the closure succeeds; otherwise the cell is in `Setup` with what the
/// closure left, and the error of the closure is the source.
pub proof fn law_read_transition_cell_sync<T: Send + Sync, F: FnOnce(&mut T) -> Result<(), E>, E>(
    cell: &mut PhasedCellSync<T>,
    f: F,
    rel: spec_fn(T, T, Result<(), E>) -> bool,
    result: Result<(), PhasedError<E>>,
)
    requires
        call_ensures(PhasedCellSync::<T>::transition_to_read::<F, E>, (cell, f), result),
        forall|d: &mut T, r: Result<(), E>| #[trigger] f.ensures((d,), r) ==> rel(*d, *final(d), r),
    ensures
        old(cell)@.code != PHASE_SETUP ==> final(cell)@ == old(cell)@ && (result matches Err(e)
            && e.source is None && shows(old(cell)@.code, e.phase) && is_read_refusal(
            old(cell)@.code,
            e.kind,
        )),
        final(cell)@.poisoned == old(cell)@.poisoned,
        old(cell)@.code == PHASE_SETUP && old(cell)@.poisoned
            ==> final(cell)@.code == PHASE_SETUP && final(cell)@.slots == old(cell)@.slots
            && (result matches Err(e) && e.phase == Phase::Setup && e.kind
            == PhasedErrorKind::InternalDataMutexIsPoisoned && e.source is None),
        old(cell)@.code == PHASE_SETUP && !old(cell)@.poisoned && old(cell)@.slots.mutex is None
            ==> final(cell)@.code == PHASE_SETUP
            && final(cell)@.slots == old(cell)@.slots && (result matches Err(e)
                && e.phase == Phase::Setup && e.kind
            == PhasedErrorKind::InternalDataUnavailable && e.source is None),
        old(cell)@.code == PHASE_SETUP && !old(cell)@.poisoned && old(cell)@.slots.mutex is Some
            ==> exists|left: T, ran: Result<(), E>|
            {
                &&& #[trigger] rel(old(cell)@.slots.mutex->0, left, ran)
                &&& ran is Ok ==> {
                    &&& (result is Ok)
                    &&& final(cell)@.code == PHASE_READ
                    &&& final(cell)@.slots.cell == Some(left)
                    &&& final(cell)@.slots.mutex == old(cell)@.slots.cell
                }
                &&& ran matches Err(source) ==> {
                    &&& (result matches Err(e) && e.phase == Phase::Setup
                        && e.kind == PhasedErrorKind::FailToRunClosureDuringTransitionToRead
                        && e.source == Some(source))
                    &&& final(cell)@.code == PHASE_SETUP
                    &&& final(cell)@.slots.mutex == Some(left)
                    &&& final(cell)@.slots.cell == old(cell)@.slots.cell
                }
            },
{
}

/// `finish_transition_to_cleanup` of a `PhasedCellSync` arrives at `Cleanup`, with what the
/// closure left behind the mutex, whether the closure succeeds or fails. Its error is the
/// source of the result; without one, the result is `Ok`.
pub proof fn law_finish_cleanup_cell_sync<T: Send + Sync, F: FnOnce(&mut T) -> Result<(), E>, E>(
    cell: &mut PhasedCellSync<T>,
    f: F,
    rel: spec_fn(T, T, Result<(), E>) -> bool,
    result: Result<(), PhasedError<E>>,
)
    requires
        call_ensures(PhasedCellSync::<T>::finish_transition_to_cleanup::<F, E>, (cell, f), result),
        forall|d: &mut T, r: Result<(), E>| #[trigger] f.ensures((d,), r) ==> rel(*d, *final(d), r),
        old(cell)@.code == PHASE_SETUP_TO_CLEANUP || old(cell)@.code == PHASE_READ_TO_CLEANUP,
    ensures
        (old(cell)@.code == PHASE_SETUP_TO_CLEANUP || old(cell)@.code == PHASE_READ_TO_CLEANUP)
            ==> final(cell)@.code == PHASE_CLEANUP,
        final(cell)@.poisoned == old(cell)@.poisoned,
        old(cell)@.code == PHASE_SETUP_TO_CLEANUP && !old(cell)@.poisoned
            && old(cell)@.slots.mutex is Some ==> exists|left: T, ran: Result<(), E>|
            {
                &&& #[trigger] rel(old(cell)@.slots.mutex->0, left, ran)
                &&& final(cell)@.slots.mutex == Some(left)
                &&& final(cell)@.slots.cell == old(cell)@.slots.cell
                &&& ran is Ok ==> result is Ok
                &&& ran matches Err(source)
                    ==> (result matches Err(e) && e.phase == Phase::Cleanup && e.kind
                    == PhasedErrorKind::FailToRunClosureDuringTransitionToCleanup
                        && e.source == Some(source))
            },
        old(cell)@.code == PHASE_READ_TO_CLEANUP && !old(cell)@.poisoned
            && old(cell)@.slots.cell is Some ==> exists|left: T, ran: Result<(), E>|
            {
                &&& #[trigger] rel(old(cell)@.slots.cell->0, left, ran)
                &&& final(cell)@.slots.mutex == Some(left)
                &&& final(cell)@.slots.cell == old(cell)@.slots.mutex
                &&& ran is Ok ==> result is Ok
                &&& ran matches Err(source)
                    ==> (result matches Err(e) && e.phase == Phase::Cleanup && e.kind
                    == PhasedErrorKind::FailToRunClosureDuringTransitionToCleanup
                        && e.source == Some(source))
            },
        (old(cell)@.code == PHASE_SETUP_TO_CLEANUP || old(cell)@.code == PHASE_READ_TO_CLEANUP)
            && old(cell)@.poisoned ==> final(cell)@.slots == old(cell)@.slots
            && (result matches Err(e) && e.phase
            == Phase::Cleanup && e.kind == PhasedErrorKind::InternalDataMutexIsPoisoned
                && e.source is None),
        old(cell)@.code == PHASE_SETUP_TO_CLEANUP && !old(cell)@.poisoned
            && old(cell)@.slots.mutex is None ==> final(cell)@.slots == old(cell)@.slots
            && (result matches Err(e) && e.phase == Phase::Cleanup && e.kind
            == PhasedErrorKind::InternalDataUnavailable && e.source is None),
        old(cell)@.code == PHASE_READ_TO_CLEANUP && !old(cell)@.poisoned
            && old(cell)@.slots.cell is None ==> final(cell)@.slots == old(cell)@.slots
            && (result matches Err(e) && e.phase == Phase::Cleanup && e.kind
            == PhasedErrorKind::InternalDataUnavailable && e.source is None),
{
}

/// `transition_to_cleanup` of a `PhasedCellSync` arrives at `Cleanup`, with what the closure
/// left behind the mutex, whether the closure succeeds or fails. Its error is the source of the
/// result; without one, the result is `Ok`.
pub proof fn law_cleanup_transition_cell_sync<
    T: Send + Sync,
    F: FnOnce(&mut T) -> Result<(), E>,
    E,
>(
    cell: &mut PhasedCellSync<T>,
    f: F,
    rel: spec_fn(T, T, Result<(), E>) -> bool,
    result: Result<(), PhasedError<E>>,
)
    requires
        call_ensures(PhasedCellSync::<T>::transition_to_cleanup::<F, E>, (cell, f), result),
        forall|d: &mut T, r: Result<(), E>| #[trigger] f.ensures((d,), r) ==> rel(*d, *final(d), r),
    ensures
        !(old(cell)@.code == PHASE_SETUP || old(cell)@.code == PHASE_READ)
            ==> final(cell)@ == old(cell)@ && (result matches Err(e)
            && e.source is None && shows(old(cell)@.code, e.phase) && is_cleanup_refusal(
            old(cell)@.code,
            e.kind,
        )),
        (old(cell)@.code == PHASE_SETUP || old(cell)@.code == PHASE_READ)
            ==> final(cell)@.code == PHASE_CLEANUP,
        final(cell)@.poisoned == old(cell)@.poisoned,
        old(cell)@.code == PHASE_SETUP && !old(cell)@.poisoned && old(cell)@.slots.mutex is Some
            ==> exists|left: T, ran: Result<(), E>|
            {
                &&& #[trigger] rel(old(cell)@.slots.mutex->0, left, ran)
                &&& final(cell)@.slots.mutex == Some(left)
                &&& final(cell)@.slots.cell == old(cell)@.slots.cell
                &&& ran is Ok ==> result is Ok
                &&& ran matches Err(source)
                    ==> (result matches Err(e) && e.phase == Phase::Cleanup && e.kind
                    == PhasedErrorKind::FailToRunClosureDuringTransitionToCleanup
                        && e.source == Some(source))
            },
        old(cell)@.code == PHASE_READ && !old(cell)@.poisoned && old(cell)@.slots.cell is Some
            ==> exists|left: T, ran: Result<(), E>|
            {
                &&& #[trigger] rel(old(cell)@.slots.cell->0, left, ran)
                &&& final(cell)@.slots.mutex == Some(left)
                &&& final(cell)@.slots.cell == old(cell)@.slots.mutex
                &&& ran is Ok ==> result is Ok
                &&& ran matches Err(source)
                    ==> (result matches Err(e) && e.phase == Phase::Cleanup && e.kind
                    == PhasedErrorKind::FailToRunClosureDuringTransitionToCleanup
                        && e.source == Some(source))
            },
        (old(cell)@.code == PHASE_SETUP || old(cell)@.code == PHASE_READ) && old(cell)@.poisoned
            ==> final(cell)@.slots == old(cell)@.slots && (result matches Err(e) && e.phase
            == Phase::Cleanup && e.kind == PhasedErrorKind::InternalDataMutexIsPoisoned
                && e.source is None),
        old(cell)@.code == PHASE_SETUP && !old(cell)@.poisoned && old(cell)@.slots.mutex is None
            ==> final(cell)@.slots == old(cell)@.slots
            && (result matches Err(e) && e.phase == Phase::Cleanup && e.kind
            == PhasedErrorKind::InternalDataUnavailable && e.source is None),
        old(cell)@.code == PHASE_READ && !old(cell)@.poisoned && old(cell)@.slots.cell is None
            ==> final(cell)@.slots == old(cell)@.slots
            && (result matches Err(e) && e.phase == Phase::Cleanup && e.kind
            == PhasedErrorKind::InternalDataUnavailable && e.source is None),
{
}

/// A `PhasedCellSync` can be locked exactly in `Setup` and in `Cleanup`, where its mutex is
/// sound and there is data to lock; what is written is what the cell holds behind the mutex
/// then.
pub proof fn law_lock_cell_sync<T: Send + Sync>(
    cell: &mut PhasedCellSync<T>,
    result: Result<StdMutexGuard<'_, T>, PhasedError>,
)
    requires
        call_ensures(PhasedCellSync::<T>::lock, (cell,), result),
        old(cell)@.code <= PHASE_SETUP_TO_CLEANUP,
    ensures
        result is Ok <==> (old(cell)@.code == PHASE_SETUP || old(cell)@.code == PHASE_CLEANUP)
            && !old(cell)@.poisoned && old(cell)@.slots.mutex is Some,
        result matches Ok(guard) ==> old(cell)@.slots.mutex == Some(*guard.inner)
            && final(cell)@.slots.mutex == Some(
            *final(guard.inner),
        ),
        final(cell)@.slots.cell == old(cell)@.slots.cell,
        result is Err ==> final(cell)@.slots.mutex == old(cell)@.slots.mutex,
        final(cell)@.code == old(cell)@.code,
        final(cell)@.poisoned == old(cell)@.poisoned,
        result matches Err(e) ==> e.source is None && shows(old(cell)@.code, e.phase),
        !(old(cell)@.code == PHASE_SETUP || old(cell)@.code == PHASE_CLEANUP)
            ==> (result matches Err(e) && is_change_refusal(
            old(cell)@.code,
            e.kind,
            "lock",
        )),
        (old(cell)@.code == PHASE_SETUP || old(cell)@.code == PHASE_CLEANUP)
            && old(cell)@.poisoned ==> (result matches Err(e) && e.kind
            == PhasedErrorKind::InternalDataMutexIsPoisoned),
        (old(cell)@.code == PHASE_SETUP || old(cell)@.code == PHASE_CLEANUP)
            && !old(cell)@.poisoned && old(cell)@.slots.mutex is None
            ==> (result matches Err(e) && e.kind
            == PhasedErrorKind::InternalDataUnavailable),
{
}

/// Poisoning the mutex of a `PhasedCellSync` changes nothing else.
pub proof fn law_poison_cell_sync<T: Send + Sync>(cell: &mut PhasedCellSync<T>)
    requires
        call_ensures(PhasedCellSync::<T>::poison, (cell,), ()),
    ensures
        final(cell)@.poisoned,
        final(cell)@.code == old(cell)@.code,
        final(cell)@.slots == old(cell)@.slots,
{
}

/// What a `PhasedCellSync` asks of its callers: a closure that can be called, and of one that
/// ends a transition that it is in progress.
pub proof fn law_calls_of_cell_sync<T: Send + Sync, F: FnOnce(&mut T) -> Result<(), E>, E>(
    cell: &mut PhasedCellSync<T>,
    f: F,
)
    requires
        forall|d: &mut T| #[trigger] f.requires((d,)),
    ensures
        call_requires(PhasedCellSync::<T>::transition_to_read::<F, E>, (cell, f)),
        old(cell)@.code == PHASE_SETUP_TO_READ ==> call_requires(
            PhasedCellSync::<T>::finish_transition_to_read::<F, E>,
            (cell, f),
        ),
        call_requires(PhasedCellSync::<T>::transition_to_cleanup::<F, E>, (cell, f)),
        old(cell)@.code == PHASE_SETUP_TO_CLEANUP || old(cell)@.code == PHASE_READ_TO_CLEANUP
            ==> call_requires(PhasedCellSync::<T>::finish_transition_to_cleanup::<F, E>, (cell, f)),
{
}

/// A reader of a `PhasedCellSync` gets what the closure of the transition to `Read` left.
pub proof fn law_read_after_transition_cell_sync<
    T: Send + Sync,
    F: FnOnce(&mut T) -> Result<(), E>,
    E,
>(
    cell: &mut PhasedCellSync<T>,
    reader: &PhasedCellSync<T>,
    f: F,
    rel: spec_fn(T, T, Result<(), E>) -> bool,
    result: Result<(), PhasedError<E>>,
    read: Result<&T, PhasedError>,
)
    requires
        call_ensures(PhasedCellSync::<T>::transition_to_read::<F, E>, (cell, f), result),
        forall|d: &mut T, r: Result<(), E>| #[trigger] f.ensures((d,), r) ==> rel(*d, *final(d), r),
        call_ensures(PhasedCellSync::<T>::read, (reader,), read),
        *final(cell) == *reader,
        old(cell)@.code == PHASE_SETUP,
        result is Ok,
        old(cell)@.slots.mutex is Some,
    ensures
        read is Ok,
        exists|ran: Result<(), E>| #[trigger] rel((old(cell)@.slots.mutex->0), *read->Ok_0, ran)
            && ran is Ok,
{
}

} // verus!
