//! What the operations of `PhasedCell` do, said of their arguments and results alone.

use super::words::{is_change_refusal, is_cleanup_refusal, is_read_refusal, shows};
use crate::errors::{PhasedError, PhasedErrorKind};
use crate::phased_cell::PhasedCell;
use crate::phase::{
    Phase, PHASE_CLEANUP, PHASE_READ, PHASE_READ_TO_CLEANUP, PHASE_SETUP, PHASE_SETUP_TO_CLEANUP,
    PHASE_SETUP_TO_READ,
};
use vstd::prelude::*;

verus! {

/// A new `PhasedCell` is in `Setup`, holds what it was made of, and has never been read.
pub proof fn law_new_cell<T>(data: T, cell: PhasedCell<T>)
    requires
        call_ensures(PhasedCell::<T>::new, (data,), cell),
    ensures
        cell@.code == PHASE_SETUP,
        cell@.data == data,
{
}

/// The phase of a `PhasedCell` is `Setup` up to the end of a transition to `Read`, `Read` in
/// between, and `Cleanup` from the beginning of a transition there, by either method.
pub proof fn law_phase_of_cell<T>(cell: &PhasedCell<T>, exact: Phase, relaxed: Phase)
    requires
        call_ensures(PhasedCell::<T>::phase, (cell,), exact),
        call_ensures(PhasedCell::<T>::phase_relaxed, (cell,), relaxed),
    ensures
        relaxed == exact,
        exact is Setup <==> cell@.code == PHASE_SETUP || cell@.code == PHASE_SETUP_TO_READ,
        exact is Read <==> cell@.code == PHASE_READ,
{
}

/// `read` of a `PhasedCell` gives the data exactly in `Read`.
pub proof fn law_read_cell<T>(cell: &PhasedCell<T>, result: Result<&T, PhasedError>)
    requires
        call_ensures(PhasedCell::<T>::read, (cell,), result),
    ensures
        result is Ok <==> cell@.code == PHASE_READ,
        result matches Ok(data) ==> *data == cell@.data,
        result matches Err(e) ==> e.source is None && shows(cell@.code, e.phase),
        cell@.code != PHASE_READ ==> (result matches Err(e) && e.kind
            == PhasedErrorKind::CannotCallUnlessPhaseRead("read")),
{
}

/// `read_relaxed` of a `PhasedCell` gives the data exactly in `Read`.
pub proof fn law_read_relaxed_cell<T>(cell: &PhasedCell<T>, result: Result<&T, PhasedError>)
    requires
        call_ensures(PhasedCell::<T>::read_relaxed, (cell,), result),
    ensures
        result is Ok <==> cell@.code == PHASE_READ,
        result matches Ok(data) ==> *data == cell@.data,
        result matches Err(e) ==> e.source is None && shows(cell@.code, e.phase),
        cell@.code != PHASE_READ ==> (result matches Err(e) && e.kind
            == PhasedErrorKind::CannotCallUnlessPhaseRead("read_relaxed")),
{
}

/// A transition of a `PhasedCell` to `Read` begins exactly in `Setup`, and touches nothing but
/// the phase code.
pub proof fn law_begin_read_cell<T>(cell: &mut PhasedCell<T>, result: Result<(), PhasedError>)
    requires
        call_ensures(PhasedCell::<T>::begin_transition_to_read, (cell,), result),
    ensures
        result is Ok <==> old(cell)@.code == PHASE_SETUP,
        result is Ok ==> final(cell)@.code == PHASE_SETUP_TO_READ,
        result is Err ==> final(cell)@.code == old(cell)@.code,
        final(cell)@.data == old(cell)@.data,
        result matches Err(e) ==> e.source is None && shows(old(cell)@.code, e.phase)
            && is_read_refusal(
            old(cell)@.code,
            e.kind,
        ),
{
}

/// A transition of a `PhasedCell` to `Cleanup` begins exactly in `Setup` and in `Read`, and
/// touches nothing but the phase code.
pub proof fn law_begin_cleanup_cell<T>(cell: &mut PhasedCell<T>, result: Result<(), PhasedError>)
    requires
        call_ensures(PhasedCell::<T>::begin_transition_to_cleanup, (cell,), result),
    ensures
        result is Ok <==> old(cell)@.code == PHASE_SETUP || old(cell)@.code == PHASE_READ,
        result is Ok && old(cell)@.code == PHASE_SETUP
            ==> final(cell)@.code == PHASE_SETUP_TO_CLEANUP,
        result is Ok && old(cell)@.code == PHASE_READ
            ==> final(cell)@.code == PHASE_READ_TO_CLEANUP,
        result is Err ==> final(cell)@.code == old(cell)@.code,
        final(cell)@.data == old(cell)@.data,
        result matches Err(e) ==> e.source is None && shows(old(cell)@.code, e.phase)
            && is_cleanup_refusal(old(cell)@.code, e.kind),
{
}

/// `finish_transition_to_read` of a `PhasedCell` arrives at `Read` with what the closure left,
/// exactly if the closure succeeds; otherwise the cell is in `Setup` with what the closure
/// left, and the error of the closure is the source.
pub proof fn law_finish_read_cell<T, F: FnOnce(&mut T) -> Result<(), E>, E>(
    cell: &mut PhasedCell<T>,
    f: F,
    rel: spec_fn(T, T, Result<(), E>) -> bool,
    result: Result<(), PhasedError<E>>,
)
    requires
        call_ensures(PhasedCell::<T>::finish_transition_to_read::<F, E>, (cell, f), result),
        forall|d: &mut T, r: Result<(), E>| #[trigger] f.ensures((d,), r) ==> rel(*d, *final(d), r),
        old(cell)@.code == PHASE_SETUP_TO_READ,
    ensures
        exists|left: T, ran: Result<(), E>|
            {
                &&& #[trigger] rel(old(cell)@.data, left, ran)
                &&& ran is Ok ==> {
                    &&& (result is Ok)
                    &&& final(cell)@.code == PHASE_READ
                    &&& final(cell)@.data == left
                }
                &&& ran matches Err(source) ==> {
                    &&& (result matches Err(e) && e.phase == Phase::Setup
                        && e.kind == PhasedErrorKind::FailToRunClosureDuringTransitionToRead
                        && e.source == Some(source))
                    &&& final(cell)@.code == PHASE_SETUP
                    &&& final(cell)@.data == left
                }
            },
{
}

/// `transition_to_read` of a `PhasedCell` arrives at `Read` with what the closure left, exactly
/// if the closure succeeds; otherwise the cell is in `Setup` with what the closure left, and
/// the error of the closure is the source.
pub proof fn law_read_transition_cell<T, F: FnOnce(&mut T) -> Result<(), E>, E>(
    cell: &mut PhasedCell<T>,
    f: F,
    rel: spec_fn(T, T, Result<(), E>) -> bool,
    result: Result<(), PhasedError<E>>,
)
    requires
        call_ensures(PhasedCell::<T>::transition_to_read::<F, E>, (cell, f), result),
        forall|d: &mut T, r: Result<(), E>| #[trigger] f.ensures((d,), r) ==> rel(*d, *final(d), r),
    ensures
        old(cell)@.code != PHASE_SETUP ==> final(cell)@ == old(cell)@ && (result matches Err(e)
            && e.source is None && shows(old(cell)@.code, e.phase) && is_read_refusal(
            old(cell)@.code,
            e.kind,
        )),
        old(cell)@.code == PHASE_SETUP ==> exists|left: T, ran: Result<(), E>|
            {
                &&& #[trigger] rel(old(cell)@.data, left, ran)
                &&& ran is Ok ==> {
                    &&& (result is Ok)
                    &&& final(cell)@.code == PHASE_READ
                    &&& final(cell)@.data == left
                }
                &&& ran matches Err(source) ==> {
                    &&& (result matches Err(e) && e.phase == Phase::Setup
                        && e.kind == PhasedErrorKind::FailToRunClosureDuringTransitionToRead
                        && e.source == Some(source))
                    &&& final(cell)@.code == PHASE_SETUP
                    &&& final(cell)@.data == left
                }
            },
{
}

/// `finish_transition_to_cleanup` of a `PhasedCell` arrives at `Cleanup`, with what the closure
/// left, whether the closure succeeds or fails. Its error is the source of the result; without
/// one, the result is `Ok`.
pub proof fn law_finish_cleanup_cell<T, F: FnOnce(&mut T) -> Result<(), E>, E>(
    cell: &mut PhasedCell<T>,
    f: F,
    rel: spec_fn(T, T, Result<(), E>) -> bool,
    result: Result<(), PhasedError<E>>,
)
    requires
        call_ensures(PhasedCell::<T>::finish_transition_to_cleanup::<F, E>, (cell, f), result),
        forall|d: &mut T, r: Result<(), E>| #[trigger] f.ensures((d,), r) ==> rel(*d, *final(d), r),
        old(cell)@.code == PHASE_SETUP_TO_CLEANUP || old(cell)@.code == PHASE_READ_TO_CLEANUP,
    ensures
        (old(cell)@.code == PHASE_SETUP_TO_CLEANUP || old(cell)@.code == PHASE_READ_TO_CLEANUP)
            ==> final(cell)@.code == PHASE_CLEANUP,
        old(cell)@.code == PHASE_SETUP_TO_CLEANUP ==> exists|left: T, ran: Result<(), E>|
            {
                &&& #[trigger] rel(old(cell)@.data, left, ran)
                &&& final(cell)@.data == left
                &&& ran is Ok ==> result is Ok
                &&& ran matches Err(source)
                    ==> (result matches Err(e) && e.phase == Phase::Cleanup && e.kind
                    == PhasedErrorKind::FailToRunClosureDuringTransitionToCleanup
                        && e.source == Some(source))
            },
        old(cell)@.code == PHASE_READ_TO_CLEANUP ==> exists|left: T, ran: Result<(), E>|
            {
                &&& #[trigger] rel(old(cell)@.data, left, ran)
                &&& final(cell)@.data == left
                &&& ran is Ok ==> result is Ok
                &&& ran matches Err(source)
                    ==> (result matches Err(e) && e.phase == Phase::Cleanup && e.kind
                    == PhasedErrorKind::FailToRunClosureDuringTransitionToCleanup
                        && e.source == Some(source))
            },
{
}

/// `transition_to_cleanup` of a `PhasedCell` arrives at `Cleanup`, with what the closure left,
/// whether the closure succeeds or fails. Its error is the source of the result; without one,
/// the result is `Ok`.
pub proof fn law_cleanup_transition_cell<T, F: FnOnce(&mut T) -> Result<(), E>, E>(
    cell: &mut PhasedCell<T>,
    f: F,
    rel: spec_fn(T, T, Result<(), E>) -> bool,
    result: Result<(), PhasedError<E>>,
)
    requires
        call_ensures(PhasedCell::<T>::transition_to_cleanup::<F, E>, (cell, f), result),
        forall|d: &mut T, r: Result<(), E>| #[trigger] f.ensures((d,), r) ==> rel(*d, *final(d), r),
    ensures
        !(old(cell)@.code == PHASE_SETUP || old(cell)@.code == PHASE_READ)
            ==> final(cell)@ == old(cell)@ && (result matches Err(e)
            && e.source is None && shows(old(cell)@.code, e.phase) && is_cleanup_refusal(
            old(cell)@.code,
            e.kind,
        )),
        (old(cell)@.code == PHASE_SETUP || old(cell)@.code == PHASE_READ)
            ==> final(cell)@.code == PHASE_CLEANUP,
        old(cell)@.code == PHASE_SETUP ==> exists|left: T, ran: Result<(), E>|
            {
                &&& #[trigger] rel(old(cell)@.data, left, ran)
                &&& final(cell)@.data == left
                &&& ran is Ok ==> result is Ok
                &&& ran matches Err(source)
                    ==> (result matches Err(e) && e.phase == Phase::Cleanup && e.kind
                    == PhasedErrorKind::FailToRunClosureDuringTransitionToCleanup
                        && e.source == Some(source))
            },
        old(cell)@.code == PHASE_READ ==> exists|left: T, ran: Result<(), E>|
            {
                &&& #[trigger] rel(old(cell)@.data, left, ran)
                &&& final(cell)@.data == left
                &&& ran is Ok ==> result is Ok
                &&& ran matches Err(source)
                    ==> (result matches Err(e) && e.phase == Phase::Cleanup && e.kind
                    == PhasedErrorKind::FailToRunClosureDuringTransitionToCleanup
                        && e.source == Some(source))
            },
{
}

/// The data of a `PhasedCell` can be changed exactly in `Setup` and in `Cleanup`, and what is
/// written is what the cell holds then.
pub proof fn law_get_mut_cell<T>(cell: &mut PhasedCell<T>, result: Result<&mut T, PhasedError>)
    requires
        call_ensures(PhasedCell::<T>::get_mut_unlocked, (cell,), result),
        old(cell)@.code <= PHASE_SETUP_TO_CLEANUP,
    ensures
        result is Ok <==> old(cell)@.code == PHASE_SETUP || old(cell)@.code == PHASE_CLEANUP,
        result matches Ok(data) ==> *data == old(cell)@.data && final(cell)@.data == *final(data),
        result is Err ==> final(cell)@ == old(cell)@,
        final(cell)@.code == old(cell)@.code,
        result matches Err(e) ==> e.source is None && shows(old(cell)@.code, e.phase)
            && is_change_refusal(
            old(cell)@.code,
            e.kind,
            "get_mut_unlocked",
        ),
{
}

/// What a `PhasedCell` asks of its callers: a closure that can be called, and of one that ends
/// a transition that it is in progress.
pub proof fn law_calls_of_cell<T, F: FnOnce(&mut T) -> Result<(), E>, E>(
    cell: &mut PhasedCell<T>,
    f: F,
)
    requires
        forall|d: &mut T| #[trigger] f.requires((d,)),
    ensures
        call_requires(PhasedCell::<T>::transition_to_read::<F, E>, (cell, f)),
        old(cell)@.code == PHASE_SETUP_TO_READ ==> call_requires(
            PhasedCell::<T>::finish_transition_to_read::<F, E>,
            (cell, f),
        ),
        call_requires(PhasedCell::<T>::transition_to_cleanup::<F, E>, (cell, f)),
        old(cell)@.code == PHASE_SETUP_TO_CLEANUP || old(cell)@.code == PHASE_READ_TO_CLEANUP
            ==> call_requires(PhasedCell::<T>::finish_transition_to_cleanup::<F, E>, (cell, f)),
{
}

/// A reader of a `PhasedCell` gets what the closure of the transition to `Read` left.
pub proof fn law_read_after_transition_cell<T, F: FnOnce(&mut T) -> Result<(), E>, E>(
    cell: &mut PhasedCell<T>,
    reader: &PhasedCell<T>,
    f: F,
    rel: spec_fn(T, T, Result<(), E>) -> bool,
    result: Result<(), PhasedError<E>>,
    read: Result<&T, PhasedError>,
)
    requires
        call_ensures(PhasedCell::<T>::transition_to_read::<F, E>, (cell, f), result),
        forall|d: &mut T, r: Result<(), E>| #[trigger] f.ensures((d,), r) ==> rel(*d, *final(d), r),
        call_ensures(PhasedCell::<T>::read, (reader,), read),
        *final(cell) == *reader,
        old(cell)@.code == PHASE_SETUP,
        result is Ok,
    ensures
        read is Ok,
        exists|ran: Result<(), E>| #[trigger] rel(old(cell)@.data, *read->Ok_0, ran) && ran is Ok,
{
    let left = *read->Ok_0;
    assert(left == final(cell)@.data);
}

} // verus!
