//! What the operations of `GracefulPhasedCell` do, said of their arguments and results alone.

use super::words::{is_change_refusal, is_cleanup_refusal, is_read_refusal, shows};
use crate::errors::{PhasedError, PhasedErrorKind};
use crate::graceful::transition::ReadLook;
use crate::graceful::wait::CountDown;
use crate::graceful::phased_cell::GracefulPhasedCell;
use crate::phase::{
    Phase, PHASE_CLEANUP, PHASE_READ, PHASE_READ_TO_CLEANUP, PHASE_SETUP, PHASE_SETUP_TO_CLEANUP,
    PHASE_SETUP_TO_READ,
};
use crate::time::duration_nanos;
use std::time::Duration;
use vstd::prelude::*;

verus! {

/// A new `GracefulPhasedCell` is in `Setup`, holds what it was made of, and has never been
/// read.
pub proof fn law_new_graceful_cell<T>(data: T, cell: GracefulPhasedCell<T>)
    requires
        call_ensures(GracefulPhasedCell::<T>::new, (data,), cell),
    ensures
        cell@.code == PHASE_SETUP,
        cell@.data == data,
        cell@.wait.counter == 0,
        !cell@.wait.blocker,
        !cell@.wait.poisoned,
{
}

/// The phase of a `GracefulPhasedCell` is `Setup` up to the end of a transition to `Read`,
/// `Read` in between, and `Cleanup` from the beginning of a transition there, by either method.
pub proof fn law_phase_of_graceful_cell<T>(
    cell: &GracefulPhasedCell<T>,
    exact: Phase,
    relaxed: Phase,
)
    requires
        call_ensures(GracefulPhasedCell::<T>::phase, (cell,), exact),
        call_ensures(GracefulPhasedCell::<T>::phase_relaxed, (cell,), relaxed),
    ensures
        relaxed == exact,
        exact is Setup <==> cell@.code == PHASE_SETUP || cell@.code == PHASE_SETUP_TO_READ,
        exact is Read <==> cell@.code == PHASE_READ,
{
}

/// `read` of a `GracefulPhasedCell` gives the data exactly in `Read`, counts the reader exactly
/// if it does, and changes nothing else. One that has waited for a transition to `Read` is told
/// where the wait is poisoned.
pub proof fn law_read_graceful_cell<T>(
    cell: &mut GracefulPhasedCell<T>,
    result: Result<&T, PhasedError>,
)
    requires
        call_ensures(GracefulPhasedCell::<T>::read, (cell,), result),
    ensures
        result is Ok <==> old(cell)@.code == PHASE_READ,
        result matches Ok(data) ==> *data == old(cell)@.data,
        result matches Err(e) ==> e.source is None && shows(old(cell)@.code, e.phase),
        old(cell)@.code == PHASE_SETUP_TO_READ ==> (result matches Err(e) && e.kind
            == PhasedErrorKind::GracefulWaitMutexIsPoisoned),
        old(cell)@.code != PHASE_READ && old(cell)@.code != PHASE_SETUP_TO_READ
            ==> (result matches Err(e) && e.kind
            == PhasedErrorKind::CannotCallUnlessPhaseRead("read")),
        final(cell)@.code == old(cell)@.code,
        final(cell)@.data == old(cell)@.data,
        final(cell)@.wait.poisoned == old(cell)@.wait.poisoned,
        final(cell)@.wait.blocker == old(cell)@.wait.blocker,
        result is Ok && old(cell)@.wait.counter < usize::MAX ==> final(cell)@.wait.counter
            == old(cell)@.wait.counter + 1,
        result is Err ==> final(cell)@.wait == old(cell)@.wait,
{
}

/// `read_relaxed` of a `GracefulPhasedCell` gives the data exactly in `Read`, counts the reader
/// exactly if it does, and changes nothing else.
pub proof fn law_read_relaxed_graceful_cell<T>(
    cell: &mut GracefulPhasedCell<T>,
    result: Result<&T, PhasedError>,
)
    requires
        call_ensures(GracefulPhasedCell::<T>::read_relaxed, (cell,), result),
    ensures
        result is Ok <==> old(cell)@.code == PHASE_READ,
        result matches Ok(data) ==> *data == old(cell)@.data,
        result matches Err(e) ==> e.source is None && shows(old(cell)@.code, e.phase),
        old(cell)@.code != PHASE_READ ==> (result matches Err(e) && e.kind
            == PhasedErrorKind::CannotCallUnlessPhaseRead("read_relaxed")),
        final(cell)@.code == old(cell)@.code,
        final(cell)@.data == old(cell)@.data,
        final(cell)@.wait.poisoned == old(cell)@.wait.poisoned,
        final(cell)@.wait.blocker == old(cell)@.wait.blocker,
        result is Ok && old(cell)@.wait.counter < usize::MAX ==> final(cell)@.wait.counter
            == old(cell)@.wait.counter + 1,
        result is Err ==> final(cell)@.wait == old(cell)@.wait,
{
}

/// One who finishes reading a `GracefulPhasedCell` lowers the count of active readers by
/// exactly one, where there is one, and wakes one that waits to clean up exactly if it was the
/// last.
pub proof fn law_finish_reading_graceful_cell<T>(
    cell: &mut GracefulPhasedCell<T>,
    counted: CountDown,
)
    requires
        call_ensures(GracefulPhasedCell::<T>::finish_reading, (cell,), counted),
    ensures
        final(cell)@.code == old(cell)@.code,
        final(cell)@.data == old(cell)@.data,
        old(cell)@.wait.counter > 0 ==> final(cell)@.wait.counter == old(cell)@.wait.counter - 1,
        old(cell)@.wait.counter == 0 ==> final(cell)@ == old(cell)@,
        counted is Excessive <==> old(cell)@.wait.counter == 0,
        counted == (CountDown::Counted { wakes: true })
            <==> old(cell)@.wait.counter == 1 && old(cell)@.code == PHASE_READ_TO_CLEANUP
            && !old(cell)@.wait.poisoned,
        final(cell)@.wait.poisoned == old(cell)@.wait.poisoned,
        final(cell)@.wait.blocker
            <==> old(cell)@.wait.blocker || old(cell)@.wait.counter == 1
            && old(cell)@.code == PHASE_READ_TO_CLEANUP && !old(cell)@.wait.poisoned,
{
}

/// Reading a `GracefulPhasedCell` and then finishing leaves it as it was.
pub proof fn law_finishing_undoes_read_graceful_cell<T>(
    reading: &mut GracefulPhasedCell<T>,
    finishing: &mut GracefulPhasedCell<T>,
    result: Result<&T, PhasedError>,
    counted: CountDown,
)
    requires
        call_ensures(GracefulPhasedCell::<T>::read, (reading,), result),
        call_ensures(GracefulPhasedCell::<T>::finish_reading, (finishing,), counted),
        *final(reading) == *old(finishing),
        result is Ok,
        old(reading)@.wait.counter < usize::MAX,
    ensures
        final(finishing)@ == old(reading)@,
        counted == (CountDown::Counted { wakes: false }),
{
}

/// A transition of a `GracefulPhasedCell` to `Read` begins exactly in `Setup`, and touches
/// nothing but the phase code.
pub proof fn law_begin_read_graceful_cell<T>(
    cell: &mut GracefulPhasedCell<T>,
    result: Result<(), PhasedError>,
)
    requires
        call_ensures(GracefulPhasedCell::<T>::begin_transition_to_read, (cell,), result),
    ensures
        result is Ok <==> old(cell)@.code == PHASE_SETUP,
        result is Ok ==> final(cell)@.code == PHASE_SETUP_TO_READ,
        result is Err ==> final(cell)@.code == old(cell)@.code,
        final(cell)@.data == old(cell)@.data,
        final(cell)@.wait == old(cell)@.wait,
        result matches Err(e) ==> e.source is None && shows(old(cell)@.code, e.phase)
            && is_read_refusal(
            old(cell)@.code,
            e.kind,
        ),
{
}

/// A transition of a `GracefulPhasedCell` to `Cleanup` begins exactly in `Setup` and in `Read`,
/// and touches nothing but the phase code.
pub proof fn law_begin_cleanup_graceful_cell<T>(
    cell: &mut GracefulPhasedCell<T>,
    result: Result<(), PhasedError>,
)
    requires
        call_ensures(GracefulPhasedCell::<T>::begin_transition_to_cleanup, (cell,), result),
    ensures
        result is Ok <==> old(cell)@.code == PHASE_SETUP || old(cell)@.code == PHASE_READ,
        result is Ok && old(cell)@.code == PHASE_SETUP
            ==> final(cell)@.code == PHASE_SETUP_TO_CLEANUP,
        result is Ok && old(cell)@.code == PHASE_READ
            ==> final(cell)@.code == PHASE_READ_TO_CLEANUP,
        result is Err ==> final(cell)@.code == old(cell)@.code,
        final(cell)@.data == old(cell)@.data,
        final(cell)@.wait == old(cell)@.wait,
        result matches Err(e) ==> e.source is None && shows(old(cell)@.code, e.phase)
            && is_cleanup_refusal(old(cell)@.code, e.kind),
{
}

/// `finish_transition_to_read` of a `GracefulPhasedCell` arrives at `Read` with what the
/// closure left, exactly if the closure succeeds; otherwise the cell is in `Setup` with what
/// the closure left, and the error of the closure is the source.
pub proof fn law_finish_read_graceful_cell<T, F: FnOnce(&mut T) -> Result<(), E>, E>(
    cell: &mut GracefulPhasedCell<T>,
    f: F,
    rel: spec_fn(T, T, Result<(), E>) -> bool,
    result: Result<(), PhasedError<E>>,
)
    requires
        call_ensures(GracefulPhasedCell::<T>::finish_transition_to_read::<F, E>, (cell, f), result),
        forall|d: &mut T, r: Result<(), E>| #[trigger] f.ensures((d,), r) ==> rel(*d, *final(d), r),
        old(cell)@.code == PHASE_SETUP_TO_READ,
    ensures
        final(cell)@.wait == old(cell)@.wait,
        old(cell)@.wait.poisoned ==> (result matches Err(e) && e.phase == Phase::Setup && e.kind
            == PhasedErrorKind::GracefulWaitMutexIsPoisoned && e.source is None),
        exists|left: T, ran: Result<(), E>|
            {
                &&& #[trigger] rel(old(cell)@.data, left, ran)
                &&& ran is Ok ==> {
                    &&& (old(cell)@.wait.poisoned || (result is Ok))
                    &&& final(cell)@.code == PHASE_READ
                    &&& final(cell)@.data == left
                }
                &&& ran matches Err(source) ==> {
                    &&& (old(cell)@.wait.poisoned || (result matches Err(e)
                        && e.phase == Phase::Setup
                        && e.kind == PhasedErrorKind::FailToRunClosureDuringTransitionToRead
                        && e.source == Some(source)))
                    &&& final(cell)@.code == PHASE_SETUP
                    &&& final(cell)@.data == left
                }
            },
{
}

/// `transition_to_read` of a `GracefulPhasedCell` arrives at `Read` with what the closure left,
/// exactly if the closure succeeds; otherwise the cell is in `Setup` with what the closure
/// left, and the error of the closure is the source.
pub proof fn law_read_transition_graceful_cell<T, F: FnOnce(&mut T) -> Result<(), E>, E>(
    cell: &mut GracefulPhasedCell<T>,
    f: F,
    rel: spec_fn(T, T, Result<(), E>) -> bool,
    result: Result<(), PhasedError<E>>,
)
    requires
        call_ensures(GracefulPhasedCell::<T>::transition_to_read::<F, E>, (cell, f), result),
        forall|d: &mut T, r: Result<(), E>| #[trigger] f.ensures((d,), r) ==> rel(*d, *final(d), r),
    ensures
        old(cell)@.code != PHASE_SETUP ==> final(cell)@ == old(cell)@ && (result matches Err(e)
            && e.source is None && shows(old(cell)@.code, e.phase) && is_read_refusal(
            old(cell)@.code,
            e.kind,
        )),
        final(cell)@.wait == old(cell)@.wait,
        old(cell)@.code == PHASE_SETUP && old(cell)@.wait.poisoned
            ==> (result matches Err(e) && e.phase == Phase::Setup && e.kind
            == PhasedErrorKind::GracefulWaitMutexIsPoisoned && e.source is None),
        old(cell)@.code == PHASE_SETUP ==> exists|left: T, ran: Result<(), E>|
            {
                &&& #[trigger] rel(old(cell)@.data, left, ran)
                &&& ran is Ok ==> {
                    &&& (old(cell)@.wait.poisoned || (result is Ok))
                    &&& final(cell)@.code == PHASE_READ
                    &&& final(cell)@.data == left
                }
                &&& ran matches Err(source) ==> {
                    &&& (old(cell)@.wait.poisoned || (result matches Err(e)
                        && e.phase == Phase::Setup
                        && e.kind == PhasedErrorKind::FailToRunClosureDuringTransitionToRead
                        && e.source == Some(source)))
                    &&& final(cell)@.code == PHASE_SETUP
                    &&& final(cell)@.data == left
                }
            },
{
}

/// `finish_transition_to_cleanup` of a `GracefulPhasedCell` arrives at `Cleanup`, with what the
/// closure left, whether the closure succeeds or fails. Its error is the source of the result;
/// without one, the result is that of the wait.
pub proof fn law_finish_cleanup_graceful_cell<T, F: FnOnce(&mut T) -> Result<(), E>, E>(
    cell: &mut GracefulPhasedCell<T>,
    waited: Option<PhasedErrorKind>,
    f: F,
    rel: spec_fn(T, T, Result<(), E>) -> bool,
    result: Result<(), PhasedError<E>>,
)
    requires
        call_ensures(
            GracefulPhasedCell::<T>::finish_transition_to_cleanup::<F, E>,
            (cell, waited, f),
            result,
        ),
        forall|d: &mut T, r: Result<(), E>| #[trigger] f.ensures((d,), r) ==> rel(*d, *final(d), r),
        old(cell)@.code == PHASE_SETUP_TO_CLEANUP || old(cell)@.code == PHASE_READ_TO_CLEANUP,
    ensures
        (old(cell)@.code == PHASE_SETUP_TO_CLEANUP || old(cell)@.code == PHASE_READ_TO_CLEANUP)
            ==> final(cell)@.code == PHASE_CLEANUP,
        final(cell)@.wait == old(cell)@.wait,
        old(cell)@.code == PHASE_SETUP_TO_CLEANUP ==> exists|left: T, ran: Result<(), E>|
            {
                &&& #[trigger] rel(old(cell)@.data, left, ran)
                &&& final(cell)@.data == left
                &&& ran is Ok ==> {
                    &&& (waited is None ==> result is Ok)
                    &&& (waited matches Some(kind)
                        ==> (result matches Err(e) && e.phase == Phase::Cleanup
                        && e.kind == kind && e.source is None))
                }
                &&& ran matches Err(source)
                    ==> (result matches Err(e) && e.phase == Phase::Cleanup && e.kind
                    == PhasedErrorKind::FailToRunClosureDuringTransitionToCleanup
                        && e.source == Some(source))
            },
        old(cell)@.code == PHASE_READ_TO_CLEANUP ==> exists|left: T, ran: Result<(), E>|
            {
                &&& #[trigger] rel(old(cell)@.data, left, ran)
                &&& final(cell)@.data == left
                &&& ran is Ok ==> {
                    &&& (waited is None ==> result is Ok)
                    &&& (waited matches Some(kind)
                        ==> (result matches Err(e) && e.phase == Phase::Cleanup
                        && e.kind == kind && e.source is None))
                }
                &&& ran matches Err(source)
                    ==> (result matches Err(e) && e.phase == Phase::Cleanup && e.kind
                    == PhasedErrorKind::FailToRunClosureDuringTransitionToCleanup
                        && e.source == Some(source))
            },
{
}

/// `transition_to_cleanup` of a `GracefulPhasedCell` arrives at `Cleanup`, with what the
/// closure left, whether the closure succeeds or fails. Its error is the source of the result;
/// without one, the result is `Ok` exactly if the wait for the readers was over, whatever the
/// timeout.
pub proof fn law_cleanup_transition_graceful_cell<T, F: FnOnce(&mut T) -> Result<(), E>, E>(
    cell: &mut GracefulPhasedCell<T>,
    timeout: Duration,
    f: F,
    rel: spec_fn(T, T, Result<(), E>) -> bool,
    result: Result<(), PhasedError<E>>,
)
    requires
        call_ensures(
            GracefulPhasedCell::<T>::transition_to_cleanup::<F, E>,
            (cell, timeout, f),
            result,
        ),
        forall|d: &mut T, r: Result<(), E>| #[trigger] f.ensures((d,), r) ==> rel(*d, *final(d), r),
    ensures
        !(old(cell)@.code == PHASE_SETUP || old(cell)@.code == PHASE_READ)
            ==> final(cell)@ == old(cell)@ && (result matches Err(e)
            && e.source is None && shows(old(cell)@.code, e.phase) && is_cleanup_refusal(
            old(cell)@.code,
            e.kind,
        )),
        (old(cell)@.code == PHASE_SETUP || old(cell)@.code == PHASE_READ)
            ==> final(cell)@.code == PHASE_CLEANUP,
        final(cell)@.wait == old(cell)@.wait,
        old(cell)@.code == PHASE_SETUP ==> exists|left: T, ran: Result<(), E>|
            {
                &&& #[trigger] rel(old(cell)@.data, left, ran)
                &&& final(cell)@.data == left
                &&& ran is Ok ==> result is Ok
                &&& ran matches Err(source)
                    ==> (result matches Err(e) && e.phase == Phase::Cleanup && e.kind
                    == PhasedErrorKind::FailToRunClosureDuringTransitionToCleanup
                        && e.source == Some(source))
            },
        old(cell)@.code == PHASE_READ ==> exists|left: T, ran: Result<(), E>|
            {
                &&& #[trigger] rel(old(cell)@.data, left, ran)
                &&& final(cell)@.data == left
                &&& ran is Ok ==> {
                    &&& (result is Ok <==> old(cell)@.wait.counter == 0
                        && !old(cell)@.wait.poisoned)
                    &&& (old(cell)@.wait.poisoned
                        ==> (result matches Err(e) && e.phase == Phase::Cleanup && e.kind
                        == PhasedErrorKind::GracefulWaitMutexIsPoisoned && e.source is None))
                    &&& (!old(cell)@.wait.poisoned && old(cell)@.wait.counter > 0
                        ==> (result matches Err(e) && e.phase == Phase::Cleanup && e.kind
                        == PhasedErrorKind::GracefulWaitTimeout(timeout) && e.source is None))
                }
                &&& ran matches Err(source)
                    ==> (result matches Err(e) && e.phase == Phase::Cleanup && e.kind
                    == PhasedErrorKind::FailToRunClosureDuringTransitionToCleanup
                        && e.source == Some(source))
            },
{
}

/// The data of a `GracefulPhasedCell` can be changed exactly in `Setup` and in `Cleanup`, and
/// what is written is what the cell holds then.
pub proof fn law_get_mut_graceful_cell<T>(
    cell: &mut GracefulPhasedCell<T>,
    result: Result<&mut T, PhasedError>,
)
    requires
        call_ensures(GracefulPhasedCell::<T>::get_mut_unlocked, (cell,), result),
        old(cell)@.code <= PHASE_SETUP_TO_CLEANUP,
    ensures
        result is Ok <==> old(cell)@.code == PHASE_SETUP || old(cell)@.code == PHASE_CLEANUP,
        result matches Ok(data) ==> *data == old(cell)@.data && final(cell)@.data == *final(data),
        result is Err ==> final(cell)@ == old(cell)@,
        final(cell)@.code == old(cell)@.code,
        final(cell)@.wait == old(cell)@.wait,
        result matches Err(e) ==> e.source is None && shows(old(cell)@.code, e.phase)
            && is_change_refusal(
            old(cell)@.code,
            e.kind,
            "get_mut_unlocked",
        ),
{
}

/// Poisoning the mutex of the wait of a `GracefulPhasedCell` changes nothing else.
pub proof fn law_poison_wait_graceful_cell<T>(cell: &mut GracefulPhasedCell<T>)
    requires
        call_ensures(GracefulPhasedCell::<T>::poison_wait, (cell,), ()),
    ensures
        final(cell)@.wait.poisoned,
        final(cell)@.wait.counter == old(cell)@.wait.counter,
        final(cell)@.wait.blocker == old(cell)@.wait.blocker,
        final(cell)@.code == old(cell)@.code,
        final(cell)@.data == old(cell)@.data,
{
}

/// One that waits to clean up a `GracefulPhasedCell` goes ahead exactly if no reader is active,
/// waits on for the rest of its time as long as one is, and is told exactly then that its time
/// is up.
pub proof fn law_wait_for_cleanup_graceful_cell<T>(
    cell: &GracefulPhasedCell<T>,
    timeout: Duration,
    elapsed: u128,
    result: Result<Option<u128>, PhasedError>,
)
    requires
        call_ensures(
            GracefulPhasedCell::<T>::wait_for_cleanup_phase,
            (cell, timeout, elapsed),
            result,
        ),
    ensures
        result == Ok::<Option<u128>, PhasedError>(None)
            <==> !cell@.wait.poisoned && cell@.wait.counter == 0,
        result matches Ok(Some(nanos))
            ==> !cell@.wait.poisoned && cell@.wait.counter > 0 && nanos > 0 && elapsed + nanos
            == duration_nanos(timeout),
        !cell@.wait.poisoned && cell@.wait.counter > 0 && elapsed < duration_nanos(timeout)
            ==> result is Ok,
        !cell@.wait.poisoned && cell@.wait.counter > 0 && elapsed >= duration_nanos(timeout)
            ==> (result matches Err(e) && e.kind
            == PhasedErrorKind::GracefulWaitTimeout(timeout)),
        result matches Err(e) ==> e.source is None && shows(cell@.code, e.phase),
        cell@.wait.poisoned ==> (result matches Err(e) && e.kind
            == PhasedErrorKind::GracefulWaitMutexIsPoisoned),
{
}

/// A reader of a `GracefulPhasedCell` waits exactly as long as a transition to `Read` lasts.
pub proof fn law_wait_for_read_graceful_cell<T>(
    cell: &GracefulPhasedCell<T>,
    result: Result<ReadLook, PhasedError>,
)
    requires
        call_ensures(GracefulPhasedCell::<T>::wait_for_read_phase, (cell,), result),
    ensures
        result == Ok::<ReadLook, PhasedError>(ReadLook::Wait)
            <==> !cell@.wait.poisoned && cell@.code == PHASE_SETUP_TO_READ,
        result == Ok::<ReadLook, PhasedError>(ReadLook::Open)
            <==> !cell@.wait.poisoned && cell@.code == PHASE_READ,
        result matches Err(e) ==> e.source is None,
        !cell@.wait.poisoned && result is Err
            ==> (result matches Err(e) && shows(cell@.code, e.phase) && e.kind
            == PhasedErrorKind::CannotCallUnlessPhaseRead("read")),
        cell@.wait.poisoned ==> (result matches Err(e) && e.phase == Phase::Setup && e.kind
            == PhasedErrorKind::GracefulWaitMutexIsPoisoned),
{
}

/// `read_or_wait` of a `GracefulPhasedCell` gives the data and counts the reader exactly in
/// `Read`, and tells to wait exactly while a transition to `Read` is in progress.
pub proof fn law_read_or_wait_graceful_cell<T>(
    cell: &mut GracefulPhasedCell<T>,
    result: Result<Option<&T>, PhasedError>,
)
    requires
        call_ensures(GracefulPhasedCell::<T>::read_or_wait, (cell,), result),
    ensures
        result matches Ok(None) <==> !old(cell)@.wait.poisoned
            && old(cell)@.code == PHASE_SETUP_TO_READ,
        result matches Ok(Some(_)) <==> old(cell)@.code == PHASE_READ,
        result matches Ok(Some(data)) ==> *data == old(cell)@.data,
        final(cell)@.code == old(cell)@.code,
        final(cell)@.data == old(cell)@.data,
        (result matches Ok(Some(_))) && old(cell)@.wait.counter < usize::MAX
            ==> final(cell)@.wait.counter
            == old(cell)@.wait.counter + 1,
        !(result matches Ok(Some(_))) ==> final(cell)@.wait == old(cell)@.wait,
        final(cell)@.wait.poisoned == old(cell)@.wait.poisoned,
        final(cell)@.wait.blocker == old(cell)@.wait.blocker,
        old(cell)@.code == PHASE_SETUP_TO_READ ==> (result matches Err(e) ==> e.kind
            == PhasedErrorKind::GracefulWaitMutexIsPoisoned),
        result matches Err(e) ==> e.source is None && shows(old(cell)@.code, e.phase),
        old(cell)@.code != PHASE_READ && old(cell)@.code != PHASE_SETUP_TO_READ
            ==> (result matches Err(e) && e.kind
            == PhasedErrorKind::CannotCallUnlessPhaseRead("read")),
{
}

/// What a `GracefulPhasedCell` asks of its callers: a closure that can be called, and of one
/// that ends a transition that it is in progress; of one that reads that it is not.
pub proof fn law_calls_of_graceful_cell<T, F: FnOnce(&mut T) -> Result<(), E>, E>(
    cell: &mut GracefulPhasedCell<T>,
    timeout: Duration,
    waited: Option<PhasedErrorKind>,
    f: F,
)
    requires
        forall|d: &mut T| #[trigger] f.requires((d,)),
    ensures
        call_requires(GracefulPhasedCell::<T>::transition_to_read::<F, E>, (cell, f)),
        old(cell)@.code == PHASE_SETUP_TO_READ ==> call_requires(
            GracefulPhasedCell::<T>::finish_transition_to_read::<F, E>,
            (cell, f),
        ),
        call_requires(GracefulPhasedCell::<T>::transition_to_cleanup::<F, E>, (cell, timeout, f)),
        old(cell)@.code == PHASE_SETUP_TO_CLEANUP || old(cell)@.code == PHASE_READ_TO_CLEANUP
            ==> call_requires(GracefulPhasedCell::<T>::finish_transition_to_cleanup::<F, E>, (cell, waited, f)),
        old(cell)@.wait.counter < isize::MAX ==> call_requires(
            GracefulPhasedCell::<T>::read_relaxed,
            (cell,),
        ),
        old(cell)@.wait.counter < isize::MAX ==> call_requires(
            GracefulPhasedCell::<T>::read_or_wait,
            (cell,),
        ),
        old(cell)@.wait.counter < isize::MAX && (old(cell)@.code != PHASE_SETUP_TO_READ
            || old(cell)@.wait.poisoned) ==> call_requires(GracefulPhasedCell::<T>::read, (cell,)),
{
}

/// A reader of a `GracefulPhasedCell` gets what the closure of the transition to `Read` left.
pub proof fn law_read_after_transition_graceful_cell<T, F: FnOnce(&mut T) -> Result<(), E>, E>(
    cell: &mut GracefulPhasedCell<T>,
    reader: &mut GracefulPhasedCell<T>,
    f: F,
    rel: spec_fn(T, T, Result<(), E>) -> bool,
    result: Result<(), PhasedError<E>>,
    read: Result<&T, PhasedError>,
)
    requires
        call_ensures(GracefulPhasedCell::<T>::transition_to_read::<F, E>, (cell, f), result),
        forall|d: &mut T, r: Result<(), E>| #[trigger] f.ensures((d,), r) ==> rel(*d, *final(d), r),
        call_ensures(GracefulPhasedCell::<T>::read, (reader,), read),
        *final(cell) == *old(reader),
        old(cell)@.code == PHASE_SETUP,
        result is Ok,
    ensures
        read is Ok,
        exists|ran: Result<(), E>| #[trigger] rel(old(cell)@.data, *read->Ok_0, ran) && ran is Ok,
{
}

} // verus!
