//! What the operations of `lock::mutex_lock::PhasedLock` do, said of their arguments and results
//! alone.

use super::words::{is_lock_cleanup_refusal, is_lock_read_refusal, shows};
use crate::graceful::wait::{CountDown, WaitStep};
use crate::lock::guards::PhasedTokioMutexGuard;
use crate::lock::mutex_lock::{PhasedLock, PhasedLockState};
use crate::lock::{PhasedError, PhasedErrorKind, WaitStrategy};
use crate::phase::{
    Phase, PHASE_CLEANUP, PHASE_READ, PHASE_READ_TO_CLEANUP, PHASE_SETUP, PHASE_SETUP_TO_READ,
};
use crate::time::duration_nanos;
use std::time::Duration;
use vstd::prelude::*;

verus! {

/// A new lock for threads is in `Setup` and keeps its data behind its mutex and nowhere else.
pub proof fn law_new_mutex_lock<T: Send + Sync>(
    data: T,
    data_type: &'static str,
    lock: PhasedLock<T>,
)
    requires
        call_ensures(PhasedLock::<T>::new, (data, data_type), lock),
    ensures
        lock@.code == PHASE_SETUP,
        lock@.data_type == data_type@,
        lock@.lock_type == "setup_read_cleanup::PhasedLock"@,
        lock@.read_count == 0,
        !lock@.poisoned,
        lock@.rings.all == 0 && lock@.rings.one == 0,
        lock@.std == Some(data),
        lock@.tokio is None,
        lock@.fixed is None,
{
}

/// A new lock for tasks is in `Setup` and keeps its data behind its mutex and nowhere else.
pub proof fn law_new_for_async_mutex_lock<T: Send + Sync>(
    data: T,
    data_type: &'static str,
    lock: PhasedLock<T>,
)
    requires
        call_ensures(PhasedLock::<T>::new_for_async, (data, data_type), lock),
    ensures
        lock@.code == PHASE_SETUP,
        lock@.data_type == data_type@,
        lock@.lock_type == "setup_read_cleanup::PhasedLock"@,
        lock@.read_count == 0,
        !lock@.poisoned,
        lock@.rings.all == 0 && lock@.rings.one == 0,
        lock@.std is None,
        lock@.tokio == Some(data),
        lock@.fixed is None,
{
}

/// The phase that a lock shows, by either method.
pub proof fn law_phase_mutex_lock<T: Send + Sync>(lock: &PhasedLock<T>, exact: Phase, fast: Phase)
    requires
        call_ensures(PhasedLock::<T>::phase_exact, (lock,), exact),
        call_ensures(PhasedLock::<T>::phase_fast, (lock,), fast),
    ensures
        fast == exact,
        exact is Setup <==> lock@.code == PHASE_SETUP || lock@.code == PHASE_SETUP_TO_READ,
        exact is Read <==> lock@.code == PHASE_READ,
{
}

/// `read_fast` gives the data exactly in `Read`, where it is in the open.
pub proof fn law_read_fast_mutex_lock<T: Send + Sync>(
    lock: &PhasedLock<T>,
    result: Result<&T, PhasedError>,
)
    requires
        call_ensures(PhasedLock::<T>::read_fast, (lock,), result),
    ensures
        result is Ok <==> lock@.code == PHASE_READ && lock@.fixed is Some,
        result matches Ok(data) ==> lock@.fixed == Some(*data),
        result matches Err(e) ==> e.source is None && shows(lock@.code, e.phase),
        lock@.code != PHASE_READ ==> (result matches Err(e)
            && (e.kind matches PhasedErrorKind::CannotCallOutOfReadPhase(text)
            && text@ == lock@.lock_type + "<"@
            + lock@.data_type + ">::"@ + "read_fast"@)),
        lock@.code == PHASE_READ && lock@.fixed is None
            ==> (result matches Err(e) && e.kind is InternalDataIsEmpty),
{
}

/// `read_gracefully` gives the data exactly in `Read`, where it is in the open, and counts the
/// reader exactly in `Read`.
pub proof fn law_read_gracefully_mutex_lock<T: Send + Sync>(
    lock: &mut PhasedLock<T>,
    result: Result<&T, PhasedError>,
)
    requires
        call_ensures(PhasedLock::<T>::read_gracefully, (lock,), result),
    ensures
        result is Ok <==> old(lock)@.code == PHASE_READ && old(lock)@.fixed is Some,
        result matches Ok(data) ==> old(lock)@.fixed == Some(*data),
        result matches Err(e) ==> e.source is None && shows(old(lock)@.code, e.phase),
        old(lock)@.code != PHASE_READ
            ==> (result matches Err(e)
            && (e.kind matches PhasedErrorKind::CannotCallOutOfReadPhase(text)
            && text@ == old(lock)@.lock_type + "<"@
            + old(lock)@.data_type + ">::"@ + "read_gracefully"@)),
        old(lock)@.code == PHASE_READ && old(lock)@.fixed is None
            ==> (result matches Err(e) && e.kind is InternalDataIsEmpty),
        old(lock)@.code != PHASE_READ ==> final(lock)@ == old(lock)@,
        old(lock)@.code == PHASE_READ && old(lock)@.read_count < usize::MAX
            ==> final(lock)@.read_count
            == old(lock)@.read_count + 1,
        final(lock)@ == (PhasedLockState { read_count: final(lock)@.read_count, ..old(lock)@ }),
{
}

/// Reading and then finishing leaves a lock in `Read` as it was, for every count of readers.
pub proof fn law_finishing_undoes_reading_mutex_lock<T: Send + Sync>(
    reading: &mut PhasedLock<T>,
    finishing: &mut PhasedLock<T>,
    result: Result<&T, PhasedError>,
    counted: Result<CountDown, PhasedError>,
)
    requires
        call_ensures(PhasedLock::<T>::read_gracefully, (reading,), result),
        call_ensures(PhasedLock::<T>::finish_reading_gracefully_async, (finishing,), counted),
        *final(reading) == *old(finishing),
        old(reading)@.code == PHASE_READ,
        old(reading)@.read_count < usize::MAX,
    ensures
        final(finishing)@ == old(reading)@,
{
}

/// One who finishes reading a lock past `Setup` lowers the count of readers by exactly one,
/// where there is one, and wakes one task exactly if it was the last one that a cleanup waits
/// for.
pub proof fn law_finish_reading_mutex_lock<T: Send + Sync>(
    lock: &mut PhasedLock<T>,
    result: Result<CountDown, PhasedError>,
)
    requires
        call_ensures(PhasedLock::<T>::finish_reading_gracefully_async, (lock,), result),
    ensures
        (old(lock)@.code == PHASE_SETUP || old(lock)@.code == PHASE_SETUP_TO_READ)
            ==> final(lock)@ == old(lock)@ && (result matches Err(e) && e.phase == Phase::Setup
            && e.source is None && (e.kind matches PhasedErrorKind::CannotCallInSetupPhase(text)
            && text@ == old(lock)@.lock_type + "<"@
            + old(lock)@.data_type + ">::"@ + "finish_reading_gracefully"@)),
        !(old(lock)@.code == PHASE_SETUP || old(lock)@.code == PHASE_SETUP_TO_READ)
            && old(lock)@.read_count == 0
            ==> final(lock)@ == old(lock)@ && result == Ok::<CountDown, PhasedError>(
            CountDown::Excessive,
        ),
        !(old(lock)@.code == PHASE_SETUP || old(lock)@.code == PHASE_SETUP_TO_READ)
            && old(lock)@.read_count > 0 ==> final(lock)@.read_count == old(lock)@.read_count - 1,
        !(old(lock)@.code == PHASE_SETUP || old(lock)@.code == PHASE_SETUP_TO_READ)
            && old(lock)@.read_count > 0 ==> result == Ok::<CountDown, PhasedError>(
            CountDown::Counted { wakes: old(lock)@.read_count == 1
                && old(lock)@.code == PHASE_READ_TO_CLEANUP },
        ),
        final(lock)@.rings.all == old(lock)@.rings.all,
        final(lock)@.rings.one == old(lock)@.rings.one + (if old(lock)@.read_count == 1
            && old(lock)@.code == PHASE_READ_TO_CLEANUP {
            1int
        } else {
            0
        }),
        final(lock)@ == (PhasedLockState {
            read_count: final(lock)@.read_count,
            rings: final(lock)@.rings,
            ..old(lock)@
        }),
{
}

/// The count that a lock with a mutex tells is that of its readers.
pub proof fn law_read_count_mutex_lock<T: Send + Sync>(lock: &PhasedLock<T>, count: usize)
    requires
        call_ensures(PhasedLock::<T>::read_count, (lock,), count),
    ensures
        count == lock@.read_count,
{
}

/// Poisoning the mutex changes nothing else.
pub proof fn law_poison_mutex_lock<T: Send + Sync>(lock: &mut PhasedLock<T>)
    requires
        call_ensures(PhasedLock::<T>::poison, (lock,), ()),
    ensures
        final(lock)@ == (PhasedLockState { poisoned: true, ..old(lock)@ }),
{
}

/// A transition of threads to `Read` begins exactly in `Setup`.
pub proof fn law_begin_read_mutex_lock<T: Send + Sync>(
    lock: &mut PhasedLock<T>,
    result: Result<(), PhasedError>,
)
    requires
        call_ensures(PhasedLock::<T>::begin_transition_to_read, (lock,), result),
    ensures
        result is Ok <==> old(lock)@.code == PHASE_SETUP,
        result is Ok ==> final(lock)@
            == (PhasedLockState { code: PHASE_SETUP_TO_READ, ..old(lock)@ }),
        result is Err ==> final(lock)@ == old(lock)@ && (result matches Err(e) && e.source is None
            && shows(old(lock)@.code, e.phase)
            && is_lock_read_refusal(old(lock)@.code, e.kind)),
{
}

/// A transition of tasks to `Read` begins exactly in `Setup`.
pub proof fn law_begin_read_async_mutex_lock<T: Send + Sync>(
    lock: &mut PhasedLock<T>,
    result: Result<(), PhasedError>,
)
    requires
        call_ensures(PhasedLock::<T>::begin_transition_to_read_async, (lock,), result),
    ensures
        result is Ok <==> old(lock)@.code == PHASE_SETUP,
        result is Ok ==> final(lock)@
            == (PhasedLockState { code: PHASE_SETUP_TO_READ, ..old(lock)@ }),
        result is Err ==> final(lock)@ == old(lock)@ && (result matches Err(e) && e.source is None
            && shows(old(lock)@.code, e.phase)
            && is_lock_read_refusal(old(lock)@.code, e.kind)),
{
}

/// `finish_transition_to_read` of a lock for threads arrives at `Read`, with what the closure
/// left in the open, exactly if the closure succeeds; otherwise the lock is in `Setup` with
/// what the closure left behind the mutex.
pub proof fn law_finish_read_mutex_lock<T: Send + Sync, F: FnOnce(&mut T) -> Result<(), E>, E>(
    lock: &mut PhasedLock<T>,
    f: F,
    rel: spec_fn(T, T, Result<(), E>) -> bool,
    result: Result<(), PhasedError<E>>,
)
    requires
        call_ensures(PhasedLock::<T>::finish_transition_to_read::<F, E>, (lock, f), result),
        forall|d: &mut T, r: Result<(), E>| #[trigger] f.ensures((d,), r) ==> rel(*d, *final(d), r),
        old(lock)@.code == PHASE_SETUP_TO_READ,
    ensures
        old(lock)@.code == PHASE_SETUP_TO_READ && old(lock)@.poisoned
            ==> final(lock)@ == (PhasedLockState { code: PHASE_SETUP, ..old(lock)@ })
            && (result matches Err(e) && e.phase == Phase::Setup && e.kind is MutexIsPoisoned
            && e.source is None),
        old(lock)@.code == PHASE_SETUP_TO_READ && !old(lock)@.poisoned && old(lock)@.std is None
            ==> final(lock)@ == (PhasedLockState { code: PHASE_SETUP, ..old(lock)@ })
            && (result matches Err(e) && e.phase == Phase::Setup && e.kind is InternalDataIsEmpty
            && e.source is None),
        old(lock)@.code == PHASE_SETUP_TO_READ && !old(lock)@.poisoned && old(lock)@.std is Some
            ==> exists|left: T, ran: Result<(), E>|
            {
                &&& #[trigger] rel(old(lock)@.std->0, left, ran)
                &&& ran is Ok ==> result is Ok
                    && final(lock)@ == (PhasedLockState { code: PHASE_READ, std: old(lock)@.fixed, fixed: Some(left), ..old(lock)@ })
                &&& ran matches Err(source)
                    ==> (result matches Err(e) && e.phase == Phase::Setup && e.kind
                    is FailToRunClosureDuringTransitionToRead && e.source == Some(source))
                        && final(lock)@ == (PhasedLockState { code: PHASE_SETUP, std: Some(left), ..old(lock)@ })
            },
{
}

/// A transition to `Read` of a lock for threads is refused on a tokio runtime; elsewhere it
/// begins exactly in `Setup`, and arrives exactly if the closure succeeds.
pub proof fn law_read_unless_mutex_lock<T: Send + Sync, F: FnOnce(&mut T) -> Result<(), E>, E>(
    lock: &mut PhasedLock<T>,
    on_runtime: bool,
    f: F,
    rel: spec_fn(T, T, Result<(), E>) -> bool,
    result: Result<(), PhasedError<E>>,
)
    requires
        call_ensures(
            PhasedLock::<T>::transition_to_read_unless::<F, E>,
            (lock, on_runtime, f),
            result,
        ),
        forall|d: &mut T, r: Result<(), E>| #[trigger] f.ensures((d,), r) ==> rel(*d, *final(d), r),
    ensures
        on_runtime ==> final(lock)@ == old(lock)@ && (result matches Err(e)
            && shows(old(lock)@.code, e.phase) && e.source is None
            && (e.kind matches PhasedErrorKind::CannotCallOnTokioRuntime(text)
                && text@ == old(lock)@.lock_type + "<"@
            + old(lock)@.data_type + ">::"@ + "transition_to_read"@)),
        !on_runtime && old(lock)@.code != PHASE_SETUP
            ==> final(lock)@ == old(lock)@ && (result matches Err(e) && e.source is None
            && shows(old(lock)@.code, e.phase)
            && is_lock_read_refusal(old(lock)@.code, e.kind)),
        !on_runtime && old(lock)@.code == PHASE_SETUP && old(lock)@.poisoned
            ==> final(lock)@ == (PhasedLockState { code: PHASE_SETUP, ..old(lock)@ })
            && (result matches Err(e) && e.phase == Phase::Setup && e.kind is MutexIsPoisoned
            && e.source is None),
        !on_runtime && old(lock)@.code == PHASE_SETUP && !old(lock)@.poisoned
            && old(lock)@.std is None
            ==> final(lock)@ == (PhasedLockState { code: PHASE_SETUP, ..old(lock)@ })
            && (result matches Err(e) && e.phase == Phase::Setup && e.kind is InternalDataIsEmpty
            && e.source is None),
        !on_runtime && old(lock)@.code == PHASE_SETUP && !old(lock)@.poisoned
            && old(lock)@.std is Some ==> exists|left: T, ran: Result<(), E>|
            {
                &&& #[trigger] rel(old(lock)@.std->0, left, ran)
                &&& ran is Ok ==> result is Ok
                    && final(lock)@ == (PhasedLockState { code: PHASE_READ, std: old(lock)@.fixed, fixed: Some(left), ..old(lock)@ })
                &&& ran matches Err(source)
                    ==> (result matches Err(e) && e.phase == Phase::Setup && e.kind
                    is FailToRunClosureDuringTransitionToRead && e.source == Some(source))
                        && final(lock)@ == (PhasedLockState { code: PHASE_SETUP, std: Some(left), ..old(lock)@ })
            },
{
}

/// A transition to `Read` of a lock for threads is refused because of a tokio runtime, or
/// begins exactly in `Setup` and arrives exactly if the closure succeeds.
pub proof fn law_read_transition_mutex_lock<T: Send + Sync, F: FnOnce(&mut T) -> Result<(), E>, E>(
    lock: &mut PhasedLock<T>,
    f: F,
    rel: spec_fn(T, T, Result<(), E>) -> bool,
    result: Result<(), PhasedError<E>>,
)
    requires
        call_ensures(PhasedLock::<T>::transition_to_read::<F, E>, (lock, f), result),
        forall|d: &mut T, r: Result<(), E>| #[trigger] f.ensures((d,), r) ==> rel(*d, *final(d), r),
        !(result matches Err(e) && e.kind is CannotCallOnTokioRuntime),
    ensures
        old(lock)@.code != PHASE_SETUP
            ==> final(lock)@ == old(lock)@ && (result matches Err(e) && e.source is None
            && shows(old(lock)@.code, e.phase)
            && is_lock_read_refusal(old(lock)@.code, e.kind)),
        old(lock)@.code == PHASE_SETUP && old(lock)@.poisoned
            ==> final(lock)@ == (PhasedLockState { code: PHASE_SETUP, ..old(lock)@ })
            && (result matches Err(e) && e.phase == Phase::Setup && e.kind is MutexIsPoisoned
            && e.source is None),
        old(lock)@.code == PHASE_SETUP && !old(lock)@.poisoned && old(lock)@.std is None
            ==> final(lock)@ == (PhasedLockState { code: PHASE_SETUP, ..old(lock)@ })
            && (result matches Err(e) && e.phase == Phase::Setup && e.kind is InternalDataIsEmpty
            && e.source is None),
        old(lock)@.code == PHASE_SETUP && !old(lock)@.poisoned && old(lock)@.std is Some
            ==> exists|left: T, ran: Result<(), E>|
            {
                &&& #[trigger] rel(old(lock)@.std->0, left, ran)
                &&& ran is Ok ==> result is Ok
                    && final(lock)@ == (PhasedLockState { code: PHASE_READ, std: old(lock)@.fixed, fixed: Some(left), ..old(lock)@ })
                &&& ran matches Err(source)
                    ==> (result matches Err(e) && e.phase == Phase::Setup && e.kind
                    is FailToRunClosureDuringTransitionToRead && e.source == Some(source))
                        && final(lock)@ == (PhasedLockState { code: PHASE_SETUP, std: Some(left), ..old(lock)@ })
            },
{
}

/// A transition to `Read` of a lock for threads that is refused because of a tokio runtime
/// changes nothing.
pub proof fn law_read_on_runtime_mutex_lock<T: Send + Sync, F: FnOnce(&mut T) -> Result<(), E>, E>(
    lock: &mut PhasedLock<T>,
    f: F,
    result: Result<(), PhasedError<E>>,
)
    requires
        call_ensures(PhasedLock::<T>::transition_to_read::<F, E>, (lock, f), result),
        result matches Err(e) && e.kind is CannotCallOnTokioRuntime,
    ensures
        final(lock)@ == old(lock)@,
        (result matches Err(e) && shows(old(lock)@.code, e.phase) && e.source is None
            && (e.kind matches PhasedErrorKind::CannotCallOnTokioRuntime(text)
                && text@ == old(lock)@.lock_type + "<"@
            + old(lock)@.data_type + ">::"@ + "transition_to_read"@)),
{
}

/// A cleanup of a lock for threads without a wait arrives at `Cleanup` from `Setup`, and from
/// `Read` where the mutex is sound, with the data back behind the mutex.
pub proof fn law_simple_cleanup_mutex_lock<T: Send + Sync>(
    lock: &mut PhasedLock<T>,
    result: Result<(), PhasedError>,
)
    requires
        call_ensures(PhasedLock::<T>::transition_to_cleanup_simply, (lock,), result),
    ensures
        old(lock)@.code != PHASE_SETUP && old(lock)@.code != PHASE_READ
            ==> final(lock)@ == old(lock)@ && (result matches Err(e) && e.source is None
            && shows(old(lock)@.code, e.phase)
            && is_lock_cleanup_refusal(old(lock)@.code, e.kind)),
        old(lock)@.code == PHASE_SETUP
            ==> result is Ok && final(lock)@
            == (PhasedLockState { code: PHASE_CLEANUP, ..old(lock)@ }),
        old(lock)@.code == PHASE_READ && old(lock)@.poisoned
            ==> final(lock)@ == old(lock)@ && (result matches Err(e) && e.phase == Phase::Cleanup
            && e.kind is MutexIsPoisoned && e.source is None),
        old(lock)@.code == PHASE_READ && !old(lock)@.poisoned
            ==> result is Ok && final(lock)@ == (if old(lock)@.std is None {
            PhasedLockState {
                code: PHASE_CLEANUP,
                std: old(lock)@.fixed,
                fixed: None,
                ..old(lock)@
            }
        } else {
            PhasedLockState { code: PHASE_CLEANUP, ..old(lock)@ }
        }),
{
}

/// A graceful cleanup of a lock for threads begins exactly in `Setup` and in `Read`, where the
/// mutex is sound; from `Setup` it arrives at once.
pub proof fn law_begin_graceful_cleanup_mutex_lock<T: Send + Sync>(
    lock: &mut PhasedLock<T>,
    result: Result<(), PhasedError>,
)
    requires
        call_ensures(PhasedLock::<T>::begin_transition_to_cleanup_gracefully, (lock,), result),
    ensures
        result is Ok <==> !old(lock)@.poisoned && (old(lock)@.code == PHASE_SETUP
            || old(lock)@.code == PHASE_READ),
        result is Ok && old(lock)@.code == PHASE_SETUP
            ==> final(lock)@ == (PhasedLockState { code: PHASE_CLEANUP, ..old(lock)@ }),
        result is Ok && old(lock)@.code == PHASE_READ
            ==> final(lock)@ == (PhasedLockState { code: PHASE_READ_TO_CLEANUP, ..old(lock)@ }),
        result is Err ==> final(lock)@ == old(lock)@,
        old(lock)@.poisoned ==> (result matches Err(e) && shows(old(lock)@.code, e.phase)
            && e.kind is MutexIsPoisoned && e.source is None),
        !old(lock)@.poisoned && old(lock)@.code != PHASE_SETUP && old(lock)@.code != PHASE_READ
            ==> (result matches Err(e) && e.source is None && shows(old(lock)@.code, e.phase)
            && is_lock_cleanup_refusal(old(lock)@.code, e.kind)),
{
}

/// A wait for the readers of a lock with a mutex is over exactly if none is left or the time is
/// up, and otherwise lasts for the rest of its time.
pub proof fn law_wait_for_readers_mutex_lock<T: Send + Sync>(
    lock: &PhasedLock<T>,
    timeout: Duration,
    elapsed: u128,
    step: WaitStep,
)
    requires
        call_ensures(PhasedLock::<T>::wait_for_readers, (lock, timeout, elapsed), step),
    ensures
        step is Finished <==> lock@.read_count == 0,
        step is TimedOut <==> lock@.read_count > 0 && elapsed >= duration_nanos(timeout),
        step matches WaitStep::Park(nanos)
            ==> nanos > 0 && elapsed + nanos == duration_nanos(timeout),
{
}

/// The end of a graceful cleanup of a lock for threads puts the data back behind the mutex, and
/// is an error exactly if the mutex is poisoned, or the time was up and readers are left.
pub proof fn law_end_graceful_cleanup_mutex_lock<T: Send + Sync>(
    lock: &mut PhasedLock<T>,
    timed_out: bool,
    timeout: Duration,
    result: Result<(), PhasedError>,
)
    requires
        call_ensures(
            PhasedLock::<T>::end_transition_to_cleanup_gracefully,
            (lock, timed_out, timeout),
            result,
        ),
        old(lock)@.code == PHASE_READ_TO_CLEANUP,
    ensures
        old(lock)@.poisoned ==> final(lock)@ == old(lock)@ && (result matches Err(e)
            && e.phase == Phase::Cleanup && e.kind is MutexIsPoisoned && e.source is None),
        !old(lock)@.poisoned ==> final(lock)@ == (if old(lock)@.std is None {
            PhasedLockState {
                code: PHASE_CLEANUP,
                std: old(lock)@.fixed,
                fixed: None,
                ..old(lock)@
            }
        } else {
            PhasedLockState { code: PHASE_CLEANUP, ..old(lock)@ }
        }),
        !old(lock)@.poisoned ==> (result is Ok <==> !timed_out || old(lock)@.read_count == 0),
        !old(lock)@.poisoned && result is Err
            ==> (result matches Err(e) && e.phase == Phase::Cleanup && e.kind
            == PhasedErrorKind::TransitionToCleanupTimeout(WaitStrategy::GracefulWait { timeout })
            && e.source is None),
{
}

/// A graceful cleanup of a lock for threads by one that owns it, in `Read` and with its mutex
/// sound, is `Ok` exactly if no reader is active, whatever the count and the timeout, and
/// arrives at `Cleanup` with the data back behind the mutex in any case.
pub proof fn law_graceful_cleanup_mutex_lock<T: Send + Sync>(
    lock: &mut PhasedLock<T>,
    timeout: Duration,
    result: Result<(), PhasedError>,
)
    requires
        call_ensures(PhasedLock::<T>::transition_to_cleanup_gracefully, (lock, timeout), result),
    ensures
        old(lock)@.poisoned ==> final(lock)@ == old(lock)@ && (result matches Err(e)
            && shows(old(lock)@.code, e.phase) && e.kind is MutexIsPoisoned && e.source is None),
        !old(lock)@.poisoned && old(lock)@.code != PHASE_SETUP && old(lock)@.code != PHASE_READ
            ==> final(lock)@ == old(lock)@ && (result matches Err(e) && e.source is None
            && shows(old(lock)@.code, e.phase)
            && is_lock_cleanup_refusal(old(lock)@.code, e.kind)),
        !old(lock)@.poisoned && old(lock)@.code == PHASE_SETUP
            ==> result is Ok && final(lock)@
            == (PhasedLockState { code: PHASE_CLEANUP, ..old(lock)@ }),
        !old(lock)@.poisoned && old(lock)@.code == PHASE_READ
            ==> final(lock)@ == (if old(lock)@.std is None {
            PhasedLockState {
                code: PHASE_CLEANUP,
                std: old(lock)@.fixed,
                fixed: None,
                ..old(lock)@
            }
        } else {
            PhasedLockState { code: PHASE_CLEANUP, ..old(lock)@ }
        }),
        !old(lock)@.poisoned && old(lock)@.code == PHASE_READ ==> (result is Ok
            <==> old(lock)@.read_count == 0),
        !old(lock)@.poisoned && old(lock)@.code == PHASE_READ && result is Err
            ==> (result matches Err(e) && e.phase == Phase::Cleanup && e.kind
            == PhasedErrorKind::TransitionToCleanupTimeout(WaitStrategy::GracefulWait { timeout })
            && e.source is None),
{
}

/// A cleanup of a lock for threads is refused on a tokio runtime, and otherwise is made with
/// the wait that the strategy asks for.
pub proof fn law_cleanup_unless_mutex_lock<T: Send + Sync>(
    lock: &mut PhasedLock<T>,
    on_runtime: bool,
    wait_strategy: WaitStrategy,
    result: Result<(), PhasedError>,
)
    requires
        call_ensures(
            PhasedLock::<T>::transition_to_cleanup_unless,
            (lock, on_runtime, wait_strategy),
            result,
        ),
        !(wait_strategy is GracefulWait),
    ensures
        on_runtime ==> final(lock)@ == old(lock)@ && (result matches Err(e)
            && shows(old(lock)@.code, e.phase) && e.source is None
            && (e.kind matches PhasedErrorKind::CannotCallOnTokioRuntime(text)
                && text@ == old(lock)@.lock_type + "<"@
            + old(lock)@.data_type + ">::"@ + "transition_to_cleanup"@)),
        !on_runtime && old(lock)@.code != PHASE_SETUP && old(lock)@.code != PHASE_READ
            ==> final(lock)@ == old(lock)@ && (result matches Err(e) && e.source is None
            && shows(old(lock)@.code, e.phase)
            && is_lock_cleanup_refusal(old(lock)@.code, e.kind)),
        !on_runtime && old(lock)@.code == PHASE_SETUP
            ==> result is Ok && final(lock)@
            == (PhasedLockState { code: PHASE_CLEANUP, ..old(lock)@ }),
        !on_runtime && old(lock)@.code == PHASE_READ && old(lock)@.poisoned
            ==> final(lock)@ == old(lock)@ && (result matches Err(e) && e.phase == Phase::Cleanup
            && e.kind is MutexIsPoisoned && e.source is None),
        !on_runtime && old(lock)@.code == PHASE_READ && !old(lock)@.poisoned
            ==> result is Ok && final(lock)@ == (if old(lock)@.std is None {
            PhasedLockState {
                code: PHASE_CLEANUP,
                std: old(lock)@.fixed,
                fixed: None,
                ..old(lock)@
            }
        } else {
            PhasedLockState { code: PHASE_CLEANUP, ..old(lock)@ }
        }),
{
}

/// A graceful cleanup of a lock for threads off a tokio runtime is `Ok` from `Read` exactly if
/// no reader is active.
pub proof fn law_graceful_cleanup_unless_mutex_lock<T: Send + Sync>(
    lock: &mut PhasedLock<T>,
    on_runtime: bool,
    timeout: Duration,
    result: Result<(), PhasedError>,
)
    requires
        call_ensures(
            PhasedLock::<T>::transition_to_cleanup_unless,
            (lock, on_runtime, WaitStrategy::GracefulWait { timeout }),
            result,
        ),
    ensures
        on_runtime ==> final(lock)@ == old(lock)@ && (result matches Err(e)
            && shows(old(lock)@.code, e.phase) && e.source is None
            && (e.kind matches PhasedErrorKind::CannotCallOnTokioRuntime(text)
                && text@ == old(lock)@.lock_type + "<"@
            + old(lock)@.data_type + ">::"@ + "transition_to_cleanup"@)),
        !on_runtime && old(lock)@.poisoned
            ==> final(lock)@ == old(lock)@ && (result matches Err(e)
            && shows(old(lock)@.code, e.phase) && e.kind is MutexIsPoisoned && e.source is None),
        !on_runtime && !old(lock)@.poisoned && old(lock)@.code != PHASE_SETUP
            && old(lock)@.code != PHASE_READ
            ==> final(lock)@ == old(lock)@ && (result matches Err(e) && e.source is None
            && shows(old(lock)@.code, e.phase)
            && is_lock_cleanup_refusal(old(lock)@.code, e.kind)),
        !on_runtime && !old(lock)@.poisoned && old(lock)@.code == PHASE_SETUP
            ==> result is Ok && final(lock)@
            == (PhasedLockState { code: PHASE_CLEANUP, ..old(lock)@ }),
        !on_runtime && !old(lock)@.poisoned && old(lock)@.code == PHASE_READ
            ==> final(lock)@ == (if old(lock)@.std is None {
            PhasedLockState {
                code: PHASE_CLEANUP,
                std: old(lock)@.fixed,
                fixed: None,
                ..old(lock)@
            }
        } else {
            PhasedLockState { code: PHASE_CLEANUP, ..old(lock)@ }
        }),
        !on_runtime && !old(lock)@.poisoned && old(lock)@.code == PHASE_READ ==> (result is Ok
            <==> old(lock)@.read_count == 0),
        !on_runtime && !old(lock)@.poisoned && old(lock)@.code == PHASE_READ && result is Err
            ==> (result matches Err(e) && e.phase == Phase::Cleanup && e.kind
            == PhasedErrorKind::TransitionToCleanupTimeout(WaitStrategy::GracefulWait { timeout })
            && e.source is None),
{
}

/// A cleanup of a lock for threads that no tokio runtime stood against is made with the wait
/// that the strategy asks for.
pub proof fn law_cleanup_mutex_lock<T: Send + Sync>(
    lock: &mut PhasedLock<T>,
    wait_strategy: WaitStrategy,
    result: Result<(), PhasedError>,
)
    requires
        call_ensures(PhasedLock::<T>::transition_to_cleanup, (lock, wait_strategy), result),
        !(wait_strategy is GracefulWait),
        !(result matches Err(e) && e.kind is CannotCallOnTokioRuntime),
    ensures
        old(lock)@.code != PHASE_SETUP && old(lock)@.code != PHASE_READ
            ==> final(lock)@ == old(lock)@ && (result matches Err(e) && e.source is None
            && shows(old(lock)@.code, e.phase)
            && is_lock_cleanup_refusal(old(lock)@.code, e.kind)),
        old(lock)@.code == PHASE_SETUP
            ==> result is Ok && final(lock)@
            == (PhasedLockState { code: PHASE_CLEANUP, ..old(lock)@ }),
        old(lock)@.code == PHASE_READ && old(lock)@.poisoned
            ==> final(lock)@ == old(lock)@ && (result matches Err(e) && e.phase == Phase::Cleanup
            && e.kind is MutexIsPoisoned && e.source is None),
        old(lock)@.code == PHASE_READ && !old(lock)@.poisoned
            ==> result is Ok && final(lock)@ == (if old(lock)@.std is None {
            PhasedLockState {
                code: PHASE_CLEANUP,
                std: old(lock)@.fixed,
                fixed: None,
                ..old(lock)@
            }
        } else {
            PhasedLockState { code: PHASE_CLEANUP, ..old(lock)@ }
        }),
{
}

/// A graceful cleanup of a lock for threads that no tokio runtime stood against is `Ok` from
/// `Read` exactly if no reader is active.
pub proof fn law_cleanup_with_graceful_wait_mutex_lock<T: Send + Sync>(
    lock: &mut PhasedLock<T>,
    timeout: Duration,
    result: Result<(), PhasedError>,
)
    requires
        call_ensures(
            PhasedLock::<T>::transition_to_cleanup,
            (lock, WaitStrategy::GracefulWait { timeout }),
            result,
        ),
        !(result matches Err(e) && e.kind is CannotCallOnTokioRuntime),
    ensures
        old(lock)@.poisoned ==> final(lock)@ == old(lock)@ && (result matches Err(e)
            && shows(old(lock)@.code, e.phase) && e.kind is MutexIsPoisoned && e.source is None),
        !old(lock)@.poisoned && old(lock)@.code != PHASE_SETUP && old(lock)@.code != PHASE_READ
            ==> final(lock)@ == old(lock)@ && (result matches Err(e) && e.source is None
            && shows(old(lock)@.code, e.phase)
            && is_lock_cleanup_refusal(old(lock)@.code, e.kind)),
        !old(lock)@.poisoned && old(lock)@.code == PHASE_SETUP
            ==> result is Ok && final(lock)@
            == (PhasedLockState { code: PHASE_CLEANUP, ..old(lock)@ }),
        !old(lock)@.poisoned && old(lock)@.code == PHASE_READ
            ==> final(lock)@ == (if old(lock)@.std is None {
            PhasedLockState {
                code: PHASE_CLEANUP,
                std: old(lock)@.fixed,
                fixed: None,
                ..old(lock)@
            }
        } else {
            PhasedLockState { code: PHASE_CLEANUP, ..old(lock)@ }
        }),
        !old(lock)@.poisoned && old(lock)@.code == PHASE_READ ==> (result is Ok
            <==> old(lock)@.read_count == 0),
        !old(lock)@.poisoned && old(lock)@.code == PHASE_READ && result is Err
            ==> (result matches Err(e) && e.phase == Phase::Cleanup && e.kind
            == PhasedErrorKind::TransitionToCleanupTimeout(WaitStrategy::GracefulWait { timeout })
            && e.source is None),
{
}

/// A cleanup of a lock for threads that is refused because of a tokio runtime changes nothing.
pub proof fn law_cleanup_on_runtime_mutex_lock<T: Send + Sync>(
    lock: &mut PhasedLock<T>,
    wait_strategy: WaitStrategy,
    result: Result<(), PhasedError>,
)
    requires
        call_ensures(PhasedLock::<T>::transition_to_cleanup, (lock, wait_strategy), result),
        result matches Err(e) && e.kind is CannotCallOnTokioRuntime,
    ensures
        final(lock)@ == old(lock)@,
        (result matches Err(e) && shows(old(lock)@.code, e.phase) && e.source is None
            && (e.kind matches PhasedErrorKind::CannotCallOnTokioRuntime(text)
                && text@ == old(lock)@.lock_type + "<"@
            + old(lock)@.data_type + ">::"@ + "transition_to_cleanup"@)),
{
}

/// `finish_transition_to_read_async` of a lock for tasks arrives at `Read`, with what the
/// closure left in the open, exactly if the closure succeeds; otherwise the lock is in `Setup`
/// with what the closure left behind the mutex.
pub proof fn law_finish_read_async_mutex_lock<
    T: Send + Sync,
    F: FnOnce(&mut T) -> Result<(), E>,
    E,
>(
    lock: &mut PhasedLock<T>,
    f: F,
    rel: spec_fn(T, T, Result<(), E>) -> bool,
    result: Result<(), PhasedError<E>>,
)
    requires
        call_ensures(PhasedLock::<T>::finish_transition_to_read_async::<F, E>, (lock, f), result),
        forall|d: &mut T, r: Result<(), E>| #[trigger] f.ensures((d,), r) ==> rel(*d, *final(d), r),
        old(lock)@.code == PHASE_SETUP_TO_READ,
    ensures
        old(lock)@.code == PHASE_SETUP_TO_READ && old(lock)@.tokio is None
            ==> result is Ok && final(lock)@
            == (PhasedLockState { code: PHASE_READ, ..old(lock)@ }),
        old(lock)@.code == PHASE_SETUP_TO_READ && old(lock)@.tokio is Some
            ==> exists|left: T, ran: Result<(), E>|
            {
                &&& #[trigger] rel(old(lock)@.tokio->0, left, ran)
                &&& ran is Ok ==> result is Ok
                    && final(lock)@ == (PhasedLockState { code: PHASE_READ, tokio: old(lock)@.fixed, fixed: Some(left), ..old(lock)@ })
                &&& ran matches Err(source)
                    ==> (result matches Err(e) && e.phase == Phase::Setup && e.kind
                    is FailToRunClosureDuringTransitionToRead && e.source == Some(source))
                        && final(lock)@ == (PhasedLockState { code: PHASE_SETUP, tokio: Some(left), ..old(lock)@ })
            },
{
}

/// `transition_to_read_async` of a lock for tasks arrives at `Read`, with what the closure left
/// in the open, exactly if the closure succeeds; otherwise the lock is in `Setup` with what the
/// closure left behind the mutex.
pub proof fn law_read_transition_async_mutex_lock<
    T: Send + Sync,
    F: FnOnce(&mut T) -> Result<(), E>,
    E,
>(
    lock: &mut PhasedLock<T>,
    f: F,
    rel: spec_fn(T, T, Result<(), E>) -> bool,
    result: Result<(), PhasedError<E>>,
)
    requires
        call_ensures(PhasedLock::<T>::transition_to_read_async::<F, E>, (lock, f), result),
        forall|d: &mut T, r: Result<(), E>| #[trigger] f.ensures((d,), r) ==> rel(*d, *final(d), r),
    ensures
        old(lock)@.code != PHASE_SETUP
            ==> final(lock)@ == old(lock)@ && (result matches Err(e) && e.source is None
            && shows(old(lock)@.code, e.phase)
            && is_lock_read_refusal(old(lock)@.code, e.kind)),
        old(lock)@.code == PHASE_SETUP && old(lock)@.tokio is None
            ==> result is Ok && final(lock)@
            == (PhasedLockState { code: PHASE_READ, ..old(lock)@ }),
        old(lock)@.code == PHASE_SETUP && old(lock)@.tokio is Some
            ==> exists|left: T, ran: Result<(), E>|
            {
                &&& #[trigger] rel(old(lock)@.tokio->0, left, ran)
                &&& ran is Ok ==> result is Ok
                    && final(lock)@ == (PhasedLockState { code: PHASE_READ, tokio: old(lock)@.fixed, fixed: Some(left), ..old(lock)@ })
                &&& ran matches Err(source)
                    ==> (result matches Err(e) && e.phase == Phase::Setup && e.kind
                    is FailToRunClosureDuringTransitionToRead && e.source == Some(source))
                        && final(lock)@ == (PhasedLockState { code: PHASE_SETUP, tokio: Some(left), ..old(lock)@ })
            },
{
}

/// A cleanup by tasks begins exactly in `Setup` and in `Read`; from `Setup` it arrives at once.
pub proof fn law_begin_cleanup_async_mutex_lock<T: Send + Sync>(
    lock: &mut PhasedLock<T>,
    result: Result<(), PhasedError>,
)
    requires
        call_ensures(PhasedLock::<T>::begin_transition_to_cleanup_async, (lock,), result),
    ensures
        result is Ok <==> old(lock)@.code == PHASE_SETUP || old(lock)@.code == PHASE_READ,
        result is Ok && old(lock)@.code == PHASE_SETUP
            ==> final(lock)@ == (PhasedLockState { code: PHASE_CLEANUP, ..old(lock)@ }),
        result is Ok && old(lock)@.code == PHASE_READ
            ==> final(lock)@ == (PhasedLockState { code: PHASE_READ_TO_CLEANUP, ..old(lock)@ }),
        result is Err ==> final(lock)@ == old(lock)@ && (result matches Err(e) && e.source is None
            && shows(old(lock)@.code, e.phase)
            && is_lock_cleanup_refusal(old(lock)@.code, e.kind)),
{
}

/// The end of a cleanup by tasks puts the data back behind the mutex, and is an error exactly
/// if the time was up and readers are left.
pub proof fn law_end_cleanup_async_mutex_lock<T: Send + Sync>(
    lock: &mut PhasedLock<T>,
    timed_out: Option<Duration>,
    result: Result<(), PhasedError>,
)
    requires
        call_ensures(PhasedLock::<T>::end_transition_to_cleanup_async, (lock, timed_out), result),
        old(lock)@.code == PHASE_READ_TO_CLEANUP,
    ensures
        final(lock)@ == (if old(lock)@.tokio is None {
            PhasedLockState {
                code: PHASE_CLEANUP,
                tokio: old(lock)@.fixed,
                fixed: None,
                ..old(lock)@
            }
        } else {
            PhasedLockState { code: PHASE_CLEANUP, ..old(lock)@ }
        }),
        result is Ok <==> timed_out is None || old(lock)@.read_count == 0,
        result matches Err(e) ==> e.phase == Phase::Cleanup && e.source is None
            && (timed_out matches Some(timeout)
            && e.kind == PhasedErrorKind::TransitionToCleanupTimeout(
            WaitStrategy::GracefulWait { timeout },
        )),
{
}

/// A cleanup by tasks without a wait arrives at `Cleanup` from `Setup` and from `Read`, with
/// the data back behind the mutex.
pub proof fn law_simple_cleanup_async_mutex_lock<T: Send + Sync>(
    lock: &mut PhasedLock<T>,
    result: Result<(), PhasedError>,
)
    requires
        call_ensures(PhasedLock::<T>::transition_to_cleanup_simply_async, (lock,), result),
    ensures
        old(lock)@.code != PHASE_SETUP && old(lock)@.code != PHASE_READ
            ==> final(lock)@ == old(lock)@ && (result matches Err(e) && e.source is None
            && shows(old(lock)@.code, e.phase)
            && is_lock_cleanup_refusal(old(lock)@.code, e.kind)),
        old(lock)@.code == PHASE_SETUP
            ==> result is Ok && final(lock)@
            == (PhasedLockState { code: PHASE_CLEANUP, ..old(lock)@ }),
        old(lock)@.code == PHASE_READ
            ==> result is Ok && final(lock)@ == (if old(lock)@.tokio is None {
            PhasedLockState {
                code: PHASE_CLEANUP,
                tokio: old(lock)@.fixed,
                fixed: None,
                ..old(lock)@
            }
        } else {
            PhasedLockState { code: PHASE_CLEANUP, ..old(lock)@ }
        }),
{
}

/// A graceful cleanup by tasks is `Ok` from `Read` exactly if no reader is active, and arrives
/// at `Cleanup` in any case.
pub proof fn law_graceful_cleanup_async_mutex_lock<T: Send + Sync>(
    lock: &mut PhasedLock<T>,
    timeout: Duration,
    result: Result<(), PhasedError>,
)
    requires
        call_ensures(
            PhasedLock::<T>::transition_to_cleanup_gracefully_async,
            (lock, timeout),
            result,
        ),
    ensures
        old(lock)@.code != PHASE_SETUP && old(lock)@.code != PHASE_READ
            ==> final(lock)@ == old(lock)@ && (result matches Err(e) && e.source is None
            && shows(old(lock)@.code, e.phase)
            && is_lock_cleanup_refusal(old(lock)@.code, e.kind)),
        old(lock)@.code == PHASE_SETUP
            ==> result is Ok && final(lock)@
            == (PhasedLockState { code: PHASE_CLEANUP, ..old(lock)@ }),
        old(lock)@.code == PHASE_READ ==> final(lock)@ == (if old(lock)@.tokio is None {
            PhasedLockState {
                code: PHASE_CLEANUP,
                tokio: old(lock)@.fixed,
                fixed: None,
                ..old(lock)@
            }
        } else {
            PhasedLockState { code: PHASE_CLEANUP, ..old(lock)@ }
        }),
        old(lock)@.code == PHASE_READ ==> (result is Ok <==> old(lock)@.read_count == 0),
        old(lock)@.code == PHASE_READ && result is Err
            ==> (result matches Err(e) && e.phase == Phase::Cleanup && e.kind
            == PhasedErrorKind::TransitionToCleanupTimeout(WaitStrategy::GracefulWait { timeout })
            && e.source is None),
{
}

/// A cleanup of a lock for tasks with no wait or a fixed one arrives at `Cleanup` from `Setup`
/// and from `Read`.
pub proof fn law_cleanup_async_mutex_lock<T: Send + Sync>(
    lock: &mut PhasedLock<T>,
    wait_strategy: WaitStrategy,
    result: Result<(), PhasedError>,
)
    requires
        call_ensures(PhasedLock::<T>::transition_to_cleanup_async, (lock, wait_strategy), result),
        !(wait_strategy is GracefulWait),
    ensures
        old(lock)@.code != PHASE_SETUP && old(lock)@.code != PHASE_READ
            ==> final(lock)@ == old(lock)@ && (result matches Err(e) && e.source is None
            && shows(old(lock)@.code, e.phase)
            && is_lock_cleanup_refusal(old(lock)@.code, e.kind)),
        old(lock)@.code == PHASE_SETUP
            ==> result is Ok && final(lock)@
            == (PhasedLockState { code: PHASE_CLEANUP, ..old(lock)@ }),
        old(lock)@.code == PHASE_READ
            ==> result is Ok && final(lock)@ == (if old(lock)@.tokio is None {
            PhasedLockState {
                code: PHASE_CLEANUP,
                tokio: old(lock)@.fixed,
                fixed: None,
                ..old(lock)@
            }
        } else {
            PhasedLockState { code: PHASE_CLEANUP, ..old(lock)@ }
        }),
{
}

/// A cleanup of a lock for tasks with a graceful wait is `Ok` from `Read` exactly if no reader
/// is active.
pub proof fn law_cleanup_with_graceful_wait_async_mutex_lock<T: Send + Sync>(
    lock: &mut PhasedLock<T>,
    timeout: Duration,
    result: Result<(), PhasedError>,
)
    requires
        call_ensures(
            PhasedLock::<T>::transition_to_cleanup_async,
            (lock, WaitStrategy::GracefulWait { timeout }),
            result,
        ),
    ensures
        old(lock)@.code != PHASE_SETUP && old(lock)@.code != PHASE_READ
            ==> final(lock)@ == old(lock)@ && (result matches Err(e) && e.source is None
            && shows(old(lock)@.code, e.phase)
            && is_lock_cleanup_refusal(old(lock)@.code, e.kind)),
        old(lock)@.code == PHASE_SETUP
            ==> result is Ok && final(lock)@
            == (PhasedLockState { code: PHASE_CLEANUP, ..old(lock)@ }),
        old(lock)@.code == PHASE_READ ==> final(lock)@ == (if old(lock)@.tokio is None {
            PhasedLockState {
                code: PHASE_CLEANUP,
                tokio: old(lock)@.fixed,
                fixed: None,
                ..old(lock)@
            }
        } else {
            PhasedLockState { code: PHASE_CLEANUP, ..old(lock)@ }
        }),
        old(lock)@.code == PHASE_READ ==> (result is Ok <==> old(lock)@.read_count == 0),
        old(lock)@.code == PHASE_READ && result is Err
            ==> (result matches Err(e) && e.phase == Phase::Cleanup && e.kind
            == PhasedErrorKind::TransitionToCleanupTimeout(WaitStrategy::GracefulWait { timeout })
            && e.source is None),
{
}

/// The data of a lock for tasks can be changed exactly out of `Read`, where it is behind the
/// mutex, and what is written is what the lock holds then.
pub proof fn law_lock_for_update_async_mutex_lock<T: Send + Sync>(
    lock: &mut PhasedLock<T>,
    result: Result<PhasedTokioMutexGuard<'_, T>, PhasedError>,
)
    requires
        call_ensures(PhasedLock::<T>::lock_for_update_async, (lock,), result),
    ensures
        result is Ok <==> old(lock)@.code != PHASE_READ && old(lock)@.tokio is Some,
        result matches Ok(guard) ==> old(lock)@.tokio == Some(*guard.inner)
            && final(lock)@ == (PhasedLockState { tokio: Some(*final(guard.inner)), ..old(lock)@ }),
        result matches Err(e) ==> final(lock)@ == old(lock)@ && e.source is None
            && shows(old(lock)@.code, e.phase),
        old(lock)@.code == PHASE_READ
            ==> (result matches Err(e)
            && (e.kind matches PhasedErrorKind::CannotCallInReadPhase(text)
            && text@ == old(lock)@.lock_type + "<"@
            + old(lock)@.data_type + ">::"@ + "lock_for_update"@)),
        old(lock)@.code != PHASE_READ && old(lock)@.tokio is None
            ==> (result matches Err(e) && e.kind
            is InternalDataIsEmpty),
{
}

/// A reader of a lock for threads gets what the closure of the transition to `Read` left.
pub proof fn law_read_after_transition_mutex_lock<
    T: Send + Sync,
    F: FnOnce(&mut T) -> Result<(), E>,
    E,
>(
    lock: &mut PhasedLock<T>,
    reader: &PhasedLock<T>,
    f: F,
    rel: spec_fn(T, T, Result<(), E>) -> bool,
    result: Result<(), PhasedError<E>>,
    read: Result<&T, PhasedError>,
)
    requires
        call_ensures(PhasedLock::<T>::transition_to_read::<F, E>, (lock, f), result),
        forall|d: &mut T, r: Result<(), E>| #[trigger] f.ensures((d,), r) ==> rel(*d, *final(d), r),
        call_ensures(PhasedLock::<T>::read_fast, (reader,), read),
        *final(lock) == *reader,
        result is Ok,
        !old(lock)@.poisoned,
        old(lock)@.std is Some,
    ensures
        read is Ok,
        exists|ran: Result<(), E>| #[trigger] rel(old(lock)@.std->0, *read->Ok_0, ran) && ran is Ok,
{
}

/// What a lock with a mutex asks of its callers: a closure that can be called, of one that ends
/// a transition that it is in progress, and of a reader that the count has room.
pub proof fn law_calls_of_mutex_lock<T: Send + Sync, F: FnOnce(&mut T) -> Result<(), E>, E>(
    lock: &mut PhasedLock<T>,
    on_runtime: bool,
    timed_out: bool,
    timeout: Duration,
    f: F,
)
    requires
        forall|d: &mut T| #[trigger] f.requires((d,)),
    ensures
        call_requires(PhasedLock::<T>::transition_to_read::<F, E>, (lock, f)),
        call_requires(PhasedLock::<T>::transition_to_read_unless::<F, E>, (lock, on_runtime, f)),
        call_requires(PhasedLock::<T>::transition_to_read_async::<F, E>, (lock, f)),
        old(lock)@.code == PHASE_SETUP_TO_READ ==> call_requires(
            PhasedLock::<T>::finish_transition_to_read::<F, E>,
            (lock, f),
        ),
        old(lock)@.code == PHASE_SETUP_TO_READ ==> call_requires(
            PhasedLock::<T>::finish_transition_to_read_async::<F, E>,
            (lock, f),
        ),
        old(lock)@.code == PHASE_READ_TO_CLEANUP ==> call_requires(
            PhasedLock::<T>::end_transition_to_cleanup_gracefully,
            (lock, timed_out, timeout),
        ),
        old(lock)@.code == PHASE_READ_TO_CLEANUP ==> call_requires(
            PhasedLock::<T>::end_transition_to_cleanup_async,
            (lock, Some(timeout)),
        ),
        old(lock)@.read_count < usize::MAX ==> call_requires(
            PhasedLock::<T>::read_gracefully,
            (lock,),
        ),
{
}

} // verus!
