//! What the operations of `lock::task_lock::PhasedLock` do, said of their arguments and results
//! alone.

use super::words::{is_lock_cleanup_refusal, is_lock_read_refusal, shows};
use crate::graceful::wait::CountDown;
use crate::lock::guards::PhasedMutexGuard;
use crate::lock::mutex_lock::PhasedLockState;
use crate::lock::task_lock::PhasedLock;
use crate::lock::{PhasedError, PhasedErrorKind, WaitStrategy};
use crate::phase::{
    Phase, PHASE_CLEANUP, PHASE_READ, PHASE_READ_TO_CLEANUP, PHASE_SETUP, PHASE_SETUP_TO_READ,
};
use std::time::Duration;
use vstd::prelude::*;

verus! {

/// A new lock that is for tasks only is in `Setup` and keeps its data behind its mutex and
/// nowhere else.
pub proof fn law_new_task_lock<T: Send + Sync>(
    data: T,
    data_type: &'static str,
    lock: PhasedLock<T>,
)
    requires
        call_ensures(PhasedLock::<T>::new, (data, data_type), lock),
    ensures
        lock@.code == PHASE_SETUP,
        lock@.data_type == data_type@,
        lock@.lock_type == "setup_read_cleanup::tokio::PhasedLock"@,
        lock@.read_count == 0,
        !lock@.poisoned,
        lock@.rings.all == 0 && lock@.rings.one == 0,
        lock@.std is None,
        lock@.tokio == Some(data),
        lock@.fixed is None,
{
}

/// The phase that a lock shows, by either method.
pub proof fn law_phase_task_lock<T: Send + Sync>(lock: &PhasedLock<T>, exact: Phase, fast: Phase)
    requires
        call_ensures(PhasedLock::<T>::phase_exact, (lock,), exact),
        call_ensures(PhasedLock::<T>::phase_fast, (lock,), fast),
    ensures
        fast == exact,
        exact is Setup <==> lock@.code == PHASE_SETUP || lock@.code == PHASE_SETUP_TO_READ,
        exact is Read <==> lock@.code == PHASE_READ,
{
}

/// `read_fast` gives the data exactly in `Read`, where it is in the open.
pub proof fn law_read_fast_task_lock<T: Send + Sync>(
    lock: &PhasedLock<T>,
    result: Result<&T, PhasedError>,
)
    requires
        call_ensures(PhasedLock::<T>::read_fast, (lock,), result),
    ensures
        result is Ok <==> lock@.code == PHASE_READ && lock@.fixed is Some,
        result matches Ok(data) ==> lock@.fixed == Some(*data),
        result matches Err(e) ==> e.source is None && shows(lock@.code, e.phase),
        lock@.code != PHASE_READ ==> (result matches Err(e)
            && (e.kind matches PhasedErrorKind::CannotCallOutOfReadPhase(text)
            && text@ == lock@.lock_type + "<"@
            + lock@.data_type + ">::"@ + "read_fast"@)),
        lock@.code == PHASE_READ && lock@.fixed is None
            ==> (result matches Err(e) && e.kind is InternalDataIsEmpty),
{
}

/// `read_gracefully` gives the data exactly in `Read`, where it is in the open, and counts the
/// reader exactly in `Read`.
pub proof fn law_read_gracefully_task_lock<T: Send + Sync>(
    lock: &mut PhasedLock<T>,
    result: Result<&T, PhasedError>,
)
    requires
        call_ensures(PhasedLock::<T>::read_gracefully, (lock,), result),
    ensures
        result is Ok <==> old(lock)@.code == PHASE_READ && old(lock)@.fixed is Some,
        result matches Ok(data) ==> old(lock)@.fixed == Some(*data),
        result matches Err(e) ==> e.source is None && shows(old(lock)@.code, e.phase),
        old(lock)@.code != PHASE_READ
            ==> (result matches Err(e)
            && (e.kind matches PhasedErrorKind::CannotCallOutOfReadPhase(text)
            && text@ == old(lock)@.lock_type + "<"@
            + old(lock)@.data_type + ">::"@ + "read_gracefully"@)),
        old(lock)@.code == PHASE_READ && old(lock)@.fixed is None
            ==> (result matches Err(e) && e.kind is InternalDataIsEmpty),
        old(lock)@.code != PHASE_READ ==> final(lock)@ == old(lock)@,
        old(lock)@.code == PHASE_READ && old(lock)@.read_count < usize::MAX
            ==> final(lock)@.read_count
            == old(lock)@.read_count + 1,
        final(lock)@ == (PhasedLockState { read_count: final(lock)@.read_count, ..old(lock)@ }),
{
}

/// Reading and then finishing leaves a lock in `Read` as it was, for every count of readers.
pub proof fn law_finishing_undoes_reading_task_lock<T: Send + Sync>(
    reading: &mut PhasedLock<T>,
    finishing: &mut PhasedLock<T>,
    result: Result<&T, PhasedError>,
    counted: Result<CountDown, PhasedError>,
)
    requires
        call_ensures(PhasedLock::<T>::read_gracefully, (reading,), result),
        call_ensures(PhasedLock::<T>::finish_reading_gracefully, (finishing,), counted),
        *final(reading) == *old(finishing),
        old(reading)@.code == PHASE_READ,
        old(reading)@.read_count < usize::MAX,
    ensures
        final(finishing)@ == old(reading)@,
{
}

/// One who finishes reading a lock past `Setup` lowers the count of readers by exactly one,
/// where there is one, and wakes one task exactly if it was the last one that a cleanup waits
/// for.
pub proof fn law_finish_reading_task_lock<T: Send + Sync>(
    lock: &mut PhasedLock<T>,
    result: Result<CountDown, PhasedError>,
)
    requires
        call_ensures(PhasedLock::<T>::finish_reading_gracefully, (lock,), result),
    ensures
        (old(lock)@.code == PHASE_SETUP || old(lock)@.code == PHASE_SETUP_TO_READ)
            ==> final(lock)@ == old(lock)@ && (result matches Err(e) && e.phase == Phase::Setup
            && e.source is None && (e.kind matches PhasedErrorKind::CannotCallInSetupPhase(text)
            && text@ == old(lock)@.lock_type + "<"@
            + old(lock)@.data_type + ">::"@ + "finish_reading_gracefully"@)),
        !(old(lock)@.code == PHASE_SETUP || old(lock)@.code == PHASE_SETUP_TO_READ)
            && old(lock)@.read_count == 0
            ==> final(lock)@ == old(lock)@ && result == Ok::<CountDown, PhasedError>(
            CountDown::Excessive,
        ),
        !(old(lock)@.code == PHASE_SETUP || old(lock)@.code == PHASE_SETUP_TO_READ)
            && old(lock)@.read_count > 0 ==> final(lock)@.read_count == old(lock)@.read_count - 1,
        !(old(lock)@.code == PHASE_SETUP || old(lock)@.code == PHASE_SETUP_TO_READ)
            && old(lock)@.read_count > 0 ==> result == Ok::<CountDown, PhasedError>(
            CountDown::Counted { wakes: old(lock)@.read_count == 1
                && old(lock)@.code == PHASE_READ_TO_CLEANUP },
        ),
        final(lock)@.rings.all == old(lock)@.rings.all,
        final(lock)@.rings.one == old(lock)@.rings.one + (if old(lock)@.read_count == 1
            && old(lock)@.code == PHASE_READ_TO_CLEANUP {
            1int
        } else {
            0
        }),
        final(lock)@ == (PhasedLockState {
            read_count: final(lock)@.read_count,
            rings: final(lock)@.rings,
            ..old(lock)@
        }),
{
}

/// `transition_to_read` of a lock for tasks arrives at `Read`, with what the closure left in
/// the open, exactly if the closure succeeds; otherwise the lock is in `Setup` with what the
/// closure left behind the mutex.
pub proof fn law_read_transition_task_lock<T: Send + Sync, F: FnOnce(&mut T) -> Result<(), E>, E>(
    lock: &mut PhasedLock<T>,
    f: F,
    rel: spec_fn(T, T, Result<(), E>) -> bool,
    result: Result<(), PhasedError<E>>,
)
    requires
        call_ensures(PhasedLock::<T>::transition_to_read::<F, E>, (lock, f), result),
        forall|d: &mut T, r: Result<(), E>| #[trigger] f.ensures((d,), r) ==> rel(*d, *final(d), r),
    ensures
        old(lock)@.code != PHASE_SETUP
            ==> final(lock)@ == old(lock)@ && (result matches Err(e) && e.source is None
            && shows(old(lock)@.code, e.phase)
            && is_lock_read_refusal(old(lock)@.code, e.kind)),
        old(lock)@.code == PHASE_SETUP && old(lock)@.tokio is None
            ==> result is Ok && final(lock)@
            == (PhasedLockState { code: PHASE_READ, ..old(lock)@ }),
        old(lock)@.code == PHASE_SETUP && old(lock)@.tokio is Some
            ==> exists|left: T, ran: Result<(), E>|
            {
                &&& #[trigger] rel(old(lock)@.tokio->0, left, ran)
                &&& ran is Ok ==> result is Ok
                    && final(lock)@ == (PhasedLockState { code: PHASE_READ, tokio: old(lock)@.fixed, fixed: Some(left), ..old(lock)@ })
                &&& ran matches Err(source)
                    ==> (result matches Err(e) && e.phase == Phase::Setup && e.kind
                    is FailToRunClosureDuringTransitionToRead && e.source == Some(source))
                        && final(lock)@ == (PhasedLockState { code: PHASE_SETUP, tokio: Some(left), ..old(lock)@ })
            },
{
}

/// A cleanup of a lock for tasks with no wait or a fixed one arrives at `Cleanup` from `Setup`
/// and from `Read`.
pub proof fn law_cleanup_task_lock<T: Send + Sync>(
    lock: &mut PhasedLock<T>,
    wait_strategy: WaitStrategy,
    result: Result<(), PhasedError>,
)
    requires
        call_ensures(PhasedLock::<T>::transition_to_cleanup, (lock, wait_strategy), result),
        !(wait_strategy is GracefulWait),
    ensures
        old(lock)@.code != PHASE_SETUP && old(lock)@.code != PHASE_READ
            ==> final(lock)@ == old(lock)@ && (result matches Err(e) && e.source is None
            && shows(old(lock)@.code, e.phase)
            && is_lock_cleanup_refusal(old(lock)@.code, e.kind)),
        old(lock)@.code == PHASE_SETUP
            ==> result is Ok && final(lock)@
            == (PhasedLockState { code: PHASE_CLEANUP, ..old(lock)@ }),
        old(lock)@.code == PHASE_READ
            ==> result is Ok && final(lock)@ == (if old(lock)@.tokio is None {
            PhasedLockState {
                code: PHASE_CLEANUP,
                tokio: old(lock)@.fixed,
                fixed: None,
                ..old(lock)@
            }
        } else {
            PhasedLockState { code: PHASE_CLEANUP, ..old(lock)@ }
        }),
{
}

/// A cleanup of a lock for tasks with a graceful wait is `Ok` from `Read` exactly if no reader
/// is active.
pub proof fn law_cleanup_with_graceful_wait_task_lock<T: Send + Sync>(
    lock: &mut PhasedLock<T>,
    timeout: Duration,
    result: Result<(), PhasedError>,
)
    requires
        call_ensures(
            PhasedLock::<T>::transition_to_cleanup,
            (lock, WaitStrategy::GracefulWait { timeout }),
            result,
        ),
    ensures
        old(lock)@.code != PHASE_SETUP && old(lock)@.code != PHASE_READ
            ==> final(lock)@ == old(lock)@ && (result matches Err(e) && e.source is None
            && shows(old(lock)@.code, e.phase)
            && is_lock_cleanup_refusal(old(lock)@.code, e.kind)),
        old(lock)@.code == PHASE_SETUP
            ==> result is Ok && final(lock)@
            == (PhasedLockState { code: PHASE_CLEANUP, ..old(lock)@ }),
        old(lock)@.code == PHASE_READ ==> final(lock)@ == (if old(lock)@.tokio is None {
            PhasedLockState {
                code: PHASE_CLEANUP,
                tokio: old(lock)@.fixed,
                fixed: None,
                ..old(lock)@
            }
        } else {
            PhasedLockState { code: PHASE_CLEANUP, ..old(lock)@ }
        }),
        old(lock)@.code == PHASE_READ ==> (result is Ok <==> old(lock)@.read_count == 0),
        old(lock)@.code == PHASE_READ && result is Err
            ==> (result matches Err(e) && e.phase == Phase::Cleanup && e.kind
            == PhasedErrorKind::TransitionToCleanupTimeout(WaitStrategy::GracefulWait { timeout })
            && e.source is None),
{
}

/// The data of a lock for tasks can be changed exactly out of `Read`, where it is behind the
/// mutex, and what is written is what the lock holds then.
pub proof fn law_lock_for_update_task_lock<T: Send + Sync>(
    lock: &mut PhasedLock<T>,
    result: Result<PhasedMutexGuard<'_, T>, PhasedError>,
)
    requires
        call_ensures(PhasedLock::<T>::lock_for_update, (lock,), result),
    ensures
        result is Ok <==> old(lock)@.code != PHASE_READ && old(lock)@.tokio is Some,
        result matches Ok(guard) ==> old(lock)@.tokio == Some(*guard.inner)
            && final(lock)@ == (PhasedLockState { tokio: Some(*final(guard.inner)), ..old(lock)@ }),
        result matches Err(e) ==> final(lock)@ == old(lock)@ && e.source is None
            && shows(old(lock)@.code, e.phase),
        old(lock)@.code == PHASE_READ
            ==> (result matches Err(e)
            && (e.kind matches PhasedErrorKind::CannotCallInReadPhase(text)
            && text@ == old(lock)@.lock_type + "<"@
            + old(lock)@.data_type + ">::"@ + "lock_for_update"@)),
        old(lock)@.code != PHASE_READ && old(lock)@.tokio is None
            ==> (result matches Err(e) && e.kind
            is InternalDataIsEmpty),
{
}

/// What a lock that is for tasks only asks of its callers: a closure that can be called, and of
/// a reader that the count has room.
pub proof fn law_calls_of_task_lock<T: Send + Sync, F: FnOnce(&mut T) -> Result<(), E>, E>(
    lock: &mut PhasedLock<T>,
    f: F,
)
    requires
        forall|d: &mut T| #[trigger] f.requires((d,)),
    ensures
        call_requires(PhasedLock::<T>::transition_to_read::<F, E>, (lock, f)),
        old(lock)@.read_count < usize::MAX ==> call_requires(
            PhasedLock::<T>::read_gracefully,
            (lock,),
        ),
{
}

} // verus!
