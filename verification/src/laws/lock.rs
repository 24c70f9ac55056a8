//! What the operations of `lock::PhasedLock` do, said of their arguments and results alone.

use super::words::{is_lock_cleanup_refusal, is_lock_read_refusal, shows};
use crate::graceful::wait::{CountDown, WaitStep};
use crate::lock::phased_lock::{PhasedLock, PhasedLockState};
use crate::lock::{PhasedError, PhasedErrorKind, WaitStrategy};
use crate::locking::{Cleanup, Setup};
use crate::phase::{
    Phase, PHASE_CLEANUP, PHASE_READ, PHASE_READ_TO_CLEANUP, PHASE_SETUP, PHASE_SETUP_TO_READ,
};
use crate::time::duration_nanos;
use std::time::Duration;
use vstd::prelude::*;

verus! {

/// A new lock is in `Setup`, has its strategies, and keeps its data where the strategy for
/// `Setup` says and nowhere else.
pub proof fn law_new_lock<T: Send + Sync>(
    data: T,
    data_type: &'static str,
    setup: Setup,
    cleanup: Cleanup,
    lock: PhasedLock<T>,
)
    requires
        call_ensures(PhasedLock::<T>::new, (data, data_type, setup, cleanup), lock),
    ensures
        lock@.code == PHASE_SETUP,
        lock@.setup == setup,
        lock@.cleanup == cleanup,
        lock@.data_type == data_type@,
        lock@.read_count == 0,
        !lock@.flag,
        !lock@.poisoned,
        lock@.rings.all == 0 && lock@.rings.one == 0,
        setup is Unlock ==> lock@.fixed == Some(data) && lock@.std is None && lock@.tokio is None,
        setup is Blocking ==> lock@.std == Some(data) && lock@.fixed is None && lock@.tokio is None,
        setup is NonBlocking ==> lock@.tokio == Some(data) && lock@.fixed is None
            && lock@.std is None,
{
}

/// The phase that a lock shows, by either method.
pub proof fn law_phase_lock<T: Send + Sync>(lock: &PhasedLock<T>, exact: Phase, fast: Phase)
    requires
        call_ensures(PhasedLock::<T>::phase_exact, (lock,), exact),
        call_ensures(PhasedLock::<T>::phase_fast, (lock,), fast),
    ensures
        fast == exact,
        exact is Setup <==> lock@.code == PHASE_SETUP || lock@.code == PHASE_SETUP_TO_READ,
        exact is Read <==> lock@.code == PHASE_READ,
{
}

/// `read_fast` gives the data exactly in `Read`, where it is in the open.
pub proof fn law_read_fast_lock<T: Send + Sync>(
    lock: &PhasedLock<T>,
    result: Result<&T, PhasedError>,
)
    requires
        call_ensures(PhasedLock::<T>::read_fast, (lock,), result),
    ensures
        result is Ok <==> lock@.code == PHASE_READ && lock@.fixed is Some,
        result matches Ok(data) ==> lock@.fixed == Some(*data),
        result matches Err(e) ==> e.source is None && shows(lock@.code, e.phase),
        lock@.code != PHASE_READ ==> (result matches Err(e)
            && (e.kind matches PhasedErrorKind::CannotCallUnlessPhaseRead(text)
            && text@ == "setup_read_cleanup::PhasedLock"@ + "<"@
            + lock@.data_type + ">::"@ + "read_fast"@)),
        lock@.code == PHASE_READ && lock@.fixed is None
            ==> (result matches Err(e) && e.kind is InternalDataUnavailable),
{
}

/// `read_gracefully` gives the data exactly in `Read`, where it is in the open, and counts the
/// reader exactly in `Read`.
pub proof fn law_read_gracefully_lock<T: Send + Sync>(
    lock: &mut PhasedLock<T>,
    result: Result<&T, PhasedError>,
)
    requires
        call_ensures(PhasedLock::<T>::read_gracefully, (lock,), result),
    ensures
        result is Ok <==> old(lock)@.code == PHASE_READ && old(lock)@.fixed is Some,
        result matches Ok(data) ==> old(lock)@.fixed == Some(*data),
        result matches Err(e) ==> e.source is None && shows(old(lock)@.code, e.phase),
        old(lock)@.code != PHASE_READ
            ==> (result matches Err(e)
            && (e.kind matches PhasedErrorKind::CannotCallUnlessPhaseRead(text)
            && text@ == "setup_read_cleanup::PhasedLock"@ + "<"@
            + old(lock)@.data_type + ">::"@ + "read_gracefully"@)),
        old(lock)@.code == PHASE_READ && old(lock)@.fixed is None
            ==> (result matches Err(e) && e.kind is InternalDataUnavailable),
        old(lock)@.code != PHASE_READ ==> final(lock)@ == old(lock)@,
        old(lock)@.code == PHASE_READ && old(lock)@.read_count < usize::MAX
            ==> final(lock)@.read_count
            == old(lock)@.read_count + 1,
        final(lock)@ == (PhasedLockState { read_count: final(lock)@.read_count, ..old(lock)@ }),
{
}

/// Reading and then finishing leaves a lock in `Read` as it was, for every count of readers.
pub proof fn law_finishing_undoes_reading_lock<T: Send + Sync>(
    reading: &mut PhasedLock<T>,
    finishing: &mut PhasedLock<T>,
    result: Result<&T, PhasedError>,
    counted: Result<CountDown, PhasedError>,
)
    requires
        call_ensures(PhasedLock::<T>::read_gracefully, (reading,), result),
        call_ensures(PhasedLock::<T>::finish_reading_gracefully, (finishing,), counted),
        *final(reading) == *old(finishing),
        old(reading)@.code == PHASE_READ,
        old(reading)@.read_count < usize::MAX,
    ensures
        final(finishing)@ == old(reading)@,
{
}

/// The count that a lock tells is that of its readers.
pub proof fn law_read_count_lock<T: Send + Sync>(lock: &PhasedLock<T>, count: usize)
    requires
        call_ensures(PhasedLock::<T>::read_count, (lock,), count),
    ensures
        count == lock@.read_count,
{
}

/// One who finishes reading a lock past `Setup` lowers the count of readers by exactly one,
/// where there is one. The last one tells one that waits to clean up, and wakes a task exactly
/// if the strategy for `Cleanup` is not to block.
pub proof fn law_finish_reading_lock<T: Send + Sync>(
    lock: &mut PhasedLock<T>,
    result: Result<CountDown, PhasedError>,
)
    requires
        call_ensures(PhasedLock::<T>::finish_reading_gracefully, (lock,), result),
    ensures
        (old(lock)@.code == PHASE_SETUP || old(lock)@.code == PHASE_SETUP_TO_READ)
            ==> final(lock)@ == old(lock)@ && (result matches Err(e) && e.phase == Phase::Setup
            && e.source is None && (e.kind matches PhasedErrorKind::CannotCallOnPhaseSetup(text)
            && text@ == "setup_read_cleanup::PhasedLock"@ + "<"@
            + old(lock)@.data_type + ">::"@ + "finish_reading_gracefully"@)),
        !(old(lock)@.code == PHASE_SETUP || old(lock)@.code == PHASE_SETUP_TO_READ)
            && old(lock)@.read_count == 0
            ==> final(lock)@ == old(lock)@ && result == Ok::<CountDown, PhasedError>(
            CountDown::Excessive,
        ),
        !(old(lock)@.code == PHASE_SETUP || old(lock)@.code == PHASE_SETUP_TO_READ)
            && old(lock)@.read_count > 0 ==> final(lock)@.read_count == old(lock)@.read_count - 1,
        !(old(lock)@.code == PHASE_SETUP || old(lock)@.code == PHASE_SETUP_TO_READ)
            && old(lock)@.read_count == 1 && old(lock)@.poisoned
            ==> (result matches Err(e) && shows(
            old(lock)@.code,
            e.phase,
        ) && e.kind is StdMutexIsPoisoned && e.source is None),
        !(old(lock)@.code == PHASE_SETUP || old(lock)@.code == PHASE_SETUP_TO_READ)
            && old(lock)@.read_count > 0 && !(old(lock)@.read_count == 1 && old(lock)@.poisoned)
            ==> result == Ok::<
            CountDown,
            PhasedError,
        >(CountDown::Counted { wakes: old(lock)@.read_count == 1 && !old(lock)@.poisoned
            && old(lock)@.code == PHASE_READ_TO_CLEANUP }),
        final(lock)@.flag <==> old(lock)@.flag || old(lock)@.read_count == 1
            && !old(lock)@.poisoned && old(lock)@.code == PHASE_READ_TO_CLEANUP,
        final(lock)@.rings.all == old(lock)@.rings.all,
        final(lock)@.rings.one == old(lock)@.rings.one + (if old(lock)@.read_count == 1
            && !old(lock)@.poisoned && old(lock)@.code == PHASE_READ_TO_CLEANUP
            && old(lock)@.cleanup is NonBlocking {
            1int
        } else {
            0
        }),
        final(lock)@ == (PhasedLockState {
            read_count: final(lock)@.read_count,
            flag: final(lock)@.flag,
            rings: final(lock)@.rings,
            ..old(lock)@
        }),
{
}

/// Poisoning the mutex of the wait changes nothing else.
pub proof fn law_poison_lock<T: Send + Sync>(lock: &mut PhasedLock<T>)
    requires
        call_ensures(PhasedLock::<T>::poison, (lock,), ()),
    ensures
        final(lock)@ == (PhasedLockState { poisoned: true, ..old(lock)@ }),
{
}

/// A graceful cleanup begins exactly in `Setup` and in `Read`, where the mutex of the wait is
/// sound; from `Setup` it arrives at once.
pub proof fn law_begin_graceful_cleanup_lock<T: Send + Sync>(
    lock: &mut PhasedLock<T>,
    result: Result<(), PhasedError>,
)
    requires
        call_ensures(PhasedLock::<T>::begin_transition_to_cleanup_gracefully, (lock,), result),
    ensures
        result is Ok <==> !old(lock)@.poisoned && (old(lock)@.code == PHASE_SETUP
            || old(lock)@.code == PHASE_READ),
        result is Ok && old(lock)@.code == PHASE_SETUP
            ==> final(lock)@ == (PhasedLockState { code: PHASE_CLEANUP, ..old(lock)@ }),
        result is Ok && old(lock)@.code == PHASE_READ
            ==> final(lock)@ == (PhasedLockState { code: PHASE_READ_TO_CLEANUP, ..old(lock)@ }),
        result is Err ==> final(lock)@ == old(lock)@,
        old(lock)@.poisoned ==> (result matches Err(e) && shows(old(lock)@.code, e.phase)
            && e.kind is StdMutexIsPoisoned
            && e.source is None),
        !old(lock)@.poisoned && old(lock)@.code != PHASE_SETUP && old(lock)@.code != PHASE_READ
            ==> (result matches Err(e) && e.source is None && shows(old(lock)@.code, e.phase)
            && is_lock_cleanup_refusal(old(lock)@.code, e.kind)),
{
}

/// A wait for the readers is over exactly if there were none, the last one has told, or the
/// time is up, and otherwise lasts for the rest of its time.
pub proof fn law_wait_for_readers_lock<T: Send + Sync>(
    lock: &PhasedLock<T>,
    count: usize,
    timeout: Duration,
    elapsed: u128,
    result: Result<WaitStep, PhasedError>,
)
    requires
        call_ensures(PhasedLock::<T>::wait_for_readers, (lock, count, timeout, elapsed), result),
    ensures
        result == Ok::<WaitStep, PhasedError>(WaitStep::Finished) <==> count == 0 || lock@.flag,
        result == Ok::<WaitStep, PhasedError>(WaitStep::TimedOut)
            <==> count > 0 && !lock@.flag && !lock@.poisoned
            && elapsed >= duration_nanos(timeout),
        result is Err <==> count > 0 && !lock@.flag && lock@.poisoned,
        result matches Err(e) ==> e.phase == Phase::Cleanup && e.kind is StdMutexIsPoisoned
            && e.source is None,
        result matches Ok(WaitStep::Park(nanos))
            ==> nanos > 0 && elapsed + nanos == duration_nanos(timeout),
{
}

/// The end of a graceful cleanup arrives at `Cleanup`, and is an error exactly if the time was
/// up and readers are left.
pub proof fn law_end_graceful_cleanup_lock<T: Send + Sync>(
    lock: &mut PhasedLock<T>,
    timed_out: bool,
    timeout: Duration,
    result: Result<(), PhasedError>,
)
    requires
        call_ensures(
            PhasedLock::<T>::end_transition_to_cleanup_gracefully,
            (lock, timed_out, timeout),
            result,
        ),
    ensures
        result is Ok <==> !timed_out || old(lock)@.read_count == 0,
        result is Err ==> (result matches Err(e) && e.phase == Phase::Cleanup && e.kind
            == PhasedErrorKind::TransitionToCleanupTimeout(WaitStrategy::GracefulWait { timeout })
            && e.source is None),
        old(lock)@.code == PHASE_READ_TO_CLEANUP
            ==> final(lock)@ == (PhasedLockState { code: PHASE_CLEANUP, ..old(lock)@ }),
        old(lock)@.code != PHASE_READ_TO_CLEANUP ==> final(lock)@ == old(lock)@,
{
}

/// A graceful cleanup by one that owns the lock arrives at `Cleanup` from `Setup` and from
/// `Read`, and from `Read` is `Ok` exactly if no reader is left or the last one has told.
pub proof fn law_graceful_cleanup_lock<T: Send + Sync>(
    lock: &mut PhasedLock<T>,
    timeout: Duration,
    result: Result<(), PhasedError>,
)
    requires
        call_ensures(PhasedLock::<T>::transition_to_cleanup_gracefully, (lock, timeout), result),
    ensures
        old(lock)@.poisoned ==> final(lock)@ == old(lock)@ && (result matches Err(e)
            && shows(old(lock)@.code, e.phase) && e.kind is StdMutexIsPoisoned
            && e.source is None),
        !old(lock)@.poisoned && old(lock)@.code != PHASE_SETUP && old(lock)@.code != PHASE_READ
            ==> final(lock)@ == old(lock)@ && (result matches Err(e) && e.source is None
            && shows(old(lock)@.code, e.phase)
            && is_lock_cleanup_refusal(old(lock)@.code, e.kind)),
        !old(lock)@.poisoned && old(lock)@.code == PHASE_SETUP
            ==> result is Ok && final(lock)@
            == (PhasedLockState { code: PHASE_CLEANUP, ..old(lock)@ }),
        !old(lock)@.poisoned && old(lock)@.code == PHASE_READ
            ==> final(lock)@ == (PhasedLockState { code: PHASE_CLEANUP, ..old(lock)@ }),
        !old(lock)@.poisoned && old(lock)@.code == PHASE_READ ==> (result is Ok <==> old(lock)@.flag
            || old(lock)@.read_count == 0),
        !old(lock)@.poisoned && old(lock)@.code == PHASE_READ && result is Err
            ==> (result matches Err(e) && e.phase == Phase::Cleanup && e.kind
            == PhasedErrorKind::TransitionToCleanupTimeout(WaitStrategy::GracefulWait { timeout })
            && e.source is None),
{
}

/// A cleanup without a wait succeeds exactly in `Setup` and in `Read`, and arrives at `Cleanup`
/// then.
pub proof fn law_simple_cleanup_lock<T: Send + Sync>(
    lock: &mut PhasedLock<T>,
    result: Result<(), PhasedError>,
)
    requires
        call_ensures(PhasedLock::<T>::transition_to_cleanup_simply, (lock,), result),
    ensures
        result is Ok <==> old(lock)@.code == PHASE_SETUP || old(lock)@.code == PHASE_READ,
        result is Ok ==> final(lock)@ == (PhasedLockState { code: PHASE_CLEANUP, ..old(lock)@ }),
        result is Err ==> final(lock)@ == old(lock)@,
        old(lock)@.code != PHASE_SETUP && old(lock)@.code != PHASE_READ
            ==> (result matches Err(e) && e.source is None && shows(old(lock)@.code, e.phase)
            && is_lock_cleanup_refusal(old(lock)@.code, e.kind)),
{
}

/// A cleanup with no wait or a fixed one succeeds exactly in `Setup` and in `Read`, and arrives
/// at `Cleanup` then.
pub proof fn law_cleanup_lock<T: Send + Sync>(
    lock: &mut PhasedLock<T>,
    strategy: WaitStrategy,
    result: Result<(), PhasedError>,
)
    requires
        call_ensures(PhasedLock::<T>::transition_to_cleanup, (lock, strategy), result),
        !(strategy is GracefulWait),
    ensures
        result is Ok <==> old(lock)@.code == PHASE_SETUP || old(lock)@.code == PHASE_READ,
        result is Ok ==> final(lock)@ == (PhasedLockState { code: PHASE_CLEANUP, ..old(lock)@ }),
        result is Err ==> final(lock)@ == old(lock)@,
        old(lock)@.code != PHASE_SETUP && old(lock)@.code != PHASE_READ
            ==> (result matches Err(e) && e.source is None && shows(old(lock)@.code, e.phase)
            && is_lock_cleanup_refusal(old(lock)@.code, e.kind)),
{
}

/// A cleanup with a graceful wait is a graceful cleanup.
pub proof fn law_cleanup_with_graceful_wait_lock<T: Send + Sync>(
    lock: &mut PhasedLock<T>,
    timeout: Duration,
    result: Result<(), PhasedError>,
)
    requires
        call_ensures(
            PhasedLock::<T>::transition_to_cleanup,
            (lock, WaitStrategy::GracefulWait { timeout }),
            result,
        ),
    ensures
        old(lock)@.poisoned ==> final(lock)@ == old(lock)@ && (result matches Err(e)
            && shows(old(lock)@.code, e.phase) && e.kind is StdMutexIsPoisoned
            && e.source is None),
        !old(lock)@.poisoned && old(lock)@.code != PHASE_SETUP && old(lock)@.code != PHASE_READ
            ==> final(lock)@ == old(lock)@ && (result matches Err(e) && e.source is None
            && shows(old(lock)@.code, e.phase)
            && is_lock_cleanup_refusal(old(lock)@.code, e.kind)),
        !old(lock)@.poisoned && old(lock)@.code == PHASE_SETUP
            ==> result is Ok && final(lock)@
            == (PhasedLockState { code: PHASE_CLEANUP, ..old(lock)@ }),
        !old(lock)@.poisoned && old(lock)@.code == PHASE_READ
            ==> final(lock)@ == (PhasedLockState { code: PHASE_CLEANUP, ..old(lock)@ }),
        !old(lock)@.poisoned && old(lock)@.code == PHASE_READ ==> (result is Ok <==> old(lock)@.flag
            || old(lock)@.read_count == 0),
        !old(lock)@.poisoned && old(lock)@.code == PHASE_READ && result is Err
            ==> (result matches Err(e) && e.phase == Phase::Cleanup && e.kind
            == PhasedErrorKind::TransitionToCleanupTimeout(WaitStrategy::GracefulWait { timeout })
            && e.source is None),
{
}

/// A transition to `Read` begins exactly in `Setup`.
pub proof fn law_begin_read_lock<T: Send + Sync>(
    lock: &mut PhasedLock<T>,
    result: Result<(), PhasedError>,
)
    requires
        call_ensures(PhasedLock::<T>::begin_transition_to_read, (lock,), result),
    ensures
        result is Ok <==> old(lock)@.code == PHASE_SETUP,
        result is Ok ==> final(lock)@
            == (PhasedLockState { code: PHASE_SETUP_TO_READ, ..old(lock)@ }),
        result is Err ==> final(lock)@ == old(lock)@ && (result matches Err(e) && e.source is None
            && shows(old(lock)@.code, e.phase)
            && is_lock_read_refusal(old(lock)@.code, e.kind)),
{
}

/// `finish_transition_to_read` arrives at `Read` with what the closure left, exactly if the
/// closure succeeds; otherwise the lock is in `Setup` with what the closure left.
pub proof fn law_finish_read_lock<T: Send + Sync, F: FnOnce(&mut T) -> Result<(), E>, E>(
    lock: &mut PhasedLock<T>,
    f: F,
    rel: spec_fn(T, T, Result<(), E>) -> bool,
    result: Result<(), PhasedError<E>>,
)
    requires
        call_ensures(PhasedLock::<T>::finish_transition_to_read::<F, E>, (lock, f), result),
        forall|d: &mut T, r: Result<(), E>| #[trigger] f.ensures((d,), r) ==> rel(*d, *final(d), r),
    ensures
        old(lock)@.code == PHASE_SETUP_TO_READ && old(lock)@.fixed is None
            ==> final(lock)@ == (PhasedLockState { code: PHASE_SETUP, ..old(lock)@ })
            && (result matches Err(e) && e.phase == Phase::Setup
            && e.kind is InternalDataUnavailable && e.source is None),
        old(lock)@.code == PHASE_SETUP_TO_READ && old(lock)@.fixed is Some
            ==> exists|left: T, ran: Result<(), E>|
            {
                &&& #[trigger] rel(old(lock)@.fixed->0, left, ran)
                &&& ran is Ok ==> result is Ok
                    && final(lock)@ == (PhasedLockState { code: PHASE_READ, fixed: Some(left), ..old(lock)@ })
                &&& ran matches Err(source)
                    ==> (result matches Err(e) && e.phase == Phase::Setup && e.kind
                    is FailToRunClosureDuringTransitionToRead && e.source == Some(source))
                        && final(lock)@ == (PhasedLockState { code: PHASE_SETUP, fixed: Some(left), ..old(lock)@ })
            },
{
}

/// `transition_to_read` arrives at `Read` with what the closure left, exactly if the closure
/// succeeds; otherwise the lock is in `Setup` with what the closure left.
pub proof fn law_read_transition_lock<T: Send + Sync, F: FnOnce(&mut T) -> Result<(), E>, E>(
    lock: &mut PhasedLock<T>,
    f: F,
    rel: spec_fn(T, T, Result<(), E>) -> bool,
    result: Result<(), PhasedError<E>>,
)
    requires
        call_ensures(PhasedLock::<T>::transition_to_read::<F, E>, (lock, f), result),
        forall|d: &mut T, r: Result<(), E>| #[trigger] f.ensures((d,), r) ==> rel(*d, *final(d), r),
    ensures
        old(lock)@.code != PHASE_SETUP
            ==> final(lock)@ == old(lock)@ && (result matches Err(e) && e.source is None
            && shows(old(lock)@.code, e.phase)
            && is_lock_read_refusal(old(lock)@.code, e.kind)),
        old(lock)@.code == PHASE_SETUP && old(lock)@.fixed is None
            ==> final(lock)@ == (PhasedLockState { code: PHASE_SETUP, ..old(lock)@ })
            && (result matches Err(e) && e.phase == Phase::Setup
            && e.kind is InternalDataUnavailable && e.source is None),
        old(lock)@.code == PHASE_SETUP && old(lock)@.fixed is Some
            ==> exists|left: T, ran: Result<(), E>|
            {
                &&& #[trigger] rel(old(lock)@.fixed->0, left, ran)
                &&& ran is Ok ==> result is Ok
                    && final(lock)@ == (PhasedLockState { code: PHASE_READ, fixed: Some(left), ..old(lock)@ })
                &&& ran matches Err(source)
                    ==> (result matches Err(e) && e.phase == Phase::Setup && e.kind
                    is FailToRunClosureDuringTransitionToRead && e.source == Some(source))
                        && final(lock)@ == (PhasedLockState { code: PHASE_SETUP, fixed: Some(left), ..old(lock)@ })
            },
{
}

/// `get_mut_for_setup` gives the data exactly in `Setup`, of a lock whose strategy for it is to
/// have no lock, and what is written is what the lock holds then.
pub proof fn law_get_mut_for_setup<T: Send + Sync>(
    lock: &mut PhasedLock<T>,
    result: Result<&mut T, PhasedError>,
)
    requires
        call_ensures(PhasedLock::<T>::get_mut_for_setup, (lock,), result),
    ensures
        result is Ok <==> old(lock)@.setup is Unlock && old(lock)@.code == PHASE_SETUP
            && old(lock)@.fixed is Some,
        result matches Ok(data) ==> old(lock)@.fixed == Some(*data)
            && final(lock)@ == (PhasedLockState { fixed: Some(*final(data)), ..old(lock)@ }),
        result matches Err(e) ==> final(lock)@ == old(lock)@ && e.source is None
            && shows(old(lock)@.code, e.phase),
        !(old(lock)@.setup is Unlock)
            ==> (result matches Err(e)
            && (e.kind matches PhasedErrorKind::CannotCallUnlessSetupUnlock(text)
            && text@ == "setup_read_cleanup::PhasedLock"@ + "<"@
            + old(lock)@.data_type + ">::"@ + "get_mut_for_setup"@)),
        old(lock)@.setup is Unlock && old(lock)@.code != PHASE_SETUP
            ==> (result matches Err(e)
            && (e.kind matches PhasedErrorKind::CannotCallUnlessPhaseSetup(text)
            && text@ == "setup_read_cleanup::PhasedLock"@ + "<"@
            + old(lock)@.data_type + ">::"@ + "get_mut_for_setup"@)),
        old(lock)@.setup is Unlock && old(lock)@.code == PHASE_SETUP && old(lock)@.fixed is None
            ==> (result matches Err(e)
            && e.kind is InternalDataUnavailable),
{
}

/// `get_mut_for_cleanup` gives the data exactly in `Cleanup`, of a lock whose strategy for it
/// is to have no lock, and what is written is what the lock holds then.
pub proof fn law_get_mut_for_cleanup<T: Send + Sync>(
    lock: &mut PhasedLock<T>,
    result: Result<&mut T, PhasedError>,
)
    requires
        call_ensures(PhasedLock::<T>::get_mut_for_cleanup, (lock,), result),
    ensures
        result is Ok <==> old(lock)@.cleanup is Unlock && old(lock)@.code == PHASE_CLEANUP
            && old(lock)@.fixed is Some,
        result matches Ok(data) ==> old(lock)@.fixed == Some(*data)
            && final(lock)@ == (PhasedLockState { fixed: Some(*final(data)), ..old(lock)@ }),
        result matches Err(e) ==> final(lock)@ == old(lock)@ && e.source is None
            && shows(old(lock)@.code, e.phase),
        !(old(lock)@.cleanup is Unlock)
            ==> (result matches Err(e)
            && (e.kind matches PhasedErrorKind::CannotCallUnlessCleanupUnlock(text)
            && text@ == "setup_read_cleanup::PhasedLock"@ + "<"@
            + old(lock)@.data_type + ">::"@ + "get_mut_for_cleanup"@)),
        old(lock)@.cleanup is Unlock && old(lock)@.code != PHASE_CLEANUP
            ==> (result matches Err(e)
            && (e.kind matches PhasedErrorKind::CannotCallUnlessPhaseCleanup(text)
            && text@ == "setup_read_cleanup::PhasedLock"@ + "<"@
            + old(lock)@.data_type + ">::"@ + "get_mut_for_cleanup"@)),
        old(lock)@.cleanup is Unlock && old(lock)@.code == PHASE_CLEANUP
            && old(lock)@.fixed is None ==> (result matches Err(e)
            && e.kind is InternalDataUnavailable),
{
}

/// What a lock asks of its callers: a closure that can be called, of one that ends a transition
/// that it is in progress, and of a reader that the count has room.
pub proof fn law_calls_of_lock<T: Send + Sync, F: FnOnce(&mut T) -> Result<(), E>, E>(
    lock: &mut PhasedLock<T>,
    f: F,
)
    requires
        forall|d: &mut T| #[trigger] f.requires((d,)),
    ensures
        call_requires(PhasedLock::<T>::transition_to_read::<F, E>, (lock, f)),
        old(lock)@.code == PHASE_SETUP_TO_READ ==> call_requires(
            PhasedLock::<T>::finish_transition_to_read::<F, E>,
            (lock, f),
        ),
        old(lock)@.read_count < usize::MAX ==> call_requires(
            PhasedLock::<T>::read_gracefully,
            (lock,),
        ),
{
}

} // verus!
