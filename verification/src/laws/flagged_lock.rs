//! What the operations of `lock::flagged_lock::PhasedLock` do, said of their arguments and results
//! alone.

use super::words::{shows};
use crate::lock::flagged_lock::{PhasedLock, PhasedLockState};
use crate::lock::{PhasedError, PhasedErrorKind};
use crate::locking::{Cleanup, Read, Setup};
use crate::phase::{
    Phase, PHASE_CLEANUP, PHASE_READ, PHASE_READ_TO_CLEANUP, PHASE_SETUP, PHASE_SETUP_TO_CLEANUP,
    PHASE_SETUP_TO_READ,
};
use vstd::prelude::*;

verus! {

/// A new flagged lock is in `Setup`, has its strategies, and keeps its data where the strategy
/// for `Setup` says and nowhere else.
pub proof fn law_new_flagged_lock<T: Send + Sync>(
    data: T,
    data_type: &'static str,
    setup: Setup,
    read: Read,
    cleanup: Cleanup,
    lock: PhasedLock<T>,
)
    requires
        call_ensures(PhasedLock::<T>::new, (data, data_type, setup, read, cleanup), lock),
    ensures
        lock@.code == PHASE_SETUP,
        lock@.setup == setup,
        lock@.read == read,
        lock@.cleanup == cleanup,
        lock@.data_type == data_type@,
        lock@.read_count == 0,
        setup is Unlock ==> lock@.fixed == Some(data) && lock@.std is None && lock@.tokio is None,
        setup is Blocking ==> lock@.std == Some(data) && lock@.fixed is None && lock@.tokio is None,
        setup is NonBlocking ==> lock@.tokio == Some(data) && lock@.fixed is None
            && lock@.std is None,
{
}

/// The phase that a flagged lock shows, by either method.
pub proof fn law_phase_flagged_lock<T: Send + Sync>(lock: &PhasedLock<T>, exact: Phase, fast: Phase)
    requires
        call_ensures(PhasedLock::<T>::phase_exact, (lock,), exact),
        call_ensures(PhasedLock::<T>::phase, (lock,), fast),
    ensures
        fast == exact,
        exact is Setup <==> lock@.code == PHASE_SETUP || lock@.code == PHASE_SETUP_TO_READ,
        exact is Read <==> lock@.code == PHASE_READ,
{
}

/// A flagged lock that is moved on to another phase code has it then, and nothing else is
/// changed.
pub proof fn law_set_phase_code<T: Send + Sync>(lock: &mut PhasedLock<T>, phase_code: u8)
    requires
        call_ensures(PhasedLock::<T>::set_phase_code, (lock, phase_code), ()),
    ensures
        final(lock)@ == (PhasedLockState { code: phase_code, ..old(lock)@ }),
{
}

/// `read_fast` of a flagged lock gives the data exactly in `Read`, where it is in the open, and
/// counts the reader exactly in `Read` by the graceful strategy.
pub proof fn law_read_fast_flagged_lock<T: Send + Sync>(
    lock: &mut PhasedLock<T>,
    result: Result<&T, PhasedError>,
)
    requires
        call_ensures(PhasedLock::<T>::read_fast, (lock,), result),
    ensures
        result is Ok <==> old(lock)@.code == PHASE_READ && old(lock)@.fixed is Some,
        result matches Ok(data) ==> old(lock)@.fixed == Some(*data),
        result matches Err(e) ==> e.source is None && shows(old(lock)@.code, e.phase),
        old(lock)@.code != PHASE_READ
            ==> (result matches Err(e)
            && (e.kind matches PhasedErrorKind::CannotCallOutOfReadPhase(text)
            && text@ == "setup_read_cleanup::PhasedLock"@ + "<"@
            + old(lock)@.data_type + ">::"@ + "read_fast"@)),
        old(lock)@.code == PHASE_READ && old(lock)@.fixed is None
            ==> (result matches Err(e) && e.kind
            is InternalDataIsEmpty),
        old(lock)@.code != PHASE_READ || !(old(lock)@.read is Graceful)
            ==> final(lock)@ == old(lock)@,
        old(lock)@.code == PHASE_READ && old(lock)@.read is Graceful
            && old(lock)@.read_count < usize::MAX
            ==> final(lock)@.read_count == old(lock)@.read_count + 1,
        old(lock)@.code == PHASE_READ && old(lock)@.read is Graceful
            && old(lock)@.read_count == usize::MAX
            ==> final(lock)@.read_count == 0,
        final(lock)@ == (PhasedLockState { read_count: final(lock)@.read_count, ..old(lock)@ }),
{
}

/// `read_exact` of a flagged lock gives the data exactly in `Read`, where it is in the open,
/// and counts the reader exactly in `Read` by the graceful strategy.
pub proof fn law_read_exact_flagged_lock<T: Send + Sync>(
    lock: &mut PhasedLock<T>,
    result: Result<&T, PhasedError>,
)
    requires
        call_ensures(PhasedLock::<T>::read_exact, (lock,), result),
    ensures
        result is Ok <==> old(lock)@.code == PHASE_READ && old(lock)@.fixed is Some,
        result matches Ok(data) ==> old(lock)@.fixed == Some(*data),
        result matches Err(e) ==> e.source is None && shows(old(lock)@.code, e.phase),
        old(lock)@.code != PHASE_READ
            ==> (result matches Err(e)
            && (e.kind matches PhasedErrorKind::CannotCallOutOfReadPhase(text)
            && text@ == "setup_read_cleanup::PhasedLock"@ + "<"@
            + old(lock)@.data_type + ">::"@ + "read_exact"@)),
        old(lock)@.code == PHASE_READ && old(lock)@.fixed is None
            ==> (result matches Err(e) && e.kind
            is InternalDataIsEmpty),
        old(lock)@.code != PHASE_READ || !(old(lock)@.read is Graceful)
            ==> final(lock)@ == old(lock)@,
        old(lock)@.code == PHASE_READ && old(lock)@.read is Graceful
            && old(lock)@.read_count < usize::MAX
            ==> final(lock)@.read_count == old(lock)@.read_count + 1,
        old(lock)@.code == PHASE_READ && old(lock)@.read is Graceful
            && old(lock)@.read_count == usize::MAX
            ==> final(lock)@.read_count == 0,
        final(lock)@ == (PhasedLockState { read_count: final(lock)@.read_count, ..old(lock)@ }),
{
}

/// A flagged lock can be moved on along the lifecycle.
pub proof fn law_calls_of_flagged_lock<T: Send + Sync>(lock: &mut PhasedLock<T>, phase_code: u8)
    requires
        phase_code <= PHASE_SETUP_TO_CLEANUP,
        ({
            ||| phase_code == old(lock)@.code
            ||| old(lock)@.code == PHASE_SETUP && phase_code != PHASE_READ_TO_CLEANUP
            ||| old(lock)@.code == PHASE_SETUP_TO_READ && (phase_code == PHASE_SETUP
                || phase_code == PHASE_READ)
            ||| old(lock)@.code == PHASE_READ && (phase_code == PHASE_READ_TO_CLEANUP
                || phase_code == PHASE_CLEANUP)
            ||| old(lock)@.code == PHASE_READ_TO_CLEANUP && phase_code == PHASE_CLEANUP
            ||| old(lock)@.code == PHASE_SETUP_TO_CLEANUP && phase_code == PHASE_CLEANUP
        }),
    ensures
        call_requires(PhasedLock::<T>::set_phase_code, (lock, phase_code)),
{
}

} // verus!
