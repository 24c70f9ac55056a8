//! What the decisions of cells and locks are, said of their arguments and results alone.

use super::words::{is_change_refusal, shows};
use crate::errors::{PhasedError, PhasedErrorKind};
use crate::graceful::transition::{
    look_for_read, notice_read, settle_caught_cleanup, settle_graceful_cleanup,
    settle_graceful_read, to_phased_kind, ReadLook,
};
use crate::graceful::GracefulWaitErrorKind;
use crate::lock;
use crate::lock::transition::{
    enter_cleanup_directly, refuse_lock_cleanup, refuse_lock_read, to_graceful_wait_result,
    to_lock_read_result,
};
use crate::lock::WaitStrategy;
use crate::phase::{
    u8_to_phase, Phase, PHASE_CLEANUP, PHASE_READ, PHASE_READ_TO_CLEANUP,
    PHASE_SETUP, PHASE_SETUP_TO_CLEANUP, PHASE_SETUP_TO_READ,
};
use crate::slots::Slots;
use crate::transition::{
    admit_lock, admit_mut, admit_read, brings_back, change_phase, enter_cleanup, enter_read,
    read_slot, refuse_cleanup, refuse_read, settle_cleanup, settle_read, Lock, Outcome, Settlement,
    Work,
};
use std::time::Duration;
use vstd::prelude::*;

verus! {

/// The phase that a code stands for.
pub proof fn law_phase_of_code(code: u8, phase: Phase)
    requires
        call_ensures(u8_to_phase, (code,), phase),
    ensures
        phase is Setup <==> code == PHASE_SETUP || code == PHASE_SETUP_TO_READ,
        phase is Read <==> code == PHASE_READ,
        phase is Cleanup <==> code != PHASE_SETUP && code != PHASE_SETUP_TO_READ
            && code != PHASE_READ,
{
}

/// No two states of a cell share a code.
pub proof fn law_codes_are_distinct(code: u8)
    requires
        code <= PHASE_SETUP_TO_CLEANUP,
    ensures
        PHASE_SETUP < PHASE_READ < PHASE_CLEANUP < PHASE_SETUP_TO_READ < PHASE_READ_TO_CLEANUP
            < PHASE_SETUP_TO_CLEANUP,
        code == PHASE_SETUP || code == PHASE_READ || code == PHASE_CLEANUP
            || code == PHASE_SETUP_TO_READ
            || code == PHASE_READ_TO_CLEANUP || code == PHASE_SETUP_TO_CLEANUP,
{
}

/// A code is replaced exactly if it is the one that is to be replaced.
pub proof fn law_change_phase(code: u8, from: u8, to: u8, new_code: u8)
    requires
        call_ensures(change_phase, (code, from, to), new_code),
    ensures
        code == from ==> new_code == to,
        code != from ==> new_code == code,
{
}

/// A transition to `Read` can begin exactly in `Setup`.
pub proof fn law_enter_read(code: u8, entered: Option<u8>)
    requires
        call_ensures(enter_read, (code,), entered),
    ensures
        entered is Some <==> code == PHASE_SETUP,
        entered is Some ==> entered == Some(PHASE_SETUP_TO_READ),
{
}

/// A transition to `Cleanup` can begin exactly in `Setup` and in `Read`, and its code tells
/// which.
pub proof fn law_enter_cleanup(code: u8, entered: Option<u8>)
    requires
        call_ensures(enter_cleanup, (code,), entered),
    ensures
        entered == Some(PHASE_SETUP_TO_CLEANUP) <==> code == PHASE_SETUP,
        entered == Some(PHASE_READ_TO_CLEANUP) <==> code == PHASE_READ,
        entered is None <==> code != PHASE_SETUP && code != PHASE_READ,
{
}

/// The error of a transition to `Read` that cannot begin shows the phase and tells the reason.
pub proof fn law_refuse_read<E>(code: u8, error: PhasedError<E>)
    requires
        call_ensures(refuse_read::<E>, (code,), error),
        code <= PHASE_SETUP_TO_CLEANUP,
    ensures
        error.source is None,
        shows(code, error.phase),
        code == PHASE_READ ==> error.kind == PhasedErrorKind::PhaseIsAlreadyRead,
        code == PHASE_CLEANUP ==> error.kind == PhasedErrorKind::PhaseIsAlreadyCleanup,
        code == PHASE_SETUP_TO_READ ==> error.kind == PhasedErrorKind::DuringTransitionToRead,
        code == PHASE_SETUP_TO_CLEANUP || code == PHASE_READ_TO_CLEANUP ==> error.kind
            == PhasedErrorKind::DuringTransitionToCleanup,
{
}

/// The error of a transition to `Cleanup` that cannot begin shows the phase and tells the
/// reason.
pub proof fn law_refuse_cleanup<E>(code: u8, error: PhasedError<E>)
    requires
        call_ensures(refuse_cleanup::<E>, (code,), error),
        code <= PHASE_SETUP_TO_CLEANUP,
    ensures
        error.source is None,
        shows(code, error.phase),
        code == PHASE_CLEANUP ==> error.kind == PhasedErrorKind::PhaseIsAlreadyCleanup,
        code == PHASE_SETUP_TO_READ ==> error.kind == PhasedErrorKind::DuringTransitionToRead,
        code == PHASE_SETUP_TO_CLEANUP || code == PHASE_READ_TO_CLEANUP ==> error.kind
            == PhasedErrorKind::DuringTransitionToCleanup,
{
}

/// The data may be read exactly in `Read`.
pub proof fn law_admit_read(code: u8, method: &'static str, admission: Result<(), PhasedError>)
    requires
        call_ensures(admit_read, (code, method), admission),
    ensures
        admission is Ok <==> code == PHASE_READ,
        admission matches Err(e) ==> e.source is None && shows(code, e.phase) && e.kind
            == PhasedErrorKind::CannotCallUnlessPhaseRead(method),
{
}

/// The data may be changed exactly out of `Read` and out of transition.
pub proof fn law_admit_mut(code: u8, method: &'static str, admission: Result<(), PhasedError>)
    requires
        call_ensures(admit_mut, (code, method), admission),
        code <= PHASE_SETUP_TO_CLEANUP,
    ensures
        admission is Ok <==> code == PHASE_SETUP || code == PHASE_CLEANUP,
        admission matches Err(e) ==> e.source is None && shows(code, e.phase),
        code == PHASE_READ ==> (admission matches Err(e) && e.kind
            == PhasedErrorKind::CannotCallOnPhaseRead(method)),
        code == PHASE_SETUP_TO_READ ==> (admission matches Err(e) && e.kind
            == PhasedErrorKind::DuringTransitionToRead),
        code == PHASE_SETUP_TO_CLEANUP || code == PHASE_READ_TO_CLEANUP
            ==> (admission matches Err(e) && e.kind
            == PhasedErrorKind::DuringTransitionToCleanup),
{
}

/// One that went for the mutex gets the data exactly if the phase allowed it before and allows
/// it with the mutex held, the mutex is sound and there is data.
pub proof fn law_admit_lock(
    code: u8,
    lock: Lock,
    method: &'static str,
    admission: Result<(), PhasedError>,
)
    requires
        call_ensures(admit_lock, (code, lock, method), admission),
        code <= PHASE_SETUP_TO_CLEANUP,
        lock matches Lock::Acquired { code: later, .. } ==> later <= PHASE_SETUP_TO_CLEANUP,
    ensures
        admission is Ok <==> (code == PHASE_SETUP || code == PHASE_CLEANUP)
            && (lock matches Lock::Acquired { code: later, filled }
            && filled && (later == PHASE_SETUP || later == PHASE_CLEANUP)),
        (code == PHASE_SETUP || code == PHASE_CLEANUP) && lock is Poisoned
            ==> (admission matches Err(e) && shows(code, e.phase) && e.kind
            == PhasedErrorKind::InternalDataMutexIsPoisoned && e.source is None),
        (code == PHASE_SETUP || code == PHASE_CLEANUP)
            && (lock matches Lock::Acquired { code: later, filled } && !filled
            && (later == PHASE_SETUP || later == PHASE_CLEANUP)) ==> (admission matches Err(e)
            && shows(code, e.phase) && e.kind == PhasedErrorKind::InternalDataUnavailable
                && e.source is None),
        !(code == PHASE_SETUP || code == PHASE_CLEANUP)
            ==> (admission matches Err(e) && shows(code, e.phase)
            && is_change_refusal(code, e.kind, method)
            && e.source is None),
        (code == PHASE_SETUP || code == PHASE_CLEANUP)
            ==> (lock matches Lock::Acquired { code: later, .. }
            ==> !(later == PHASE_SETUP || later == PHASE_CLEANUP) ==> (admission matches Err(e)
            && shows(later, e.phase) && is_change_refusal(later, e.kind, method)
                && e.source is None)),
{
}

/// Data is brought back from the cell exactly in `Cleanup` and where none is behind the mutex.
pub proof fn law_brings_back(code: u8, filled: bool, brings: bool)
    requires
        call_ensures(brings_back, (code, filled), brings),
    ensures
        brings <==> code == PHASE_CLEANUP && !filled,
{
}

/// A reader gets what is open for reading exactly in `Read`.
pub proof fn law_read_slot<T>(
    code: u8,
    slot: &Option<T>,
    method: &'static str,
    result: Result<&T, PhasedError>,
)
    requires
        call_ensures(read_slot::<T>, (code, slot, method), result),
    ensures
        result is Ok <==> code == PHASE_READ && *slot is Some,
        result matches Ok(data) ==> *slot == Some(*data),
        result matches Err(e) ==> e.source is None && shows(code, e.phase),
        code != PHASE_READ ==> (result matches Err(e) && e.kind
            == PhasedErrorKind::CannotCallUnlessPhaseRead(method)),
        code == PHASE_READ && *slot is None ==> (result matches Err(e) && e.kind
            == PhasedErrorKind::InternalDataUnavailable),
{
}

/// A transition to `Cleanup` is settled at `Cleanup`, whatever became of its closure. Data that
/// was open for reading moves exactly if the closure had it. The result is `Ok` exactly if the
/// closure succeeded.
pub proof fn law_settle_cleanup<E>(entered_at: u8, work: Work<E>, settlement: Settlement<E>)
    requires
        call_ensures(settle_cleanup::<E>, (entered_at, work), settlement),
        entered_at == PHASE_SETUP || entered_at == PHASE_READ,
    ensures
        settlement.to == PHASE_CLEANUP,
        entered_at == PHASE_SETUP ==> settlement.from == PHASE_SETUP_TO_CLEANUP,
        entered_at == PHASE_READ ==> settlement.from == PHASE_READ_TO_CLEANUP,
        settlement.moves <==> entered_at == PHASE_READ && (work is Ran || work is Panicked),
        settlement.outcome == Outcome::<E>::Returns(Ok(())) <==> (work matches Work::Ran(Ok(_))),
        settlement.outcome is Unwinds <==> work is Panicked,
        work matches Work::Ran(Err(source))
            ==> (settlement.outcome matches Outcome::Returns(Err(e)) && e.phase
            == Phase::Cleanup && e.kind
                == PhasedErrorKind::FailToRunClosureDuringTransitionToCleanup
            && e.source == Some(source)),
        work is Poisoned ==> (settlement.outcome matches Outcome::Returns(Err(e))
            && e.phase == Phase::Cleanup && e.kind
            == PhasedErrorKind::InternalDataMutexIsPoisoned && e.source is None),
        work is Busy ==> (settlement.outcome matches Outcome::Returns(Err(e))
            && e.phase == Phase::Cleanup && e.kind
            == PhasedErrorKind::MutexTryLockFailed && e.source is None),
        work is Missing ==> (settlement.outcome matches Outcome::Returns(Err(e))
            && e.phase == Phase::Cleanup && e.kind
            == PhasedErrorKind::InternalDataUnavailable && e.source is None),
{
}

/// A transition to `Read` is settled at `Read`, with the data moved there, exactly if the
/// closure succeeded, and at `Setup` otherwise.
pub proof fn law_settle_read<E>(work: Work<E>, settlement: Settlement<E>)
    requires
        call_ensures(settle_read::<E>, (work,), settlement),
    ensures
        settlement.to == PHASE_READ <==> (work matches Work::Ran(Ok(_))),
        settlement.to == PHASE_SETUP <==> !(work matches Work::Ran(Ok(_))),
        settlement.from == PHASE_SETUP_TO_READ,
        settlement.moves <==> (work matches Work::Ran(Ok(_))),
        settlement.outcome == Outcome::<E>::Returns(Ok(())) <==> (work matches Work::Ran(Ok(_))),
        settlement.outcome is Unwinds <==> work is Panicked,
        work matches Work::Ran(Err(source))
            ==> (settlement.outcome matches Outcome::Returns(Err(e)) && e.phase
            == Phase::Setup && e.kind == PhasedErrorKind::FailToRunClosureDuringTransitionToRead
            && e.source == Some(source)),
        work is Poisoned ==> (settlement.outcome matches Outcome::Returns(Err(e))
            && e.phase == Phase::Setup && e.kind
            == PhasedErrorKind::InternalDataMutexIsPoisoned && e.source is None),
        work is Busy ==> (settlement.outcome matches Outcome::Returns(Err(e))
            && e.phase == Phase::Setup && e.kind
            == PhasedErrorKind::MutexTryLockFailed && e.source is None),
        work is Missing ==> (settlement.outcome matches Outcome::Returns(Err(e))
            && e.phase == Phase::Setup && e.kind
            == PhasedErrorKind::InternalDataUnavailable && e.source is None),
{
}

/// A transition to `Read` that does not catch a panic is left in transition by one, and is
/// otherwise settled at `Read` exactly if the closure succeeded.
pub proof fn law_settle_graceful_read<E>(work: Work<E>, settlement: Settlement<E>)
    requires
        call_ensures(settle_graceful_read::<E>, (work,), settlement),
    ensures
        settlement.to == PHASE_READ <==> (work matches Work::Ran(Ok(_))),
        settlement.to == PHASE_SETUP_TO_READ <==> work is Panicked,
        settlement.to == PHASE_SETUP <==> !(work matches Work::Ran(Ok(_))) && !(work is Panicked),
        settlement.from == PHASE_SETUP_TO_READ,
        settlement.moves <==> (work matches Work::Ran(Ok(_))),
        settlement.outcome == Outcome::<E>::Returns(Ok(())) <==> (work matches Work::Ran(Ok(_))),
        settlement.outcome is Unwinds <==> work is Panicked,
        work matches Work::Ran(Err(source))
            ==> (settlement.outcome matches Outcome::Returns(Err(e)) && e.phase
            == Phase::Setup && e.kind == PhasedErrorKind::FailToRunClosureDuringTransitionToRead
            && e.source == Some(source)),
        work is Poisoned ==> (settlement.outcome matches Outcome::Returns(Err(e))
            && e.phase == Phase::Setup && e.kind
            == PhasedErrorKind::InternalDataMutexIsPoisoned && e.source is None),
        work is Busy ==> (settlement.outcome matches Outcome::Returns(Err(e))
            && e.phase == Phase::Setup && e.kind
            == PhasedErrorKind::MutexTryLockFailed && e.source is None),
        work is Missing ==> (settlement.outcome matches Outcome::Returns(Err(e))
            && e.phase == Phase::Setup && e.kind
            == PhasedErrorKind::InternalDataUnavailable && e.source is None),
{
}

/// A wait that failed is reported by its own kind.
pub proof fn law_to_phased_kind(kind: GracefulWaitErrorKind, phased_kind: PhasedErrorKind)
    requires
        call_ensures(to_phased_kind, (kind,), phased_kind),
    ensures
        kind matches GracefulWaitErrorKind::TimedOut(timeout) ==> phased_kind
            == PhasedErrorKind::GracefulWaitTimeout(timeout),
        kind is MutexIsPoisoned ==> phased_kind == PhasedErrorKind::GracefulWaitMutexIsPoisoned,
{
}

/// A cleanup that waited for the readers is `Ok` exactly if its closure succeeded and the wait
/// did not fail; an error of the closure comes before one of the wait.
pub proof fn law_settle_graceful_cleanup<E>(
    entered_at: u8,
    missing_at: u8,
    waited: Option<PhasedErrorKind>,
    work: Work<E>,
    settlement: Settlement<E>,
)
    requires
        call_ensures(
            settle_graceful_cleanup::<E>,
            (entered_at, missing_at, waited, work),
            settlement,
        ),
        entered_at == PHASE_SETUP || entered_at == PHASE_READ,
    ensures
        entered_at == PHASE_SETUP ==> settlement.from == PHASE_SETUP_TO_CLEANUP,
        entered_at == PHASE_READ ==> settlement.from == PHASE_READ_TO_CLEANUP,
        work is Panicked ==> settlement.to == settlement.from,
        !(work is Panicked) ==> settlement.to == PHASE_CLEANUP,
        settlement.moves <==> entered_at == PHASE_READ && work is Ran,
        settlement.outcome == Outcome::<E>::Returns(Ok(()))
            <==> (work matches Work::Ran(Ok(_))) && waited is None,
        settlement.outcome is Unwinds <==> work is Panicked,
        (work matches Work::Ran(Ok(_))) ==> (waited matches Some(kind)
            ==> (settlement.outcome matches Outcome::Returns(Err(e)) && e.phase
            == Phase::Cleanup && e.kind == kind && e.source is None)),
        work matches Work::Ran(Err(source))
            ==> (settlement.outcome matches Outcome::Returns(Err(e)) && e.phase
            == Phase::Cleanup && e.kind
                == PhasedErrorKind::FailToRunClosureDuringTransitionToCleanup
            && e.source == Some(source)),
        work is Poisoned ==> (settlement.outcome matches Outcome::Returns(Err(e))
            && e.phase == Phase::Cleanup && e.kind
            == PhasedErrorKind::InternalDataMutexIsPoisoned && e.source is None),
        work is Busy ==> (settlement.outcome matches Outcome::Returns(Err(e))
            && e.phase == Phase::Cleanup && e.kind
            == PhasedErrorKind::MutexTryLockFailed && e.source is None),
        work is Missing && entered_at == PHASE_READ
            ==> (settlement.outcome matches Outcome::Returns(Err(e))
            && shows(missing_at, e.phase) && e.kind == PhasedErrorKind::InternalDataUnavailable
            && e.source is None),
        work is Missing && entered_at == PHASE_SETUP
            ==> (settlement.outcome matches Outcome::Returns(Err(e)) && e.phase == Phase::Cleanup
            && e.kind
            == PhasedErrorKind::InternalDataUnavailable && e.source is None),
{
}

/// A cleanup that waited for the readers and catches a panic of its closure arrives at
/// `Cleanup` then too.
pub proof fn law_settle_caught_cleanup<E>(
    entered_at: u8,
    waited: Option<PhasedErrorKind>,
    work: Work<E>,
    settlement: Settlement<E>,
)
    requires
        call_ensures(settle_caught_cleanup::<E>, (entered_at, waited, work), settlement),
        entered_at == PHASE_SETUP || entered_at == PHASE_READ,
    ensures
        entered_at == PHASE_SETUP ==> settlement.from == PHASE_SETUP_TO_CLEANUP,
        entered_at == PHASE_READ ==> settlement.from == PHASE_READ_TO_CLEANUP,
        settlement.to == PHASE_CLEANUP,
        settlement.moves <==> entered_at == PHASE_READ && (work is Ran || work is Panicked),
        settlement.outcome == Outcome::<E>::Returns(Ok(()))
            <==> (work matches Work::Ran(Ok(_))) && waited is None,
        settlement.outcome is Unwinds <==> work is Panicked,
        (work matches Work::Ran(Ok(_))) ==> (waited matches Some(kind)
            ==> (settlement.outcome matches Outcome::Returns(Err(e)) && e.phase
            == Phase::Cleanup && e.kind == kind && e.source is None)),
        work matches Work::Ran(Err(source))
            ==> (settlement.outcome matches Outcome::Returns(Err(e)) && e.phase
            == Phase::Cleanup && e.kind
                == PhasedErrorKind::FailToRunClosureDuringTransitionToCleanup
            && e.source == Some(source)),
        work is Poisoned ==> (settlement.outcome matches Outcome::Returns(Err(e))
            && e.phase == Phase::Cleanup && e.kind
            == PhasedErrorKind::InternalDataMutexIsPoisoned && e.source is None),
        work is Busy ==> (settlement.outcome matches Outcome::Returns(Err(e))
            && e.phase == Phase::Cleanup && e.kind
            == PhasedErrorKind::MutexTryLockFailed && e.source is None),
{
}

/// A transition to `Read` comes out as it would, if those who wait could be told, and with the
/// error of the wait otherwise; a panic goes on in any case.
pub proof fn law_notice_read<E>(outcome: Outcome<E>, notified: bool, told: Outcome<E>)
    requires
        call_ensures(notice_read::<E>, (outcome, notified), told),
    ensures
        outcome is Unwinds <==> told is Unwinds,
        notified ==> told == outcome,
        !notified && outcome is Returns
            ==> (told matches Outcome::Returns(Err(e)) && e.phase == Phase::Setup && e.kind
            == PhasedErrorKind::GracefulWaitMutexIsPoisoned && e.source is None),
{
}

/// A reader is told to wait exactly while a transition to `Read` is in progress.
pub proof fn law_look_for_read(code: u8, poisoned: bool, result: Result<ReadLook, PhasedError>)
    requires
        call_ensures(look_for_read, (code, poisoned), result),
    ensures
        result == Ok::<ReadLook, PhasedError>(ReadLook::Wait)
            <==> !poisoned && code == PHASE_SETUP_TO_READ,
        result == Ok::<ReadLook, PhasedError>(ReadLook::Open) <==> !poisoned && code == PHASE_READ,
        result matches Err(e) ==> e.source is None,
        poisoned ==> (result matches Err(e) && e.phase == Phase::Setup && e.kind
            == PhasedErrorKind::GracefulWaitMutexIsPoisoned),
        !poisoned && result is Err ==> (result matches Err(e) && shows(code, e.phase) && e.kind
            == PhasedErrorKind::CannotCallUnlessPhaseRead("read")),
{
}

/// The error of a transition of a lock to `Read` that cannot begin.
pub proof fn law_refuse_lock_read<E>(code: u8, error: lock::PhasedError<E>)
    requires
        call_ensures(refuse_lock_read::<E>, (code,), error),
    ensures
        error.source is None,
        shows(code, error.phase),
        error.kind is PhaseIsAlreadyRead <==> code == PHASE_READ,
        error.kind is DuringTransitionToRead <==> code == PHASE_SETUP_TO_READ,
        error.kind is TransitionToReadFailed <==> code != PHASE_READ && code != PHASE_SETUP_TO_READ,
{
}

/// The error of a transition of a lock to `Cleanup` that cannot begin.
pub proof fn law_refuse_lock_cleanup(code: u8, error: lock::PhasedError)
    requires
        call_ensures(refuse_lock_cleanup, (code,), error),
    ensures
        error.source is None,
        shows(code, error.phase),
        error.kind is PhaseIsAlreadyCleanup <==> code == PHASE_CLEANUP,
        error.kind is DuringTransitionToCleanup <==> code == PHASE_READ_TO_CLEANUP,
        error.kind is TransitionToCleanupFailed
            <==> code != PHASE_CLEANUP && code != PHASE_READ_TO_CLEANUP,
{
}

/// A cleanup of a lock with a mutex can begin exactly in `Setup`, where it has arrived at once,
/// and in `Read`.
pub proof fn law_enter_cleanup_directly(code: u8, entered: Option<u8>)
    requires
        call_ensures(enter_cleanup_directly, (code,), entered),
    ensures
        entered == Some(PHASE_CLEANUP) <==> code == PHASE_SETUP,
        entered == Some(PHASE_READ_TO_CLEANUP) <==> code == PHASE_READ,
        entered is None <==> code != PHASE_SETUP && code != PHASE_READ,
{
}

/// A transition of a lock to `Read` succeeds exactly if its closure does, whose error is the
/// source of its own.
pub proof fn law_to_lock_read_result<E>(
    ran: Result<(), E>,
    result: Result<(), lock::PhasedError<E>>,
)
    requires
        call_ensures(to_lock_read_result::<E>, (ran,), result),
    ensures
        result is Ok <==> ran is Ok,
        ran matches Err(source) ==> (result matches Err(e) && e.phase == Phase::Setup && e.kind
            is FailToRunClosureDuringTransitionToRead && e.source == Some(source)),
{
}

/// A graceful cleanup of a lock fails exactly if the time was up and readers are left.
pub proof fn law_to_graceful_wait_result(
    timed_out: bool,
    count: usize,
    timeout: Duration,
    result: Result<(), lock::PhasedError>,
)
    requires
        call_ensures(to_graceful_wait_result, (timed_out, count, timeout), result),
    ensures
        result is Err <==> timed_out && count > 0,
        result matches Err(e) ==> e.phase == Phase::Cleanup && e.source is None && e.kind
            == lock::PhasedErrorKind::TransitionToCleanupTimeout(WaitStrategy::GracefulWait { timeout }),
{
}

/// Swapping the two places of the data exchanges their contents.
pub proof fn law_swap<T>(slots: &mut Slots<T>)
    requires
        call_ensures(Slots::<T>::swap, (slots,), ()),
    ensures
        final(slots).mutex == old(slots).cell,
        final(slots).cell == old(slots).mutex,
{
}

} // verus!
