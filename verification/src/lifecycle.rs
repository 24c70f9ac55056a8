//! What holds of a cell or a lock over its whole life.
//!
//! Whatever its kind, a cell has a phase code and data. Each operation on it takes it
//! from one moment of its life to the next, and says so by `leads_to`. What is proved
//! here of a history of moments so holds of every order in which the operations of any
//! number of callers follow each other.

use crate::errors::{PhasedError, METHOD_LOCK, METHOD_LOCK_ASYNC, METHOD_READ};
use crate::phase::{
    is_in_transition, is_phase_code, phase_of, phase_rank, PHASE_CLEANUP, PHASE_READ,
    PHASE_READ_TO_CLEANUP, PHASE_SETUP, PHASE_SETUP_TO_CLEANUP, PHASE_SETUP_TO_READ,
};
use crate::phased_cell_async::PhasedCellAsync;
use crate::phased_cell_sync::{owned_lock, PhasedCellSync};
use crate::slots::Slots;
use crate::transition::{
    changed, cleanup_entry, cleanup_settlement, lock_admission,
    mut_admission, read_admission, read_entry, read_settlement, slot_admission, Lock, Outcome, Work,
};
use vstd::prelude::*;

verus! {

/// A moment in the life of a cell: its phase code, and all that it keeps of its data.
pub struct Moment<D> {
    /// The phase code.
    pub code: u8,
    /// The data.
    pub data: D,
}

/// Whether an operation can take a cell from the code `before` to the code `after`.
pub open spec fn code_step(before: u8, after: u8) -> bool {
    ||| after == before
    ||| before == PHASE_SETUP && is_phase_code(after) && after != PHASE_READ_TO_CLEANUP
    ||| before == PHASE_SETUP_TO_READ && (after == PHASE_SETUP || after == PHASE_READ)
    ||| before == PHASE_READ && (after == PHASE_READ_TO_CLEANUP || after == PHASE_CLEANUP)
    ||| before == PHASE_READ_TO_CLEANUP && after == PHASE_CLEANUP
    ||| before == PHASE_SETUP_TO_CLEANUP && after == PHASE_CLEANUP
}

/// Whether an operation can take a cell from one moment to the other.
///
/// The code moves along the lifecycle. The data of a cell that stays in `Read` is
/// untouched.
pub open spec fn leads_to<D>(before: Moment<D>, after: Moment<D>) -> bool {
    &&& code_step(before.code, after.code)
    &&& before.code == PHASE_READ && after.code == PHASE_READ ==> after.data == before.data
}

/// Whether the data of a cell that stays in transition is untouched.
pub open spec fn rests<D>(before: Moment<D>, after: Moment<D>) -> bool {
    is_in_transition(before.code) && after.code == before.code ==> after.data == before.data
}

/// Whether the moments follow each other, each by one operation.
pub open spec fn is_history<D>(moments: Seq<Moment<D>>) -> bool {
    forall|i: int|
        0 <= i < moments.len() - 1 ==> leads_to(#[trigger] moments[i], moments[i + 1])
}

/// The phase that a cell reports never goes back in the lifecycle.
pub proof fn law_phase_never_goes_back<D>(moments: Seq<Moment<D>>, i: int, j: int)
    requires
        is_history(moments),
        is_phase_code(moments[0].code),
        0 <= i <= j < moments.len(),
    ensures
        phase_rank(phase_of(moments[i].code)) <= phase_rank(phase_of(moments[j].code)),
    decreases j - i,
{
    if i < j {
        law_phase_never_goes_back(moments, i, j - 1);
        law_codes_are_known(moments, j - 1);
        assert(leads_to(moments[j - 1], moments[j - 1 + 1]));
    }
}

/// A cell that starts with a known phase code always has one.
pub proof fn law_codes_are_known<D>(moments: Seq<Moment<D>>, i: int)
    requires
        is_history(moments),
        is_phase_code(moments[0].code),
        0 <= i < moments.len(),
    ensures
        is_phase_code(moments[i].code),
    decreases i,
{
    if i > 0 {
        law_codes_are_known(moments, i - 1);
        assert(leads_to(moments[i - 1], moments[i - 1 + 1]));
    }
}

/// A cell that has arrived at `Cleanup` stays there.
pub proof fn law_cleanup_is_final<D>(moments: Seq<Moment<D>>, i: int, j: int)
    requires
        is_history(moments),
        0 <= i <= j < moments.len(),
        moments[i].code == PHASE_CLEANUP,
    ensures
        moments[j].code == PHASE_CLEANUP,
    decreases j - i,
{
    if i < j {
        law_cleanup_is_final(moments, i, j - 1);
        assert(leads_to(moments[j - 1], moments[j - 1 + 1]));
    }
}

/// A cell that has left `Read` never opens for reading again.
pub proof fn law_read_is_left_once<D>(moments: Seq<Moment<D>>, i: int, j: int)
    requires
        is_history(moments),
        0 <= i <= j < moments.len(),
        moments[i].code == PHASE_READ_TO_CLEANUP || moments[i].code == PHASE_CLEANUP,
    ensures
        moments[j].code == PHASE_READ_TO_CLEANUP || moments[j].code == PHASE_CLEANUP,
    decreases j - i,
{
    if i < j {
        law_read_is_left_once(moments, i, j - 1);
        assert(leads_to(moments[j - 1], moments[j - 1 + 1]));
    }
}

/// The data of a cell does not change as long as it is open for reading: all readers see
/// what the transition to `Read` left.
pub proof fn law_data_is_frozen_while_read<D>(moments: Seq<Moment<D>>, i: int, j: int)
    requires
        is_history(moments),
        0 <= i <= j < moments.len(),
        moments[i].code == PHASE_READ,
        moments[j].code == PHASE_READ,
    ensures
        moments[j].data == moments[i].data,
    decreases j - i,
{
    if i < j {
        assert(leads_to(moments[i], moments[i + 1]));
        if moments[i + 1].code != PHASE_READ {
            law_read_is_left_once(moments, i + 1, j);
        }
        law_data_is_frozen_while_read(moments, i + 1, j);
    }
}

/// The data of a cell does not change while a transition is in progress until the one that
/// began it runs its closure: the closure gets what was there at the beginning.
pub proof fn law_data_rests_in_transition<D>(moments: Seq<Moment<D>>, i: int, j: int)
    requires
        forall|k: int|
            0 <= k < moments.len() - 1 ==> rests(#[trigger] moments[k], moments[k + 1]),
        0 <= i <= j < moments.len(),
        is_in_transition(moments[i].code),
        forall|k: int| i <= k <= j ==> (#[trigger] moments[k]).code == moments[i].code,
    ensures
        moments[j].data == moments[i].data,
    decreases j - i,
{
    if i < j {
        law_data_rests_in_transition(moments, i, j - 1);
        assert(rests(moments[j - 1], moments[j - 1 + 1]));
    }
}

/// The three phases part the ways to the data: a cell that is not in transition can be
/// read exactly in `Read` and can be changed exactly in `Setup` and `Cleanup`, and one in
/// transition can be neither.
pub proof fn law_access_by_phase(code: u8, read: &'static str, change: &'static str)
    requires
        is_phase_code(code),
    ensures
        read_admission(code, read) is Ok <==> code == PHASE_READ,
        mut_admission(code, change) is Ok <==> code == PHASE_SETUP || code == PHASE_CLEANUP,
        is_in_transition(code) <==> read_admission(code, read) is Err && mut_admission(
            code,
            change,
        ) is Err,
{
}

/// While one caller is in a transition no other can begin one.
pub proof fn law_one_transition_at_a_time(code: u8, entered: u8)
    requires
        read_entry(code) == Some(entered) || cleanup_entry(code) == Some(entered),
    ensures
        is_in_transition(entered),
        read_entry(entered) is None,
        cleanup_entry(entered) is None,
{
}

/// A transition to `Read` can begin exactly in `Setup`, and one to `Cleanup` exactly in
/// `Setup` and in `Read`.
pub proof fn law_transitions_begin(code: u8)
    ensures
        read_entry(code) is Some <==> code == PHASE_SETUP,
        cleanup_entry(code) is Some <==> code == PHASE_SETUP || code == PHASE_READ,
{
}

/// A transition to `Cleanup` that began always arrives there, whatever becomes of its
/// closure, a panic included, and also where it did not get the mutex.
pub proof fn law_cleanup_arrives<E>(entered_at: u8, entered: u8, work: Work<E>)
    requires
        cleanup_entry(entered_at) == Some(entered),
    ensures
        changed(
            entered,
            cleanup_settlement(entered_at, work).from,
            cleanup_settlement(entered_at, work).to,
        ) == PHASE_CLEANUP,
{
}

/// A transition to `Read` that began arrives there exactly if its closure succeeds, and is
/// undone otherwise, after a panic too.
pub proof fn law_read_arrives_or_is_undone<E>(entered: u8, work: Work<E>)
    requires
        read_entry(PHASE_SETUP) == Some(entered),
    ensures
        changed(entered, read_settlement(work).from, read_settlement(work).to) == (if work
            matches Work::Ran(Ok(_)) {
            PHASE_READ
        } else {
            PHASE_SETUP
        }),
        read_settlement(work).outcome == Outcome::<E>::Returns(Ok(())) <==> work matches Work::Ran(
            Ok(_),
        ),
        read_settlement(work).outcome is Unwinds <==> work is Panicked,
{
}

/// Data that is where its phase code says is given to every reader in `Read`, and to one
/// that changes it in `Setup`.
pub proof fn law_placed_data_is_found<T>(code: u8, slots: Slots<T>, method: &'static str)
    requires
        slots.placed(code),
    ensures
        code == PHASE_READ ==> slot_admission(code, slots.cell, method) == Ok::<
            T,
            PhasedError,
        >(slots.data()),
        code == PHASE_SETUP ==> slots.mutex == Some(slots.data()),
        is_in_transition(code) && code != PHASE_SETUP_TO_READ ==> slots.cleaned(code) == Some(
            slots.data(),
        ),
{
}

/// A read gives back what the closure of the transition to `Read` left.
pub proof fn law_read_gives_what_was_left<T>(slots: Slots<T>, left: T, method: &'static str)
    ensures
        slot_admission(PHASE_READ, slots.after_read(true, left).cell, method) == Ok::<
            T,
            PhasedError,
        >(left),
{
}

/// One that locks a cell in `Cleanup` gets what the closure of the transition there left.
pub proof fn law_lock_gives_what_was_left<T>(
    entered: u8,
    slots: Slots<T>,
    left: T,
    method: &'static str,
)
    ensures
        slots.after_cleanup(entered, left).mutex == Some(left),
        lock_admission(
            PHASE_CLEANUP,
            Lock::Acquired {
                code: PHASE_CLEANUP,
                filled: slots.after_cleanup(entered, left).mutex is Some,
            },
            method,
        ) is Ok,
{
}

/// A well-formed `PhasedCellSync` whose mutex is not poisoned can be locked exactly in `Setup`
/// and `Cleanup`, and read exactly in `Read`.
pub proof fn law_sync_cell_opens_by_phase<T: Send + Sync>(cell: PhasedCellSync<T>)
    requires
        cell.wf(),
        !cell@.poisoned,
    ensures
        lock_admission(
            cell@.code,
            owned_lock(cell@.code, cell@.poisoned, cell@.slots),
            METHOD_LOCK,
        ) is Ok <==> cell@.code == PHASE_SETUP || cell@.code == PHASE_CLEANUP,
        slot_admission(cell@.code, cell@.slots.cell, METHOD_READ) is Ok <==> cell@.code
            == PHASE_READ,
{
}

/// A well-formed `PhasedCellAsync` can be locked exactly in `Setup` and `Cleanup`, and read
/// exactly in `Read`, and one that locks it gets the data wherever that was.
pub proof fn law_async_cell_opens_by_phase<T: Send + Sync>(cell: PhasedCellAsync<T>)
    requires
        cell.wf(),
    ensures
        lock_admission(
            cell@.code,
            Lock::Acquired {
                code: cell@.code,
                filled: cell@.slots.held(cell@.code).mutex is Some,
            },
            METHOD_LOCK_ASYNC,
        ) is Ok <==> cell@.code == PHASE_SETUP || cell@.code == PHASE_CLEANUP,
        cell@.code == PHASE_SETUP || cell@.code == PHASE_CLEANUP ==> cell@.slots.held(
            cell@.code,
        ).mutex == Some(cell@.slots.data()),
        slot_admission(cell@.code, cell@.slots.cell, METHOD_READ) is Ok <==> cell@.code
            == PHASE_READ,
{
}

/// Transitions neither lose the data nor double it: where it was in one place before, what
/// the closure left is in one place after.
pub proof fn law_data_is_kept<T>(code: u8, slots: Slots<T>, succeeds: bool, left: T)
    requires
        slots.placed(code),
    ensures
        is_in_transition(code) && code != PHASE_SETUP_TO_READ ==> slots.after_cleanup(
            code,
            left,
        ).placed(PHASE_CLEANUP) && slots.after_cleanup(code, left).data() == left,
        code == PHASE_SETUP_TO_READ && succeeds ==> slots.after_read(true, left).placed(PHASE_READ)
            && slots.after_read(true, left).data() == left,
        code == PHASE_SETUP_TO_READ && !succeeds ==> slots.after_read(false, left).placed(
            PHASE_SETUP,
        ) && slots.after_read(false, left).data() == left,
{
}

} // verus!
