//! What waits for readers do, said of their arguments and results alone.

use crate::bell::Bell;
use crate::graceful::wait::{lower, next_wait_step, CountDown, WaitStep};
use crate::graceful::{
    GracefulWaitAsync, GracefulWaitError, GracefulWaitErrorKind, GracefulWaitSync,
};
use crate::time::duration_nanos;
use crate::wait::{next_pause_step, PauseStep, Wait};
use std::time::Duration;
use vstd::prelude::*;

verus! {

/// A wait for readers is over exactly if none is active or the time is up, and otherwise lasts
/// for the rest of its time.
pub proof fn law_next_wait_step(count: usize, elapsed: u128, limit: u128, step: WaitStep)
    requires
        call_ensures(next_wait_step, (count, elapsed, limit), step),
    ensures
        step is Finished <==> count == 0,
        step is TimedOut <==> count > 0 && elapsed >= limit,
        step matches WaitStep::Park(nanos) ==> nanos > 0 && elapsed + nanos == limit,
{
}

/// One reader fewer is exactly one fewer, and there is none below zero.
pub proof fn law_lower(count: usize, new_count: Option<usize>)
    requires
        call_ensures(lower, (count,), new_count),
    ensures
        new_count is None <==> count == 0,
        new_count matches Some(fewer) ==> fewer + 1 == count,
{
}

/// A new wait for threads has no readers, is sound, and has told nobody.
pub proof fn law_new_wait_sync(wait: GracefulWaitSync)
    requires
        call_ensures(GracefulWaitSync::new, (), wait),
    ensures
        wait@.counter == 0,
        !wait@.blocker,
        !wait@.poisoned,
{
}

/// A new wait for tasks has no readers and has woken nobody.
pub proof fn law_new_wait_async(wait: GracefulWaitAsync)
    requires
        call_ensures(GracefulWaitAsync::new, (), wait),
    ensures
        wait@.counter == 0,
        wait@.rings.all == 0,
        wait@.rings.one == 0,
{
}

/// What a wait for threads tells of itself.
pub proof fn law_wait_sync_tells(wait: &GracefulWaitSync, count: usize, poisoned: bool)
    requires
        call_ensures(GracefulWaitSync::count, (wait,), count),
        call_ensures(GracefulWaitSync::is_poisoned, (wait,), poisoned),
    ensures
        count == wait@.counter,
        poisoned <==> wait@.poisoned,
{
}

/// What a wait for tasks tells of itself.
pub proof fn law_wait_async_tells(wait: &GracefulWaitAsync, count: usize)
    requires
        call_ensures(GracefulWaitAsync::count, (wait,), count),
    ensures
        count == wait@.counter,
{
}

/// Poisoning the mutex of a wait changes nothing else.
pub proof fn law_poison_wait_sync(wait: &mut GracefulWaitSync)
    requires
        call_ensures(GracefulWaitSync::poison, (wait,), ()),
    ensures
        final(wait)@.poisoned,
        final(wait)@.counter == old(wait)@.counter,
        final(wait)@.blocker == old(wait)@.blocker,
{
}

/// Counting a thread in raises the count by exactly one, and changes nothing else.
pub proof fn law_count_up_sync(wait: &mut GracefulWaitSync)
    requires
        call_ensures(GracefulWaitSync::count_up, (wait,), ()),
        old(wait)@.counter < usize::MAX,
    ensures
        final(wait)@.counter == old(wait)@.counter + 1,
        final(wait)@.poisoned == old(wait)@.poisoned,
        final(wait)@.blocker == old(wait)@.blocker,
{
}

/// Counting a task in raises the count by exactly one, and from the greatest to zero, and
/// changes nothing else.
pub proof fn law_count_up_async(wait: &mut GracefulWaitAsync)
    requires
        call_ensures(GracefulWaitAsync::count_up, (wait,), ()),
    ensures
        old(wait)@.counter < usize::MAX ==> final(wait)@.counter == old(wait)@.counter + 1,
        old(wait)@.counter == usize::MAX ==> final(wait)@.counter == 0,
        final(wait)@.rings == old(wait)@.rings,
{
}

/// Counting a reader out lowers the count by exactly one, where there is one, and wakes those
/// who wait exactly if it was the last and `f` says so.
pub proof fn law_count_down_sync<F: Fn() -> bool>(
    wait: &mut GracefulWaitSync,
    f: F,
    says: bool,
    counted: CountDown,
)
    requires
        call_ensures(GracefulWaitSync::count_down::<F>, (wait, f), counted),
        forall|w: bool| #[trigger] f.ensures((), w) ==> w == says,
    ensures
        old(wait)@.counter > 0 ==> final(wait)@.counter == old(wait)@.counter - 1,
        old(wait)@.counter == 0 ==> final(wait)@ == old(wait)@,
        counted is Excessive <==> old(wait)@.counter == 0,
        old(wait)@.counter > 0 ==> counted == (CountDown::Counted { wakes: old(wait)@.counter == 1
            && says && !old(wait)@.poisoned }),
        final(wait)@.poisoned == old(wait)@.poisoned,
        final(wait)@.blocker <==> old(wait)@.blocker || old(wait)@.counter == 1 && says
            && !old(wait)@.poisoned,
{
}

/// Counting a reader in and then out leaves the count as it was.
pub proof fn law_counting_down_undoes_up_sync<F: Fn() -> bool>(
    up: &mut GracefulWaitSync,
    down: &mut GracefulWaitSync,
    f: F,
    counted: CountDown,
)
    requires
        call_ensures(GracefulWaitSync::count_up, (up,), ()),
        call_ensures(GracefulWaitSync::count_down::<F>, (down, f), counted),
        *final(up) == *old(down),
        old(up)@.counter < usize::MAX,
    ensures
        final(down)@.counter == old(up)@.counter,
        !(counted is Excessive),
{
}

/// Counting a reader out lowers the count by exactly one, where there is one, and wakes those
/// who wait exactly if it was the last and `f` says so.
pub proof fn law_count_down_async<F: Fn() -> bool>(
    wait: &mut GracefulWaitAsync,
    f: F,
    says: bool,
    counted: CountDown,
)
    requires
        call_ensures(GracefulWaitAsync::count_down::<F>, (wait, f), counted),
        forall|w: bool| #[trigger] f.ensures((), w) ==> w == says,
    ensures
        old(wait)@.counter > 0 ==> final(wait)@.counter == old(wait)@.counter - 1,
        old(wait)@.counter == 0 ==> final(wait)@ == old(wait)@,
        counted is Excessive <==> old(wait)@.counter == 0,
        old(wait)@.counter > 0 ==> counted == (CountDown::Counted { wakes: old(wait)@.counter == 1
            && says }),
        final(wait)@.rings.one == old(wait)@.rings.one,
        final(wait)@.rings.all == old(wait)@.rings.all + (if old(wait)@.counter == 1 && says {
            1int
        } else {
            0
        }),
{
}

/// Counting a reader in and then out leaves the count as it was.
pub proof fn law_counting_down_undoes_up_async<F: Fn() -> bool>(
    up: &mut GracefulWaitAsync,
    down: &mut GracefulWaitAsync,
    f: F,
    counted: CountDown,
)
    requires
        call_ensures(GracefulWaitAsync::count_up, (up,), ()),
        call_ensures(GracefulWaitAsync::count_down::<F>, (down, f), counted),
        *final(up) == *old(down),
        old(up)@.counter < usize::MAX,
    ensures
        final(down)@.counter == old(up)@.counter,
        !(counted is Excessive),
{
}

/// Waking every task rings once, and leaves the count as it is.
pub proof fn law_wake(wait: &mut GracefulWaitAsync)
    requires
        call_ensures(GracefulWaitAsync::wake, (wait,), ()),
    ensures
        final(wait)@.counter == old(wait)@.counter,
        final(wait)@.rings.one == old(wait)@.rings.one,
        final(wait)@.rings.all == old(wait)@.rings.all + 1,
{
}

/// A look at a wait for threads: it is over exactly if it is sound and no reader is active,
/// lasts for the rest of its time as long as one is, and fails exactly otherwise.
pub proof fn law_look(
    wait: &GracefulWaitSync,
    timeout: Duration,
    elapsed: u128,
    result: Result<Option<u128>, GracefulWaitError>,
)
    requires
        call_ensures(GracefulWaitSync::look, (wait, timeout, elapsed), result),
    ensures
        result matches Ok(None) <==> !wait@.poisoned && wait@.counter == 0,
        result matches Ok(Some(_))
            <==> !wait@.poisoned && wait@.counter > 0 && elapsed < duration_nanos(timeout),
        result matches Ok(Some(nanos)) ==> elapsed + nanos == duration_nanos(timeout),
        wait@.poisoned ==> (result matches Err(e) && e.kind is MutexIsPoisoned),
        !wait@.poisoned ==> (result matches Err(e)
            ==> e.kind == GracefulWaitErrorKind::TimedOut(timeout)),
{
}

/// A wait for threads that nobody else can end succeeds exactly if it is sound and no reader is
/// active, whatever the timeout.
pub proof fn law_wait_gracefully(
    wait: &GracefulWaitSync,
    timeout: Duration,
    result: Result<(), GracefulWaitError>,
)
    requires
        call_ensures(GracefulWaitSync::wait_gracefully, (wait, timeout), result),
    ensures
        result is Ok <==> !wait@.poisoned && wait@.counter == 0,
        wait@.poisoned ==> (result matches Err(e) && e.kind is MutexIsPoisoned),
        !wait@.poisoned ==> (result matches Err(e)
            ==> e.kind == GracefulWaitErrorKind::TimedOut(timeout)),
{
}

/// A wait for tasks that nobody else can end succeeds exactly if no reader is active, whatever
/// the timeout.
pub proof fn law_wait_gracefully_async(
    wait: &GracefulWaitAsync,
    timeout: Duration,
    result: Result<(), GracefulWaitError>,
)
    requires
        call_ensures(GracefulWaitAsync::wait_gracefully_async, (wait, timeout), result),
    ensures
        result is Ok <==> wait@.counter == 0,
        result matches Err(e) ==> e.kind == GracefulWaitErrorKind::TimedOut(timeout),
{
}

/// What a pause does next.
pub proof fn law_next_pause_step(
    wait: Wait,
    slept: bool,
    count: usize,
    elapsed: u128,
    step: PauseStep,
)
    requires
        call_ensures(next_pause_step, (wait, slept, count, elapsed), step),
    ensures
        wait is Zero ==> step == PauseStep::Over(Ok(())),
        wait matches Wait::Fixed(time) ==> step == (if slept {
            PauseStep::Over(Ok(()))
        } else {
            PauseStep::Sleep(time)
        }),
        wait is Graceful ==> (step == PauseStep::Over(Ok(())) <==> count == 0),
        wait matches Wait::Graceful { timeout } ==> (step == PauseStep::Over(Err(wait))
            <==> count > 0 && elapsed
            >= duration_nanos(timeout)),
        wait matches Wait::Graceful { timeout }
            ==> (count > 0 && elapsed < duration_nanos(timeout) ==> (step matches PauseStep::Nap(
            nanos,
        ) && elapsed + nanos == duration_nanos(timeout))),
{
}

/// A new bell has not been rung, and each ring counts once.
pub proof fn law_bell(made: Bell, all: &mut Bell, one: &mut Bell)
    requires
        call_ensures(Bell::new, (), made),
        call_ensures(Bell::ring_for_all, (all,), ()),
        call_ensures(Bell::ring_for_one, (one,), ()),
    ensures
        made@.all == 0 && made@.one == 0,
        final(all)@.all == old(all)@.all + 1 && final(all)@.one == old(all)@.one,
        final(one)@.one == old(one)@.one + 1 && final(one)@.all == old(one)@.all,
{
}

/// What a wait asks of its callers: that the count has room, and a closure that can be called.
pub proof fn law_calls_of_waits<F: Fn() -> bool>(
    threads: &mut GracefulWaitSync,
    tasks: &mut GracefulWaitAsync,
    f: F,
)
    requires
        f.requires(()),
    ensures
        old(threads)@.counter < isize::MAX ==> call_requires(
            GracefulWaitSync::count_up,
            (threads,),
        ),
        call_requires(GracefulWaitSync::count_down::<F>, (threads, f)),
        call_requires(GracefulWaitAsync::count_down::<F>, (tasks, f)),
{
}

} // verus!
