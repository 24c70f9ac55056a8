//! What guards give, said of what they are made of alone.

use crate::guards::{StdMutexGuard, TokioMutexGuard};
use crate::lock::guards::{PhasedMutexGuard, PhasedStdMutexGuard, PhasedTokioMutexGuard};
use vstd::prelude::*;

verus! {

/// A `StdMutexGuard` is made exactly of a mutex that guards data, gives that data, and what is
/// written through it is what the mutex guards then.
pub proof fn law_std_mutex_guard<T>(guarded: &mut Option<T>, guard: Option<StdMutexGuard<'_, T>>)
    requires
        call_ensures(StdMutexGuard::<T>::try_new, (guarded,), guard),
    ensures
        guard is Some <==> *old(guarded) is Some,
        guard matches Some(guard)
            ==> *old(guarded) == Some(*guard.inner) && *final(guarded) == Some(
            *final(guard.inner),
        ),
        guard is None ==> *final(guarded) is None,
{
}

/// A `TokioMutexGuard` is made exactly of a mutex that guards data, gives that data, and what
/// is written through it is what the mutex guards then.
pub proof fn law_tokio_mutex_guard<T>(
    guarded: &mut Option<T>,
    guard: Option<TokioMutexGuard<'_, T>>,
)
    requires
        call_ensures(TokioMutexGuard::<T>::try_new, (guarded,), guard),
    ensures
        guard is Some <==> *old(guarded) is Some,
        guard matches Some(guard)
            ==> *old(guarded) == Some(*guard.inner) && *final(guarded) == Some(
            *final(guard.inner),
        ),
        guard is None ==> *final(guarded) is None,
{
}

/// A `PhasedStdMutexGuard` is made exactly of a mutex that guards data, gives that data, and
/// what is written through it is what the mutex guards then.
pub proof fn law_phased_std_mutex_guard<T>(
    guarded: &mut Option<T>,
    guard: Option<PhasedStdMutexGuard<'_, T>>,
)
    requires
        call_ensures(PhasedStdMutexGuard::<T>::try_new, (guarded,), guard),
    ensures
        guard is Some <==> *old(guarded) is Some,
        guard matches Some(guard)
            ==> *old(guarded) == Some(*guard.inner) && *final(guarded) == Some(
            *final(guard.inner),
        ),
        guard is None ==> *final(guarded) is None,
{
}

/// A `PhasedTokioMutexGuard` is made exactly of a mutex that guards data, gives that data, and
/// what is written through it is what the mutex guards then.
pub proof fn law_phased_tokio_mutex_guard<T>(
    guarded: &mut Option<T>,
    guard: Option<PhasedTokioMutexGuard<'_, T>>,
)
    requires
        call_ensures(PhasedTokioMutexGuard::<T>::try_new, (guarded,), guard),
    ensures
        guard is Some <==> *old(guarded) is Some,
        guard matches Some(guard)
            ==> *old(guarded) == Some(*guard.inner) && *final(guarded) == Some(
            *final(guard.inner),
        ),
        guard is None ==> *final(guarded) is None,
{
}

/// A `PhasedMutexGuard` is made exactly of a mutex that guards data, gives that data, and what
/// is written through it is what the mutex guards then.
pub proof fn law_phased_mutex_guard<T>(
    guarded: &mut Option<T>,
    guard: Option<PhasedMutexGuard<'_, T>>,
)
    requires
        call_ensures(PhasedMutexGuard::<T>::try_new, (guarded,), guard),
    ensures
        guard is Some <==> *old(guarded) is Some,
        guard matches Some(guard)
            ==> *old(guarded) == Some(*guard.inner) && *final(guarded) == Some(
            *final(guard.inner),
        ),
        guard is None ==> *final(guarded) is None,
{
}

} // verus!
