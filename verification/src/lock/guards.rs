//! Scoped access to the data of a lock behind a mutex.

use std::ops::{Deref, DerefMut};
use vstd::prelude::*;

verus! {

/// A scoped lock of the data of a lock for threads.
///
/// When this structure is dropped (falls out of scope), the lock will be released.
pub struct PhasedStdMutexGuard<'mutex, T> {
    /// The data, which a guard never lacks.
    pub inner: &'mutex mut T,
}

impl<'mutex, T> PhasedStdMutexGuard<'mutex, T> {
    /// The data.
    pub open spec fn data(&self) -> T {
        *self.inner
    }

    /// Creates a guard of what a mutex guards, if that is there.
    pub fn try_new(guarded_option: &'mutex mut Option<T>) -> (guard: Option<Self>)
        ensures
            match (*old(guarded_option), guard) {
                (Some(data), Some(guard)) => *guard.inner == data && *final(guarded_option)
                    == Some(*final(guard.inner)),
                (None, None) => *final(guarded_option) == None::<T>,
                _ => false,
            },
    {
        match guarded_option {
            Some(inner) => Some(Self { inner }),
            None => None,
        }
    }
}

impl<'mutex, T> Deref for PhasedStdMutexGuard<'mutex, T> {
    type Target = T;

    /// Returns the data for reading.
    fn deref(&self) -> (data: &T)
        ensures
            *data == self.data(),
    {
        &*self.inner
    }
}

impl<'mutex, T> DerefMut for PhasedStdMutexGuard<'mutex, T> {
    /// Returns the data for changing.
    fn deref_mut(&mut self) -> (data: &mut T)
        ensures
            *data == *old(self).inner,
            *final(data) == *final(self).inner,
            *final(final(self).inner) == *final(old(self).inner),
    {
        &mut *self.inner
    }
}

/// A scoped lock of the data of a lock for tasks.
///
/// When this structure is dropped (falls out of scope), the lock will be released.
pub struct PhasedTokioMutexGuard<'mutex, T> {
    /// The data, which a guard never lacks.
    pub inner: &'mutex mut T,
}

impl<'mutex, T> PhasedTokioMutexGuard<'mutex, T> {
    /// The data.
    pub open spec fn data(&self) -> T {
        *self.inner
    }

    /// Creates a guard of what a mutex guards, if that is there.
    pub fn try_new(guarded_option: &'mutex mut Option<T>) -> (guard: Option<Self>)
        ensures
            match (*old(guarded_option), guard) {
                (Some(data), Some(guard)) => *guard.inner == data && *final(guarded_option)
                    == Some(*final(guard.inner)),
                (None, None) => *final(guarded_option) == None::<T>,
                _ => false,
            },
    {
        match guarded_option {
            Some(inner) => Some(Self { inner }),
            None => None,
        }
    }
}

impl<'mutex, T> Deref for PhasedTokioMutexGuard<'mutex, T> {
    type Target = T;

    /// Returns the data for reading.
    fn deref(&self) -> (data: &T)
        ensures
            *data == self.data(),
    {
        &*self.inner
    }
}

impl<'mutex, T> DerefMut for PhasedTokioMutexGuard<'mutex, T> {
    /// Returns the data for changing.
    fn deref_mut(&mut self) -> (data: &mut T)
        ensures
            *data == *old(self).inner,
            *final(data) == *final(self).inner,
            *final(final(self).inner) == *final(old(self).inner),
    {
        &mut *self.inner
    }
}

/// A scoped lock of the data of a lock that is for tasks only.
///
/// When this structure is dropped (falls out of scope), the lock will be released.
pub struct PhasedMutexGuard<'mutex, T> {
    /// The data, which a guard never lacks.
    pub inner: &'mutex mut T,
}

impl<'mutex, T> PhasedMutexGuard<'mutex, T> {
    /// The data.
    pub open spec fn data(&self) -> T {
        *self.inner
    }

    /// Creates a guard of what a mutex guards, if that is there.
    pub fn try_new(guarded_option: &'mutex mut Option<T>) -> (guard: Option<Self>)
        ensures
            match (*old(guarded_option), guard) {
                (Some(data), Some(guard)) => *guard.inner == data && *final(guarded_option)
                    == Some(*final(guard.inner)),
                (None, None) => *final(guarded_option) == None::<T>,
                _ => false,
            },
    {
        match guarded_option {
            Some(inner) => Some(Self { inner }),
            None => None,
        }
    }
}

impl<'mutex, T> Deref for PhasedMutexGuard<'mutex, T> {
    type Target = T;

    /// Returns the data for reading.
    fn deref(&self) -> (data: &T)
        ensures
            *data == self.data(),
    {
        &*self.inner
    }
}

impl<'mutex, T> DerefMut for PhasedMutexGuard<'mutex, T> {
    /// Returns the data for changing.
    fn deref_mut(&mut self) -> (data: &mut T)
        ensures
            *data == *old(self).inner,
            *final(data) == *final(self).inner,
            *final(final(self).inner) == *final(old(self).inner),
    {
        &mut *self.inner
    }
}

} // verus!
