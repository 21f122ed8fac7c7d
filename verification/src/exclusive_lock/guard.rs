//! The guard over a locked value.

use vstd::prelude::*;
use crate::exclusive_lock::raw::RawExclusiveGuard;
use crate::exclusive_lock::{RawExclusiveLock, RawExclusiveLockFair};

verus! {

/// Exclusive access to a value, for as long as the *exc lock* beside it is
/// held.
pub struct ExclusiveGuard<'a, L: RawExclusiveLock, T> {
    /// The *exc lock* that protects the value.
    pub raw: RawExclusiveGuard<'a, L>,
    /// The protected value.
    pub value: &'a mut T,
}

impl<'a, L: RawExclusiveLock, T> ExclusiveGuard<'a, L, T> {
    /// Pairs a held lock with the value it protects.
    pub fn from_raw_parts(raw: RawExclusiveGuard<'a, L>, value: &'a mut T) -> (guard: Self)
        ensures
            guard.raw == raw,
            *guard.value == *old(value),
            *final(value) == *final(guard.value),
    {
        ExclusiveGuard { raw, value }
    }

    /// The *exc lock* that protects the value.
    pub fn raw(&self) -> (raw: &RawExclusiveGuard<'a, L>)
        ensures
            *raw == self.raw,
    {
        &self.raw
    }

    /// The protected value.
    pub fn get(&self) -> (value: &T)
        ensures
            *value == *old(self.value),
    {
        &*self.value
    }

    /// The protected value, to change it.
    pub fn get_mut(&mut self) -> (value: &mut T)
        ensures
            *value == *old(self).value,
            *final(self).value == *final(value),
            *final(final(self).value) == *final(old(self).value),
            final(self).raw == old(self).raw,
    {
        &mut *self.value
    }

    /// Releases the lock; the value stays as the guard leaves it.
    pub fn unlock(self)
        requires
            self.raw.lock.exc_held(),
        ensures
            *final(self.raw.lock) == old(self.raw.lock).exc_released(),
            *final(self.value) == *old(self.value),
    {
        let ExclusiveGuard { raw, value } = self;
        raw.unlock();
    }
}

impl<'a, L: RawExclusiveLockFair, T> ExclusiveGuard<'a, L, T> {
    /// Releases the lock using the fair protocol; the value stays as the guard
    /// leaves it.
    pub fn unlock_fair(self)
        requires
            self.raw.lock.exc_held(),
        ensures
            *final(self.raw.lock) == old(self.raw.lock).exc_released(),
            *final(self.value) == *old(self.value),
    {
        let ExclusiveGuard { raw, value } = self;
        raw.unlock_fair();
    }
}

} // verus!
