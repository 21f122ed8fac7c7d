//! The guard over a raw lock that is shared: one *shr lock*, released exactly
//! once.

use vstd::prelude::*;
use crate::share_lock::{RawShareLock, RawShareLockFair};

verus! {

/// Ownership of one *shr lock* on `lock`.
///
/// The guard is made by acquiring the lock, or from an *exc lock* that is
/// downgraded, and is used up by releasing it. A guard that is dropped without
/// a release leaves the lock held.
pub struct RawShareGuard<'a, L: RawShareLock> {
    /// The lock that is held.
    pub lock: &'a mut L,
}

impl<'a, L: RawShareLock> RawShareGuard<'a, L> {
    /// Wraps a lock on which the caller already holds a *shr lock*.
    pub fn from_raw(lock: &'a mut L) -> (guard: Self)
        requires
            old(lock).shr_held(),
        ensures
            *guard.lock == *old(lock),
            *final(lock) == *final(guard.lock),
    {
        RawShareGuard { lock }
    }

    /// Acquires a *shr lock* on `lock`.
    pub fn new(lock: &'a mut L) -> (guard: Self)
        requires
            old(lock).shr_ready(),
        ensures
            *guard.lock == old(lock).shr_acquired(),
            guard.lock.shr_held(),
            *final(lock) == *final(guard.lock),
    {
        lock.shr_lock();
        Self::from_raw(lock)
    }

    /// Acquires a *shr lock* on `lock` if that can be done without waiting.
    pub fn try_new(lock: &'a mut L) -> (guard: Option<Self>)
        ensures
            guard.is_some() == old(lock).shr_ready(),
            match guard {
                Some(g) => {
                    &&& *g.lock == old(lock).shr_acquired()
                    &&& g.lock.shr_held()
                    &&& *final(lock) == *final(g.lock)
                },
                None => *final(lock) == *old(lock),
            },
    {
        if lock.shr_try_lock() {
            Some(Self::from_raw(lock))
        } else {
            None
        }
    }

    /// Releases the *shr lock*.
    pub fn unlock(self)
        requires
            self.lock.shr_held(),
        ensures
            *final(self.lock) == old(self.lock).shr_released(),
    {
        let RawShareGuard { lock } = self;
        lock.shr_unlock();
    }

    /// Yields the lock to whoever waits for it and takes it back.
    pub fn bump(&mut self)
        requires
            old(self).lock.shr_held(),
            old(self).lock.shr_released().shr_ready(),
        ensures
            *final(self).lock == old(self).lock.shr_released().shr_acquired(),
            final(self).lock.shr_held(),
            *final(final(self).lock) == *final(old(self).lock),
    {
        self.lock.shr_bump();
    }

    /// Acquires a further *shr lock*: the guard that is returned owns it and
    /// releases it like any other. While it lives, this guard is borrowed.
    pub fn split<'b>(&'b mut self) -> (share: RawShareGuard<'b, L>)
        requires
            old(self).lock.shr_held(),
            old(self).lock.shr_ready(),
        ensures
            *share.lock == old(self).lock.shr_acquired(),
            share.lock.shr_held(),
            *final(self).lock == *final(share.lock),
            *final(final(self).lock) == *final(old(self).lock),
    {
        self.lock.shr_split();
        RawShareGuard { lock: &mut *self.lock }
    }

    /// The lock that this guard holds.
    pub fn inner(&self) -> (lock: &L)
        ensures
            *lock == *old(self.lock),
    {
        &*self.lock
    }
}

impl<'a, L: RawShareLockFair> RawShareGuard<'a, L> {
    /// Releases the *shr lock* using the fair protocol.
    pub fn unlock_fair(self)
        requires
            self.lock.shr_held(),
        ensures
            *final(self.lock) == old(self.lock).shr_released(),
    {
        let RawShareGuard { lock } = self;
        lock.shr_unlock_fair();
    }

    /// Yields the lock fairly and takes it back.
    pub fn bump_fair(&mut self)
        requires
            old(self).lock.shr_held(),
            old(self).lock.shr_released().shr_ready(),
        ensures
            *final(self).lock == old(self).lock.shr_released().shr_acquired(),
            final(self).lock.shr_held(),
            *final(final(self).lock) == *final(old(self).lock),
    {
        self.lock.shr_bump_fair();
    }
}

} // verus!
