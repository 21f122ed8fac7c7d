//! The guard over a raw lock: one *exc lock*, released exactly once.

use vstd::prelude::*;
use crate::exclusive_lock::{
    RawExclusiveLock, RawExclusiveLockDowngrade, RawExclusiveLockFair, SplittableExclusiveLock,
};
use crate::share_lock::RawShareGuard;

verus! {

/// Ownership of one *exc lock* on `lock`.
///
/// The guard is made by acquiring the lock and is used up by releasing it.
/// A guard that is dropped without a release leaves the lock held.
pub struct RawExclusiveGuard<'a, L: RawExclusiveLock> {
    /// The lock that is held.
    pub lock: &'a mut L,
}

impl<'a, L: RawExclusiveLock> RawExclusiveGuard<'a, L> {
    /// Wraps a lock on which the caller already holds an *exc lock*.
    pub fn from_raw(lock: &'a mut L) -> (guard: Self)
        requires
            old(lock).exc_held(),
        ensures
            *guard.lock == *old(lock),
            *final(lock) == *final(guard.lock),
    {
        RawExclusiveGuard { lock }
    }

    /// Acquires an *exc lock* on `lock`.
    pub fn new(lock: &'a mut L) -> (guard: Self)
        requires
            old(lock).exc_ready(),
        ensures
            *guard.lock == old(lock).exc_acquired(),
            guard.lock.exc_held(),
            *final(lock) == *final(guard.lock),
    {
        lock.exc_lock();
        Self::from_raw(lock)
    }

    /// Acquires an *exc lock* on `lock` if that can be done without waiting.
    pub fn try_new(lock: &'a mut L) -> (guard: Option<Self>)
        ensures
            guard.is_some() == old(lock).exc_ready(),
            match guard {
                Some(g) => {
                    &&& *g.lock == old(lock).exc_acquired()
                    &&& g.lock.exc_held()
                    &&& *final(lock) == *final(g.lock)
                },
                None => *final(lock) == *old(lock),
            },
    {
        if lock.exc_try_lock() {
            Some(Self::from_raw(lock))
        } else {
            None
        }
    }

    /// Releases the *exc lock*.
    pub fn unlock(self)
        requires
            self.lock.exc_held(),
        ensures
            *final(self.lock) == old(self.lock).exc_released(),
    {
        let RawExclusiveGuard { lock } = self;
        lock.exc_unlock();
    }

    /// Yields the lock to whoever waits for it and takes it back.
    pub fn bump(&mut self)
        requires
            old(self).lock.exc_held(),
            old(self).lock.exc_released().exc_ready(),
        ensures
            *final(self).lock == old(self).lock.exc_released().exc_acquired(),
            final(self).lock.exc_held(),
            *final(final(self).lock) == *final(old(self).lock),
    {
        self.lock.exc_bump();
    }

    /// Releases the lock, runs `f`, and holds the lock again when it returns.
    pub fn unlocked<R, F: FnOnce() -> R>(&mut self, f: F) -> (r: R)
        requires
            old(self).lock.exc_held(),
            old(self).lock.exc_released().exc_ready(),
            f.requires(()),
        ensures
            f.ensures((), r),
            *final(self).lock == old(self).lock.exc_released().exc_acquired(),
            final(self).lock.exc_held(),
            *final(final(self).lock) == *final(old(self).lock),
    {
        self.lock.exc_unlock();
        let r = f();
        self.lock.exc_lock();
        r
    }

    /// The lock that this guard holds.
    pub fn inner(&self) -> (lock: &L)
        ensures
            *lock == *old(self.lock),
    {
        &*self.lock
    }

    /// The lock that this guard holds, to change what it keeps beside its
    /// lock state. Whoever releases the lock through this reference must take
    /// it again before the guard is next used.
    pub fn inner_mut(&mut self) -> (lock: &mut L)
        ensures
            *lock == *old(self).lock,
            *final(self).lock == *final(lock),
            *final(final(self).lock) == *final(old(self).lock),
    {
        &mut *self.lock
    }
}

impl<'a, L: RawExclusiveLockFair> RawExclusiveGuard<'a, L> {
    /// Releases the *exc lock* using the fair protocol.
    pub fn unlock_fair(self)
        requires
            self.lock.exc_held(),
        ensures
            *final(self.lock) == old(self.lock).exc_released(),
    {
        let RawExclusiveGuard { lock } = self;
        lock.exc_unlock_fair();
    }

    /// Yields the lock fairly and takes it back.
    pub fn bump_fair(&mut self)
        requires
            old(self).lock.exc_held(),
            old(self).lock.exc_released().exc_ready(),
        ensures
            *final(self).lock == old(self).lock.exc_released().exc_acquired(),
            final(self).lock.exc_held(),
            *final(final(self).lock) == *final(old(self).lock),
    {
        self.lock.exc_bump_fair();
    }

    /// Releases the lock fairly, runs `f`, and holds the lock again when it
    /// returns.
    pub fn unlocked_fair<R, F: FnOnce() -> R>(&mut self, f: F) -> (r: R)
        requires
            old(self).lock.exc_held(),
            old(self).lock.exc_released().exc_ready(),
            f.requires(()),
        ensures
            f.ensures((), r),
            *final(self).lock == old(self).lock.exc_released().exc_acquired(),
            final(self).lock.exc_held(),
            *final(final(self).lock) == *final(old(self).lock),
    {
        self.lock.exc_unlock_fair();
        let r = f();
        self.lock.exc_lock();
        r
    }
}

impl<'a, L: SplittableExclusiveLock> RawExclusiveGuard<'a, L> {
    /// Splits the *exc lock*: the guard that is returned owns a share of its
    /// own, which it releases like any other. While it lives, this guard is
    /// borrowed.
    pub fn split<'b>(&'b mut self) -> (share: RawExclusiveGuard<'b, L>)
        requires
            old(self).lock.exc_splittable(),
        ensures
            *share.lock == old(self).lock.exc_split_off(),
            share.lock.exc_held(),
            *final(self).lock == *final(share.lock),
            *final(final(self).lock) == *final(old(self).lock),
    {
        self.lock.exc_split();
        RawExclusiveGuard { lock: &mut *self.lock }
    }
}

impl<'a, L: RawExclusiveLockDowngrade> RawExclusiveGuard<'a, L> {
    /// Turns the *exc lock* into a *shr lock* on the same lock, without
    /// releasing the lock in between.
    pub fn downgrade(self) -> (shared: RawShareGuard<'a, L>)
        requires
            self.lock.downgradable(),
        ensures
            *shared.lock == old(self.lock).downgraded(),
            shared.lock.shr_held(),
            *final(self.lock) == *final(shared.lock),
    {
        let RawExclusiveGuard { lock } = self;
        lock.downgrade();
        RawShareGuard::from_raw(lock)
    }
}

} // verus!
