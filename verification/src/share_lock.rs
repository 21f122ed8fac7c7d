//! Raw locks that are held by many at once, and the guard over them.
//!
//! # *shr lock*
//!
//! A *shr lock* is one unit of shared ownership of a raw lock. While one is
//! held further *shr lock*s can be acquired on the same lock, but no
//! [*exc lock*](crate::exclusive_lock): each *shr lock* has to be released
//! before the lock can be held exclusively.

use vstd::prelude::*;

pub mod raw;

pub use raw::RawShareGuard;

verus! {

/// A raw lock that can be held by many owners at a time.
pub trait RawShareLock: Sized {
    /// A *shr lock* is held on this lock.
    spec fn shr_held(&self) -> bool;

    /// A further *shr lock* can be acquired on this lock without waiting.
    spec fn shr_ready(&self) -> bool;

    /// This lock after a *shr lock* has been acquired on it.
    spec fn shr_acquired(self) -> Self;

    /// This lock after one *shr lock* on it has been released.
    spec fn shr_released(self) -> Self;

    /// Acquiring a *shr lock* makes one held, and releasing it again gives
    /// back the lock as it was.
    proof fn shr_laws(self)
        ensures
            self.shr_ready() ==> self.shr_acquired().shr_held(),
            self.shr_ready() ==> self.shr_acquired().shr_released() == self,
    ;

    /// Acquires a *shr lock*.
    ///
    /// The caller must know that the lock is ready: a lock that is held
    /// exclusively would keep this call from returning.
    fn shr_lock(&mut self)
        requires
            old(self).shr_ready(),
        ensures
            *final(self) == old(self).shr_acquired(),
            final(self).shr_held(),
    ;

    /// Attempts to acquire a *shr lock* without waiting.
    ///
    /// Returns `true` on success, which is owed whenever the lock is ready.
    fn shr_try_lock(&mut self) -> (acquired: bool)
        ensures
            acquired == old(self).shr_ready(),
            acquired ==> *final(self) == old(self).shr_acquired() && final(self).shr_held(),
            !acquired ==> *final(self) == *old(self),
    ;

    /// Acquires a further *shr lock* for a caller that holds one already. It
    /// does what `shr_lock` does, and need not look whether the lock is held
    /// exclusively.
    fn shr_split(&mut self)
        requires
            old(self).shr_held(),
            old(self).shr_ready(),
        ensures
            *final(self) == old(self).shr_acquired(),
            final(self).shr_held(),
    ;

    /// Releases one *shr lock*.
    fn shr_unlock(&mut self)
        requires
            old(self).shr_held(),
        ensures
            *final(self) == old(self).shr_released(),
    ;

    /// Yields the lock to whoever waits for it and takes it back.
    ///
    /// It does what `shr_unlock` followed by `shr_lock` does.
    fn shr_bump(&mut self)
        requires
            old(self).shr_held(),
            old(self).shr_released().shr_ready(),
        ensures
            *final(self) == old(self).shr_released().shr_acquired(),
            final(self).shr_held(),
    {
        self.shr_unlock();
        self.shr_lock();
    }
}

/// Raw locks that can hand a released *shr lock* directly to the next in
/// line.
///
/// A fair release leaves the lock in the state an ordinary release leaves it
/// in; the two differ only in who may take the lock next.
pub trait RawShareLockFair: RawShareLock {
    /// Releases one *shr lock* using the fair protocol.
    fn shr_unlock_fair(&mut self)
        requires
            old(self).shr_held(),
        ensures
            *final(self) == old(self).shr_released(),
    ;

    /// Yields the lock fairly and takes it back.
    ///
    /// It does what `shr_unlock_fair` followed by `shr_lock` does.
    fn shr_bump_fair(&mut self)
        requires
            old(self).shr_held(),
            old(self).shr_released().shr_ready(),
        ensures
            *final(self) == old(self).shr_released().shr_acquired(),
            final(self).shr_held(),
    {
        self.shr_unlock_fair();
        self.shr_lock();
    }
}

} // verus!
