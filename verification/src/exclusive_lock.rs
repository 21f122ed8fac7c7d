//! Raw locks that are held exclusively, and the guards over them.
//!
//! # *exc lock*
//!
//! An *exc lock* is one unit of exclusive ownership of a raw lock. While one is
//! held, no further *exc lock* can be acquired on the same lock, except by
//! splitting the one that is held
//! ([`SplittableExclusiveLock::exc_split`]).
//!
//! A raw lock is described by two predicates and two transitions: whether an
//! *exc lock* is held, whether one can be acquired at once, and what acquiring
//! and releasing do to the lock. The contracts of the operations are stated
//! over these, and every implementation proves the laws that connect them.

use vstd::prelude::*;
use crate::share_lock::RawShareLock;

pub mod guard;
pub mod raw;

pub use guard::ExclusiveGuard;
pub use raw::RawExclusiveGuard;

verus! {

/// A raw lock that can be held by one owner at a time.
pub trait RawExclusiveLock: Sized {
    /// An *exc lock* is held on this lock.
    spec fn exc_held(&self) -> bool;

    /// An *exc lock* can be acquired on this lock without waiting.
    spec fn exc_ready(&self) -> bool;

    /// This lock after an *exc lock* has been acquired on it.
    spec fn exc_acquired(self) -> Self;

    /// This lock after one *exc lock* on it has been released.
    spec fn exc_released(self) -> Self;

    /// While an *exc lock* is held none can be acquired; acquiring one makes it
    /// held; and releasing it again gives back the lock as it was.
    proof fn exc_laws(self)
        ensures
            self.exc_held() ==> !self.exc_ready(),
            self.exc_ready() ==> self.exc_acquired().exc_held(),
            self.exc_ready() ==> self.exc_acquired().exc_released() == self,
    ;

    /// Acquires an *exc lock*.
    ///
    /// The caller must know that the lock is ready: a lock that is held
    /// elsewhere would keep this call from returning.
    fn exc_lock(&mut self)
        requires
            old(self).exc_ready(),
        ensures
            *final(self) == old(self).exc_acquired(),
            final(self).exc_held(),
    ;

    /// Attempts to acquire an *exc lock* without waiting.
    ///
    /// Returns `true` on success, which is owed whenever the lock is ready.
    fn exc_try_lock(&mut self) -> (acquired: bool)
        ensures
            acquired == old(self).exc_ready(),
            acquired ==> *final(self) == old(self).exc_acquired() && final(self).exc_held(),
            !acquired ==> *final(self) == *old(self),
    ;

    /// Releases one *exc lock*.
    fn exc_unlock(&mut self)
        requires
            old(self).exc_held(),
        ensures
            *final(self) == old(self).exc_released(),
    ;

    /// Yields the lock to whoever waits for it and takes it back.
    ///
    /// It does what `exc_unlock` followed by `exc_lock` does.
    fn exc_bump(&mut self)
        requires
            old(self).exc_held(),
            old(self).exc_released().exc_ready(),
        ensures
            *final(self) == old(self).exc_released().exc_acquired(),
            final(self).exc_held(),
    {
        self.exc_unlock();
        self.exc_lock();
    }
}

/// Raw locks that can hand the lock directly to the next in line.
///
/// A fair release leaves the lock in the state an ordinary release leaves it
/// in; the two differ only in who may take the lock next.
pub trait RawExclusiveLockFair: RawExclusiveLock {
    /// Releases one *exc lock* using the fair protocol.
    fn exc_unlock_fair(&mut self)
        requires
            old(self).exc_held(),
        ensures
            *final(self) == old(self).exc_released(),
    ;

    /// Yields the lock fairly and takes it back.
    ///
    /// It does what `exc_unlock_fair` followed by `exc_lock` does.
    fn exc_bump_fair(&mut self)
        requires
            old(self).exc_held(),
            old(self).exc_released().exc_ready(),
        ensures
            *final(self) == old(self).exc_released().exc_acquired(),
            final(self).exc_held(),
    {
        self.exc_unlock_fair();
        self.exc_lock();
    }
}

/// Raw locks whose *exc lock* can be split: several owners then hold the one
/// acquisition together, and the lock is free again when each has released
/// its share.
pub trait SplittableExclusiveLock: RawExclusiveLock {
    /// The *exc lock* that is held can be split once more.
    spec fn exc_splittable(&self) -> bool;

    /// This lock after the *exc lock* on it has been split once.
    spec fn exc_split_off(self) -> Self;

    /// Only a held lock can be split; it stays held, and releasing the new
    /// share gives back the lock as it was.
    proof fn split_laws(self)
        ensures
            self.exc_splittable() ==> self.exc_held(),
            self.exc_splittable() ==> self.exc_split_off().exc_held(),
            self.exc_splittable() ==> self.exc_split_off().exc_released() == self,
    ;

    /// Adds one owner to the *exc lock* that is held.
    fn exc_split(&mut self)
        requires
            old(self).exc_splittable(),
        ensures
            *final(self) == old(self).exc_split_off(),
            final(self).exc_held(),
    ;
}

/// Raw locks whose *exc lock* can be turned into a
/// [*shr lock*](crate::share_lock) in one step: there is no moment in between
/// at which the lock is free.
pub trait RawExclusiveLockDowngrade: RawExclusiveLock + RawShareLock {
    /// The *exc lock* that is held can be turned into a *shr lock*.
    spec fn downgradable(&self) -> bool;

    /// This lock after its *exc lock* has been turned into a *shr lock*.
    spec fn downgraded(self) -> Self;

    /// The two kinds of lock exclude each other. Only a lock that is held
    /// exclusively can be downgraded; it is then shared and still not ready
    /// for an *exc lock*, and releasing the *shr lock* leaves it as releasing
    /// the *exc lock* would have.
    proof fn downgrade_laws(self)
        ensures
            self.exc_held() ==> !self.shr_ready(),
            self.shr_held() ==> !self.exc_ready(),
            self.downgradable() ==> self.exc_held(),
            self.downgradable() ==> self.downgraded().shr_held(),
            self.downgradable() ==> !self.downgraded().exc_ready(),
            self.downgradable() ==> self.downgraded().shr_released() == self.exc_released(),
    ;

    /// Turns the *exc lock* into a *shr lock*.
    fn downgrade(&mut self)
        requires
            old(self).downgradable(),
        ensures
            *final(self) == old(self).downgraded(),
            final(self).shr_held(),
    ;
}

} // verus!
