//! A value behind a raw lock.

use vstd::prelude::*;
use crate::exclusive_lock::{ExclusiveGuard, RawExclusiveGuard, RawExclusiveLock};
use crate::RawLockInfo;

pub mod local_splittable;
pub mod local_tagged;

verus! {

/// Raw locks fit for a [`Mutex`]: they start out ready to be taken.
pub trait RawMutex: RawLockInfo + RawExclusiveLock {
    /// The initial state is ready for an *exc lock*.
    proof fn initial_ready()
        ensures
            Self::initial().exc_ready(),
    ;
}

/// A value of type `T` that is reached through an *exc lock* on a lock of type
/// `L`.
pub struct Mutex<L, T> {
    lock: L,
    value: T,
}

impl<L, T> Mutex<L, T> {
    /// The raw lock of this mutex.
    pub closed spec fn raw_lock(&self) -> L {
        self.lock
    }

    /// The value of this mutex.
    pub closed spec fn value(&self) -> T {
        self.value
    }

    /// A mutex made of a lock and a value. A lock that is not in its initial
    /// state makes a mutex that is in that state too.
    pub fn from_raw_parts(lock: L, value: T) -> (mutex: Self)
        ensures
            mutex.raw_lock() == lock,
            mutex.value() == value,
    {
        Mutex { lock, value }
    }

    /// Takes the mutex apart.
    pub fn into_raw_parts(self) -> (parts: (L, T))
        ensures
            parts.0 == self.raw_lock(),
            parts.1 == self.value(),
    {
        (self.lock, self.value)
    }

    /// Rebuilds the mutex from its parts: the same lock, in the state it is
    /// in, and the same value.
    pub fn into_mutex(self) -> (mutex: Mutex<L, T>)
        ensures
            mutex.raw_lock() == self.raw_lock(),
            mutex.value() == self.value(),
    {
        let (lock, value) = self.into_raw_parts();
        Mutex::from_raw_parts(lock, value)
    }

    /// The value, without locking: whoever owns the mutex is alone with it.
    pub fn into_inner(self) -> (value: T)
        ensures
            value == self.value(),
    {
        self.value
    }

    /// The raw lock.
    pub fn raw(&self) -> (lock: &L)
        ensures
            *lock == self.raw_lock(),
    {
        &self.lock
    }

    /// The raw lock, to change it. The value is out of reach meanwhile.
    pub fn raw_mut(&mut self) -> (lock: &mut L)
        ensures
            *lock == old(self).raw_lock(),
            final(self).raw_lock() == *final(lock),
            final(self).value() == old(self).value(),
    {
        &mut self.lock
    }

    /// The value, without locking: a `&mut` to the mutex shows that nobody
    /// else has it.
    pub fn get_mut(&mut self) -> (value: &mut T)
        ensures
            *value == old(self).value(),
            final(self).value() == *final(value),
            final(self).raw_lock() == old(self).raw_lock(),
    {
        &mut self.value
    }
}

impl<L: RawMutex, T> Mutex<L, T> {
    /// A mutex that holds `value`, with its lock in the initial state.
    pub fn new(value: T) -> (mutex: Self)
        ensures
            mutex.raw_lock() == L::initial(),
            mutex.raw_lock().exc_ready(),
            mutex.value() == value,
    {
        proof {
            L::initial_ready();
        }
        Self::from_raw_parts(L::init(), value)
    }
}

impl<L: RawMutex, T: Default> Default for Mutex<L, T> {
    fn default() -> (mutex: Self)
        ensures
            mutex.raw_lock() == L::initial(),
            mutex.raw_lock().exc_ready(),
    {
        Self::new(T::default())
    }
}

impl<L: RawMutex, T> Mutex<L, T> {
    /// Locks the mutex.
    ///
    /// The guard starts with the value as it is, and the mutex ends with the
    /// lock and the value as the guard leaves them.
    pub fn lock(&mut self) -> (guard: ExclusiveGuard<'_, L, T>)
        requires
            old(self).raw_lock().exc_ready(),
        ensures
            *guard.raw.lock == old(self).raw_lock().exc_acquired(),
            guard.raw.lock.exc_held(),
            *guard.value == old(self).value(),
            final(self).raw_lock() == *final(guard.raw.lock),
            final(self).value() == *final(guard.value),
    {
        let raw = RawExclusiveGuard::new(&mut self.lock);
        ExclusiveGuard::from_raw_parts(raw, &mut self.value)
    }

    /// Locks the mutex if its lock is ready, and returns nothing if it is
    /// held: then the mutex stays as it is.
    pub fn try_lock(&mut self) -> (guard: Option<ExclusiveGuard<'_, L, T>>)
        ensures
            guard.is_some() == old(self).raw_lock().exc_ready(),
            match guard {
                Some(g) => {
                    &&& *g.raw.lock == old(self).raw_lock().exc_acquired()
                    &&& g.raw.lock.exc_held()
                    &&& *g.value == old(self).value()
                    &&& final(self).raw_lock() == *final(g.raw.lock)
                    &&& final(self).value() == *final(g.value)
                },
                None => *final(self) == *old(self),
            },
    {
        match RawExclusiveGuard::try_new(&mut self.lock) {
            Some(raw) => Some(ExclusiveGuard::from_raw_parts(raw, &mut self.value)),
            None => None,
        }
    }
}

/// Mutual exclusion: while the guard that `lock` or `try_lock` gave out holds
/// the lock, the lock is not ready, so that `try_lock` returns nothing and
/// `lock` cannot be called; once the guard has released the lock, the lock is
/// as it was before.
pub proof fn lemma_mutual_exclusion<L: RawMutex, T>(mutex: Mutex<L, T>)
    requires
        mutex.raw_lock().exc_ready(),
    ensures
        mutex.raw_lock().exc_acquired().exc_held(),
        !mutex.raw_lock().exc_acquired().exc_ready(),
        mutex.raw_lock().exc_acquired().exc_released() == mutex.raw_lock(),
{
    mutex.raw_lock().exc_laws();
    mutex.raw_lock().exc_acquired().exc_laws();
}

} // verus!
