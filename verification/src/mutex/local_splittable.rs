//! A raw lock whose *exc lock* can be split among several owners.

use vstd::prelude::*;
use crate::exclusive_lock::{RawExclusiveLock, RawExclusiveLockFair, SplittableExclusiveLock};
use crate::mutex::RawMutex;
use crate::RawLockInfo;

verus! {

/// A lock that counts the owners of its *exc lock*.
///
/// It is taken by one owner. That owner, and every owner after it, can split
/// off a share for another; the lock is free again when each of them has
/// released its share.
pub struct RawLock {
    /// The number of owners: 0 while the lock is free.
    pub owners: usize,
}

impl RawLock {
    /// A lock that is free.
    pub fn new() -> (lock: Self)
        ensures
            lock.owners == 0,
    {
        RawLock { owners: 0 }
    }
}

impl RawExclusiveLock for RawLock {
    open spec fn exc_held(&self) -> bool {
        self.owners > 0
    }

    open spec fn exc_ready(&self) -> bool {
        self.owners == 0
    }

    open spec fn exc_acquired(self) -> Self {
        RawLock { owners: 1 }
    }

    open spec fn exc_released(self) -> Self {
        RawLock { owners: (self.owners - 1) as usize }
    }

    proof fn exc_laws(self) {
    }

    fn exc_lock(&mut self) {
        self.owners = 1;
    }

    fn exc_try_lock(&mut self) -> (acquired: bool) {
        if self.owners == 0 {
            self.owners = 1;
            true
        } else {
            false
        }
    }

    fn exc_unlock(&mut self) {
        self.owners = self.owners - 1;
    }
}

impl RawExclusiveLockFair for RawLock {
    fn exc_unlock_fair(&mut self) {
        self.exc_unlock();
    }
}

impl SplittableExclusiveLock for RawLock {
    open spec fn exc_splittable(&self) -> bool {
        0 < self.owners < usize::MAX
    }

    open spec fn exc_split_off(self) -> Self {
        RawLock { owners: (self.owners + 1) as usize }
    }

    proof fn split_laws(self) {
    }

    fn exc_split(&mut self) {
        self.owners = self.owners + 1;
    }
}

impl RawLockInfo for RawLock {
    open spec fn initial() -> Self {
        RawLock { owners: 0 }
    }

    fn init() -> (lock: Self) {
        Self::new()
    }
}

impl RawMutex for RawLock {
    proof fn initial_ready() {
    }
}

} // verus!
