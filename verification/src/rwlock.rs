//! A raw lock for one writer or many readers.

use vstd::prelude::*;
use crate::exclusive_lock::{RawExclusiveLock, RawExclusiveLockDowngrade, RawExclusiveLockFair};
use crate::mutex::RawMutex;
use crate::RawLockInfo;
use crate::share_lock::{RawShareLock, RawShareLockFair};

verus! {

/// The state of a lock that is held exclusively.
pub const EXCLUSIVE: usize = usize::MAX;

/// A lock that is free, held by one writer, or held by a number of readers.
pub struct RawLock {
    /// 0 while the lock is free, [`EXCLUSIVE`] while an *exc lock* is held,
    /// else the number of *shr lock*s that are held.
    pub state: usize,
}

impl RawLock {
    /// A lock that is free.
    pub fn new() -> (lock: Self)
        ensures
            lock.state == 0,
    {
        RawLock { state: 0 }
    }
}

impl RawExclusiveLock for RawLock {
    open spec fn exc_held(&self) -> bool {
        self.state == EXCLUSIVE
    }

    open spec fn exc_ready(&self) -> bool {
        self.state == 0
    }

    open spec fn exc_acquired(self) -> Self {
        RawLock { state: EXCLUSIVE }
    }

    open spec fn exc_released(self) -> Self {
        RawLock { state: 0 }
    }

    proof fn exc_laws(self) {
    }

    fn exc_lock(&mut self) {
        self.state = EXCLUSIVE;
    }

    fn exc_try_lock(&mut self) -> (acquired: bool) {
        if self.state == 0 {
            self.state = EXCLUSIVE;
            true
        } else {
            false
        }
    }

    fn exc_unlock(&mut self) {
        self.state = 0;
    }
}

impl RawExclusiveLockFair for RawLock {
    fn exc_unlock_fair(&mut self) {
        self.exc_unlock();
    }
}

impl RawShareLock for RawLock {
    open spec fn shr_held(&self) -> bool {
        0 < self.state < EXCLUSIVE
    }

    open spec fn shr_ready(&self) -> bool {
        self.state < EXCLUSIVE - 1
    }

    open spec fn shr_acquired(self) -> Self {
        RawLock { state: (self.state + 1) as usize }
    }

    open spec fn shr_released(self) -> Self {
        RawLock { state: (self.state - 1) as usize }
    }

    proof fn shr_laws(self) {
    }

    fn shr_lock(&mut self) {
        self.state = self.state + 1;
    }

    fn shr_try_lock(&mut self) -> (acquired: bool) {
        if self.state < EXCLUSIVE - 1 {
            self.state = self.state + 1;
            true
        } else {
            false
        }
    }

    fn shr_split(&mut self) {
        self.state = self.state + 1;
    }

    fn shr_unlock(&mut self) {
        self.state = self.state - 1;
    }
}

impl RawShareLockFair for RawLock {
    fn shr_unlock_fair(&mut self) {
        self.shr_unlock();
    }
}

impl RawExclusiveLockDowngrade for RawLock {
    open spec fn downgradable(&self) -> bool {
        self.state == EXCLUSIVE
    }

    open spec fn downgraded(self) -> Self {
        RawLock { state: 1 }
    }

    proof fn downgrade_laws(self) {
    }

    fn downgrade(&mut self) {
        self.state = 1;
    }
}

impl RawLockInfo for RawLock {
    open spec fn initial() -> Self {
        RawLock { state: 0 }
    }

    fn init() -> (lock: Self) {
        Self::new()
    }
}

impl RawMutex for RawLock {
    proof fn initial_ready() {
    }
}

} // verus!
