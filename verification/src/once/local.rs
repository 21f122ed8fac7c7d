//! The raw lock that the one-time actions use where one thread has it to
//! itself.

use vstd::prelude::*;
use crate::exclusive_lock::RawExclusiveLock;
use crate::mutex::local_tagged::{RawLock as Tagged, TAG_MASK};
use crate::mutex::RawMutex;
use crate::RawLockInfo;
use crate::once::{Finish, Panic as GiveUp, Retry};

verus! {

/// A mutex over this lock.
pub type Mutex<T> = crate::mutex::Mutex<RawLock, T>;

/// A `Once` over this lock.
pub type Once = crate::once::Once<RawLock>;

/// A `OnceCell` over this lock.
pub type OnceCell<T> = crate::once::OnceCell<RawLock, T>;

/// A `Lazy` over this lock that gives up on a poisoned lock.
pub type Lazy<T, F> = crate::once::Lazy<RawLock, T, F, GiveUp>;

/// A `Lazy` over this lock that tries again on a poisoned lock.
pub type RertyLazy<T, F> = crate::once::Lazy<RawLock, T, F, Retry>;

/// A `RacyLazy` over this lock.
pub type RacyLazy<T, F> = crate::once::RacyLazy<RawLock, T, F>;

/// Tag bit: the action is done.
pub const DONE_BIT: u8 = 0b01;

/// Tag bit: an attempt has begun.
pub const POISON_BIT: u8 = 0b10;

/// A tagged lock that keeps the marks of a one-time action in two bits of its
/// tag.
pub struct RawLock {
    /// The lock, with the marks in its tag.
    pub inner: Tagged,
}

/// What setting a bit of the tag does to the two marks.
proof fn lemma_marks(tag: u8)
    ensures
        ((tag | DONE_BIT) & TAG_MASK) & DONE_BIT != 0,
        (((tag | DONE_BIT) & TAG_MASK) & POISON_BIT != 0) == (tag & POISON_BIT != 0),
        ((tag | POISON_BIT) & TAG_MASK) & POISON_BIT != 0,
        (((tag | POISON_BIT) & TAG_MASK) & DONE_BIT != 0) == (tag & DONE_BIT != 0),
        (tag & TAG_MASK) & DONE_BIT == tag & DONE_BIT,
        (tag & TAG_MASK) & POISON_BIT == tag & POISON_BIT,
{
    assert(((tag | DONE_BIT) & TAG_MASK) & DONE_BIT != 0) by (bit_vector);
    assert((((tag | DONE_BIT) & TAG_MASK) & POISON_BIT != 0) == (tag & POISON_BIT != 0))
        by (bit_vector);
    assert(((tag | POISON_BIT) & TAG_MASK) & POISON_BIT != 0) by (bit_vector);
    assert((((tag | POISON_BIT) & TAG_MASK) & DONE_BIT != 0) == (tag & DONE_BIT != 0))
        by (bit_vector);
    assert((tag & TAG_MASK) & DONE_BIT == tag & DONE_BIT) by (bit_vector);
    assert((tag & TAG_MASK) & POISON_BIT == tag & POISON_BIT) by (bit_vector);
}

impl RawLock {
    /// A lock that nobody holds, with no mark set.
    pub fn new() -> (lock: Self)
        ensures
            lock == Self::initial(),
            lock.exc_ready(),
            !lock.done(),
            !lock.poisoned(),
    {
        assert(0u8 & DONE_BIT == 0 && 0u8 & POISON_BIT == 0) by (bit_vector);
        RawLock { inner: Tagged::new() }
    }

    /// A mutex over a new lock.
    pub fn mutex<T>(value: T) -> (mutex: Mutex<T>)
        ensures
            mutex.raw_lock() == Self::initial(),
            mutex.value() == value,
    {
        Mutex::from_raw_parts(Self::new(), value)
    }

    /// A `Once` over a new lock.
    pub fn once() -> (once: Once)
        ensures
            once.raw_lock() == Self::initial(),
            once.can_begin::<GiveUp>(),
    {
        Once::from_raw(Self::new())
    }

    /// An empty `OnceCell` over a new lock.
    pub fn once_cell<T>() -> (cell: OnceCell<T>)
        ensures
            cell.wf(),
            cell.value().is_none(),
            cell.once().raw_lock() == Self::initial(),
            cell.once().can_begin::<GiveUp>(),
    {
        OnceCell::from_raw(Self::once())
    }

    /// A `Lazy` over a new lock, whose value `func` will make.
    pub fn lazy<T, F: FnOnce() -> T>(func: F) -> (lazy: Lazy<T, F>)
        ensures
            lazy.wf(),
            lazy.init() == func,
            lazy.value().is_none(),
            lazy.once().can_begin::<GiveUp>(),
    {
        Lazy::from_raw_parts(Self::once(), func)
    }

    /// A `Lazy` over a new lock, whose value `func` will make, also after an
    /// attempt that never came back.
    pub fn retry_lazy<T, F: FnOnce() -> T>(func: F) -> (lazy: RertyLazy<T, F>)
        ensures
            lazy.wf(),
            lazy.init() == func,
            lazy.value().is_none(),
            lazy.once().can_begin::<Retry>(),
    {
        RertyLazy::from_raw_parts(Self::once(), func)
    }

    /// A `RacyLazy` over a new lock, whose value `func` will make.
    pub fn racy_lazy<T, F: Fn() -> T>(func: F) -> (lazy: RacyLazy<T, F>)
        ensures
            lazy.wf(),
            lazy.func() == func,
            lazy.cell().value().is_none(),
            lazy.cell().once().can_begin::<GiveUp>(),
    {
        RacyLazy::from_raw_parts(Self::once_cell(), func)
    }
}

impl Finish for RawLock {
    open spec fn done(&self) -> bool {
        self.inner.spec_tag() & DONE_BIT != 0
    }

    open spec fn poisoned(&self) -> bool {
        self.inner.spec_tag() & POISON_BIT != 0
    }

    open spec fn marked_done(self) -> Self {
        RawLock { inner: Tagged::of(self.inner.is_locked(), self.inner.spec_tag() | DONE_BIT) }
    }

    open spec fn marked_poisoned(self) -> Self {
        RawLock { inner: Tagged::of(self.inner.is_locked(), self.inner.spec_tag() | POISON_BIT) }
    }

    proof fn finish_laws(self) {
        let tag = self.inner.spec_tag();
        lemma_marks(tag);
        Tagged::lemma_of(self.inner.is_locked(), tag | DONE_BIT);
        Tagged::lemma_of(self.inner.is_locked(), tag | POISON_BIT);
        Tagged::lemma_of(true, tag);
        Tagged::lemma_of(false, tag);
    }

    fn is_done(&self) -> (done: bool) {
        self.inner.tag() & DONE_BIT != 0
    }

    fn mark_done(&mut self) {
        self.inner.or_tag(DONE_BIT);
    }

    fn get_and_mark_poisoned(&mut self) -> (poisoned: bool) {
        let state = self.inner.or_tag(POISON_BIT);
        (state & POISON_BIT) != 0
    }
}

impl RawLockInfo for RawLock {
    open spec fn initial() -> Self {
        RawLock { inner: Tagged::of(false, 0) }
    }

    fn init() -> (lock: Self) {
        Self::new()
    }
}

impl RawMutex for RawLock {
    proof fn initial_ready() {
        Tagged::lemma_of(false, 0);
    }
}

impl RawExclusiveLock for RawLock {
    open spec fn exc_held(&self) -> bool {
        self.inner.exc_held()
    }

    open spec fn exc_ready(&self) -> bool {
        self.inner.exc_ready()
    }

    open spec fn exc_acquired(self) -> Self {
        RawLock { inner: self.inner.exc_acquired() }
    }

    open spec fn exc_released(self) -> Self {
        RawLock { inner: self.inner.exc_released() }
    }

    proof fn exc_laws(self) {
        self.inner.exc_laws();
    }

    fn exc_lock(&mut self) {
        proof {
            self.inner.exc_laws();
        }
        self.inner.exc_lock()
    }

    fn exc_try_lock(&mut self) -> (acquired: bool) {
        proof {
            self.inner.exc_laws();
        }
        self.inner.exc_try_lock()
    }

    fn exc_unlock(&mut self) {
        self.inner.exc_unlock()
    }

    fn exc_bump(&mut self) {
        self.inner.exc_bump()
    }
}

} // verus!
