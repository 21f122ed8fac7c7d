//! The waker set for tasks on many threads.
//!
//! A [`WakerSet`](crate::waker_set::WakerSet) changes under `&mut`. Here it
//! stands behind a lock, so that any number of threads can register and
//! notify through `&`. The lock lets a set in and out only at rest, so that
//! every thread finds the set consistent, whatever the others did before.
//!
//! The tag of the set is copied into an atomic byte each time the lock is
//! released. A notifier reads the byte first and takes the lock only if the
//! byte says that there is something to do. The byte may be one operation
//! behind: it is a hint. What is done is decided under the lock, by the set
//! itself.

use std::sync::atomic::{AtomicU8, Ordering};
use std::task::{Context, Waker};
use vstd::prelude::*;
use vstd::rwlock::{RwLock, RwLockPredicate, WriteHandle};
use crate::waker_set::{has_notifiable, has_notified, WakerSet};

verus! {

/// The context that a task is polled with.
#[verifier::external_type_specification]
#[verifier::external_body]
pub struct ExContext<'a>(Context<'a>);

/// The wake handle of the task that is polled with `cx`.
///
/// This is `std::task::Context::waker`. Nothing is claimed of the handle.
#[verifier::external_body]
fn context_waker<'a>(cx: &'a Context<'_>) -> (waker: &'a Waker) {
    cx.waker()
}

/// A copy of a wake handle.
///
/// This is `Clone::clone` of `std::task::Waker`. The copy wakes the task that
/// the handle wakes; no contract can say so, and none does.
#[verifier::external_body]
fn clone_waker(waker: &Waker) -> (copy: Waker) {
    waker.clone()
}

/// What the lock of a shared set asks of the set: that it is at rest.
pub struct AtRest;

impl RwLockPredicate<WakerSet> for AtRest {
    open spec fn inv(self, set: WakerSet) -> bool {
        set.wf()
    }
}

/// A set holding wakers, shared between threads.
///
/// What an operation finds depends on what other threads did before it, so
/// the contracts here say nothing of results. What each operation does to the
/// set it finds is the contract of the operation of the same name of
/// [`WakerSet`](crate::waker_set::WakerSet).
///
/// A wake handle that panics leaves the set locked for good.
pub struct SharedWakerSet {
    /// The tag of the set as it was when the lock was last released.
    flag: AtomicU8,
    /// The set.
    inner: RwLock<WakerSet, AtRest>,
}

/// A guard holding a `SharedWakerSet` locked.
struct Lock<'a> {
    /// The set, out of its lock.
    set: WakerSet,
    /// The place to copy the tag to.
    flag: &'a AtomicU8,
    /// The right to put the set back.
    handle: WriteHandle<'a, WakerSet, AtRest>,
}

impl<'a> Lock<'a> {
    /// Copies the tag of the set and puts the set back into its lock.
    fn release(self)
        requires
            self.set.wf(),
    {
        let Lock { set, flag, handle } = self;
        flag.store(set.flag(), Ordering::Release);
        handle.release_write(set);
    }
}

impl SharedWakerSet {
    /// Creates a new `SharedWakerSet`.
    pub fn new() -> SharedWakerSet {
        let set = WakerSet::new();
        SharedWakerSet { flag: AtomicU8::new(set.flag()), inner: RwLock::new(set, Ghost(AtRest)) }
    }

    /// Inserts a waker for a blocked operation and returns a key associated
    /// with it.
    pub fn insert(&self, cx: &Context<'_>) -> usize {
        let w = clone_waker(context_waker(cx));
        let mut inner = self.lock();
        let key = inner.set.insert(w);
        inner.release();
        key
    }

    /// Removes the waker of an operation.
    pub fn remove(&self, key: usize) {
        let mut inner = self.lock();
        inner.set.remove(key);
        inner.release();
    }

    /// Removes the waker of a cancelled operation.
    ///
    /// Returns `true` if another blocked operation from the set was notified.
    pub fn cancel(&self, key: usize) -> bool {
        let mut inner = self.lock();
        let transferred = inner.set.cancel(key);
        inner.release();
        transferred
    }

    /// Reads the copy of the tag.
    fn flag(&self) -> u8 {
        // Use `Acquire` ordering to synchronize with `Lock::release()`.
        self.flag.load(Ordering::Acquire)
    }

    /// Notifies a blocked operation if none have been notified already.
    ///
    /// Returns `true` if an operation was notified.
    pub fn notify_any(&self) -> bool {
        let flag = self.flag();

        if !has_notified(flag) && has_notifiable(flag) {
            let mut inner = self.lock();
            let woke = inner.set.notify_any();
            inner.release();
            woke
        } else {
            false
        }
    }

    /// Notifies one additional blocked operation.
    ///
    /// Returns `true` if an operation was notified.
    pub fn notify_one(&self) -> bool {
        if has_notifiable(self.flag()) {
            let mut inner = self.lock();
            let woke = inner.set.notify_one();
            inner.release();
            woke
        } else {
            false
        }
    }

    /// Notifies all blocked operations.
    ///
    /// Returns `true` if at least one operation was notified.
    pub fn notify_all(&self) -> bool {
        if has_notifiable(self.flag()) {
            let mut inner = self.lock();
            let woke = inner.set.notify_all();
            inner.release();
            woke
        } else {
            false
        }
    }

    /// Locks the set. The call returns when no other thread holds the lock.
    fn lock(&self) -> (guard: Lock<'_>)
        ensures
            guard.set.wf(),
    {
        let (set, handle) = self.inner.acquire_write();
        Lock { set, flag: &self.flag, handle }
    }

    /// Takes the set out of its lock for good.
    pub fn into_inner(self) -> (set: WakerSet)
        ensures
            set.wf(),
    {
        self.inner.into_inner()
    }
}

} // verus!
