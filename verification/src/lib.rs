//! Building blocks for synchronization primitives, with their protocols proved.
//!
//! The crate has two halves. The first is a layer of raw locks: small state
//! machines that say when a lock can be taken and what taking and releasing it
//! does to the lock ([`exclusive_lock`], [`share_lock`]), the guards that pair
//! every acquisition with one release, and a [`mutex::Mutex`] that hands out
//! its value only through such a guard. One of the raw locks
//! ([`mutex::local_tagged`]) keeps a few *tag* bits next to its lock bit, in
//! the same word, for its owner to publish a summary that can be read without
//! taking the lock. The one-time actions of [`once`] keep their progress in
//! such a tag.
//!
//! The second half is the [`waker_set::WakerSet`]: a registry of the wake
//! handles of suspended operations, stored in a [`slab::Slab`], which are
//! notified one at a time or all at once, in ascending order of their keys.
//!
//! Every operation of these takes the value it changes by `&mut`, so that its
//! contract can say what the value was before the call and what it is after
//! it. An operation that would have to wait for a lock that is held has the
//! lock's readiness as its precondition, and a guard is released by a call,
//! not by being dropped.
//!
//! For use from many threads there is the
//! [`waker_set::shared::SharedWakerSet`], which keeps a `WakerSet` behind a
//! lock and works through `&`.

use vstd::prelude::*;

pub mod count;
pub mod exclusive_lock;
pub mod mutex;
pub mod once;
pub mod rwlock;
pub mod share_lock;
pub mod slab;
pub mod waker_set;

verus! {

/// What every raw lock knows of itself: the state it starts in.
pub trait RawLockInfo: Sized {
    /// The lock in its initial state.
    spec fn initial() -> Self;

    /// A lock in its initial state.
    fn init() -> (lock: Self)
        ensures
            lock == Self::initial(),
    ;
}

} // verus!
