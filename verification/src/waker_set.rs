//! A registry of the wake handles of suspended operations.
//!
//! An operation that cannot make progress registers its wake handle and keeps
//! the key it gets for it. Whoever changes what the operation waits for
//! notifies the set, which takes the handle out of its entry and wakes it. An
//! entry whose handle has been taken stays registered, as *notified*, until its
//! operation removes it.
//!
//! The set keeps its entries behind a mutex whose lock carries a tag of two
//! bits, [`NOTIFIED`] and [`NOTIFIABLE`]. Every release of the lock writes the
//! tag anew from the entries, and the notifying operations read it first: they
//! take the lock only where there is something for them to do.
//!
//! The contracts speak of three things: the slots of the set, by key
//! (its view); the keys that are free, in the order in which they will be
//! used again ([`WakerSet::vacant`]); and the handles that the set has woken
//! ([`WakerSet::woken`]).

use vstd::prelude::*;
use std::task::Waker;
use crate::count::{
    count, first, lemma_count_bound, lemma_count_disjoint, lemma_count_pointwise,
    lemma_count_push, lemma_count_update, lemma_count_zero, lemma_first, lemma_first_from_at,
    one_if,
};
use crate::exclusive_lock::ExclusiveGuard;
use crate::mutex::local_tagged::RawLock;
use crate::mutex::Mutex;
use crate::slab::{
    next_key, occupied, slot_at, slots_inserted, slots_removed, vacant_inserted, vacant_removed,
    Slab,
};

pub mod shared;
pub mod wake;

pub use wake::WakeLog;

verus! {

/// Tag bit: at least one entry has been notified and is still registered.
pub const NOTIFIED: u8 = 0b01;

/// Tag bit: at least one entry holds a wake handle.
pub const NOTIFIABLE: u8 = 0b10;

/// Whether a tag says that some entry has been notified and is still
/// registered.
pub fn has_notified(flag: u8) -> (yes: bool)
    ensures
        yes == (flag & NOTIFIED != 0),
{
    flag & NOTIFIED != 0
}

/// Whether a tag says that some entry waits.
pub fn has_notifiable(flag: u8) -> (yes: bool)
    ensures
        yes == (flag & NOTIFIABLE != 0),
{
    flag & NOTIFIABLE != 0
}

/// What a key of the set stands for: `None` if the key is free, `Some(None)`
/// for an entry that has been notified, `Some(Some(handle))` for an entry that
/// waits.
pub type Slot = Option<Option<Waker>>;

/// The property of a slot to be an entry that waits.
pub open spec fn waiting() -> spec_fn(Slot) -> bool {
    |slot: Slot| slot matches Some(Some(_))
}

/// The property of a slot to be an entry that has been notified.
pub open spec fn notified() -> spec_fn(Slot) -> bool {
    |slot: Slot| slot == Some(None::<Waker>)
}

/// The slot of an entry that has been notified.
pub open spec fn taken() -> Slot {
    Some(None)
}

/// The tag that sums up the entries.
pub open spec fn summary(slots: Seq<Slot>) -> u8 {
    let some_notified = count(slots, notified()) > 0;
    let some_waiting = count(slots, waiting()) > 0;
    if some_notified && some_waiting {
        0b11
    } else if some_notified {
        NOTIFIED
    } else if some_waiting {
        NOTIFIABLE
    } else {
        0
    }
}

/// The entries after the first that waits, in the order of the keys, has been
/// notified. Nothing changes if none waits.
pub open spec fn one_notified(slots: Seq<Slot>) -> Seq<Slot> {
    let key = first(slots, waiting());
    if key < slots.len() {
        slots.update(key, taken())
    } else {
        slots
    }
}

/// The entries after every one that waits has been notified.
pub open spec fn all_notified(slots: Seq<Slot>) -> Seq<Slot> {
    Seq::new(
        slots.len(),
        |key: int|
            if waiting()(slots[key]) {
                taken()
            } else {
                slots[key]
            },
    )
}

/// The entries after the first of them, in the order of the keys, has been
/// notified if it waits. Nothing changes if it has been notified before, or
/// if there is no entry.
pub open spec fn head_notified(slots: Seq<Slot>) -> Seq<Slot> {
    let key = first(slots, occupied());
    if key < slots.len() && waiting()(slots[key]) {
        slots.update(key, taken())
    } else {
        slots
    }
}

/// The entries after a notification that goes ahead only if no entry has been
/// notified and is still registered: then the first entry that waits is
/// notified.
pub open spec fn any_notified(slots: Seq<Slot>) -> Seq<Slot> {
    if count(slots, notified()) == 0 {
        one_notified(slots)
    } else {
        slots
    }
}

/// The entries after the entry under `key` has been cancelled: the entry is
/// gone, and if it had been notified, the first entry that still waits is
/// notified in its place.
pub open spec fn cancelled(slots: Seq<Slot>, key: int) -> Seq<Slot> {
    if slot_at(slots, key) == Some(None::<Waker>) {
        one_notified(slots_removed(slots, key))
    } else {
        slots_removed(slots, key)
    }
}

/// Whether cancelling the entry under `key` passes its notification on.
pub open spec fn cancel_transfers(slots: Seq<Slot>, key: int) -> bool {
    slot_at(slots, key) == Some(None::<Waker>) && count(slots_removed(slots, key), waiting()) > 0
}

/// The handle of an entry that waits.
pub open spec fn handle_of(slot: Slot) -> Waker {
    slot.unwrap().unwrap()
}

/// The handles of the entries that wait, in the order of the keys.
pub open spec fn handles(slots: Seq<Slot>) -> Seq<Waker>
    decreases slots.len(),
{
    if slots.len() == 0 {
        Seq::empty()
    } else if waiting()(slots.last()) {
        handles(slots.drop_last()).push(handle_of(slots.last()))
    } else {
        handles(slots.drop_last())
    }
}

/// The handle of the first entry that waits, in the order of the keys, if any
/// waits: what [`one_notified`] wakes.
pub open spec fn one_woken(slots: Seq<Slot>) -> Seq<Waker> {
    let key = first(slots, waiting());
    if key < slots.len() {
        seq![handle_of(slots[key])]
    } else {
        Seq::empty()
    }
}

/// What [`any_notified`] wakes.
pub open spec fn any_woken(slots: Seq<Slot>) -> Seq<Waker> {
    if count(slots, notified()) == 0 {
        one_woken(slots)
    } else {
        Seq::empty()
    }
}

/// What [`head_notified`] wakes.
pub open spec fn head_woken(slots: Seq<Slot>) -> Seq<Waker> {
    let key = first(slots, occupied());
    if key < slots.len() && waiting()(slots[key]) {
        seq![handle_of(slots[key])]
    } else {
        Seq::empty()
    }
}

/// What [`cancelled`] wakes.
pub open spec fn cancel_woken(slots: Seq<Slot>, key: int) -> Seq<Waker> {
    if slot_at(slots, key) == Some(None::<Waker>) {
        one_woken(slots_removed(slots, key))
    } else {
        Seq::empty()
    }
}

/// How many entries to notify.
#[derive(Clone, Copy, PartialEq, Eq, Structural)]
enum Notify {
    /// Make sure at least one entry is notified.
    Any,
    /// Notify one additional entry.
    One,
    /// Notify all entries.
    All,
}

/// The entries after a pass of the given kind over them.
spec fn passed(slots: Seq<Slot>, n: Notify) -> Seq<Slot> {
    match n {
        Notify::Any => head_notified(slots),
        Notify::One => one_notified(slots),
        Notify::All => all_notified(slots),
    }
}

/// The handles that a pass of the given kind over the entries wakes, in the
/// order in which it wakes them.
spec fn pass_wakes(slots: Seq<Slot>, n: Notify) -> Seq<Waker> {
    match n {
        Notify::Any => head_woken(slots),
        Notify::One => one_woken(slots),
        Notify::All => handles(slots),
    }
}

/// Whether a pass of the given kind over the entries notifies any of them.
spec fn pass_notifies(slots: Seq<Slot>, n: Notify) -> bool {
    match n {
        Notify::Any => first(slots, occupied()) < slots.len() && waiting()(
            slots[first(slots, occupied())],
        ),
        Notify::One => count(slots, waiting()) > 0,
        Notify::All => count(slots, waiting()) > 0,
    }
}

/// Every entry either waits or has been notified, never both.
pub proof fn lemma_entries(slots: Seq<Slot>)
    ensures
        count(slots, occupied()) == count(slots, waiting()) + count(slots, notified()),
        count(slots, occupied()) <= slots.len(),
{
    lemma_count_disjoint(slots, waiting(), notified(), occupied());
    lemma_count_bound(slots, occupied());
}

/// What the mutex of a set protects.
struct Inner {
    /// The entries, each under its key. An entry without a handle has been
    /// notified and has not removed itself yet.
    entries: Slab<Option<Waker>>,
    /// The number of entries that hold a handle.
    notifiable: usize,
    /// The handles that were woken.
    woken: WakeLog,
}

impl Inner {
    /// The count of the entries that wait is right.
    spec fn consistent(&self) -> bool {
        &&& self.entries.wf()
        &&& self.notifiable == count(self.entries@, waiting())
    }

    /// Walks the entries in the order of their keys and wakes, for
    /// `Notify::All`, each that waits; for `Notify::One`, the first that
    /// waits; for `Notify::Any`, the first entry, if it waits.
    fn notify(&mut self, n: Notify) -> (woke: bool)
        requires
            old(self).consistent(),
        ensures
            final(self).consistent(),
            final(self).entries@ == passed(old(self).entries@, n),
            final(self).entries.vacant() == old(self).entries.vacant(),
            final(self).woken@ == old(self).woken@ + pass_wakes(old(self).entries@, n),
            woke == pass_notifies(old(self).entries@, n),
    {
        let ghost before = self.entries@;
        let bound = self.entries.key_bound();
        let mut woke = false;
        let mut key: usize = 0;
        while key < bound
            invariant_except_break
                n != Notify::All ==> self.entries@ == before && !woke,
                n != Notify::All ==> self.woken@ == old(self).woken@,
                n != Notify::All ==> forall|j: int|
                    0 <= j < key ==> !waiting()(#[trigger] before[j]),
                n == Notify::Any ==> forall|j: int|
                    0 <= j < key ==> !occupied()(#[trigger] before[j]),
            invariant
                key <= bound,
                bound == before.len(),
                self.entries@.len() == before.len(),
                self.entries.wf(),
                self.entries.vacant() == old(self).entries.vacant(),
                self.notifiable == count(self.entries@, waiting()),
                n == Notify::All ==> forall|j: int|
                    0 <= j < key ==> (#[trigger] self.entries@[j]) == all_notified(before)[j],
                n == Notify::All ==> forall|j: int|
                    key <= j < bound ==> (#[trigger] self.entries@[j]) == before[j],
                n == Notify::All ==> (woke <==> exists|j: int|
                    0 <= j < key && waiting()(#[trigger] before[j])),
                n == Notify::All ==> self.woken@ == old(self).woken@ + handles(
                    before.take(key as int),
                ),
            ensures
                n == Notify::All ==> key == bound,
                n != Notify::All ==> {
                    ||| {
                        &&& self.entries@ == passed(before, n)
                        &&& woke == pass_notifies(before, n)
                        &&& self.woken@ == old(self).woken@ + pass_wakes(before, n)
                    }
                    ||| {
                        &&& self.entries@ == before
                        &&& self.woken@ == old(self).woken@
                        &&& !woke
                        &&& forall|j: int| 0 <= j < bound ==> !waiting()(#[trigger] before[j])
                        &&& n == Notify::Any ==> forall|j: int|
                            0 <= j < bound ==> !occupied()(#[trigger] before[j])
                    }
                },
            decreases bound - key,
        {
            let ghost current = self.entries@;
            assert(before.take(key as int + 1).drop_last() =~= before.take(key as int));
            match self.entries.get_mut(key) {
                Some(slot) => {
                    if let Some(waker) = slot.take() {
                        self.woken.wake(waker);
                        proof {
                            lemma_count_update(current, key as int, taken(), waiting());
                            assert(old(self).woken@ + handles(before.take(key as int)).push(waker)
                                =~= (old(self).woken@ + handles(before.take(key as int))).push(
                                waker,
                            ));
                        }
                        self.notifiable = self.notifiable - 1;
                        woke = true;
                        if n == Notify::One {
                            proof {
                                lemma_first_from_at(before, waiting(), 0, key as int);
                                lemma_count_zero(before, waiting());
                            }
                            break ;
                        }
                    } else {
                        assert(self.entries@ =~= current);
                    }
                    if n == Notify::Any {
                        proof {
                            lemma_first_from_at(before, occupied(), 0, key as int);
                        }
                        break ;
                    }
                },
                None => {},
            }
            key = key + 1;
        }
        proof {
            lemma_count_zero(before, waiting());
            if n == Notify::All {
                assert(before.take(bound as int) =~= before);
            } else if self.entries@ == before && !woke {
                if forall|j: int| 0 <= j < bound ==> !waiting()(#[trigger] before[j]) {
                    lemma_first_from_at(before, waiting(), 0, before.len() as int);
                    if n == Notify::Any {
                        lemma_first(before, occupied());
                    }
                }
            }
        }
        woke
    }
}

/// The tag of two bits that sums up the entries.
pub proof fn lemma_summary(slots: Seq<Slot>)
    ensures
        summary(slots) <= 0b11,
        (summary(slots) & NOTIFIED != 0) == (count(slots, notified()) > 0),
        (summary(slots) & NOTIFIABLE != 0) == (count(slots, waiting()) > 0),
{
    assert(0b11u8 & 0b01 != 0 && 0b11u8 & 0b10 != 0) by (bit_vector);
    assert(0b01u8 & 0b01 != 0 && 0b01u8 & 0b10 == 0) by (bit_vector);
    assert(0b10u8 & 0b01 == 0 && 0b10u8 & 0b10 != 0) by (bit_vector);
    assert(0u8 & 0b01 == 0 && 0u8 & 0b10 == 0) by (bit_vector);
}

/// A set holding wakers.
///
/// Its view is the sequence of its slots, by key.
pub struct WakerSet {
    /// The entries. The tag of the lock holds 2 bits: `NOTIFIED` and
    /// `NOTIFIABLE`.
    inner: Mutex<RawLock, Inner>,
}

impl View for WakerSet {
    type V = Seq<Slot>;

    closed spec fn view(&self) -> Seq<Slot> {
        self.inner.value().entries@
    }
}

/// A guard holding a `WakerSet` locked.
struct Lock<'a> {
    waker_set: ExclusiveGuard<'a, RawLock, Inner>,
}

impl<'a> Lock<'a> {
    /// Writes the tag anew from the entries and releases the lock.
    fn release(self)
        requires
            self.waker_set.raw.lock.is_locked(),
            self.waker_set.value.consistent(),
        ensures
            *final(self.waker_set.value) == *old(self.waker_set.value),
            *final(self.waker_set.raw.lock) == RawLock::of(
                false,
                summary(old(self.waker_set.value).entries@),
            ),
    {
        let Lock { waker_set: mut guard } = self;
        let ghost slots = guard.value.entries@;
        proof {
            lemma_entries(slots);
        }
        let mut flag: u8 = 0;

        // Set the `NOTIFIED` flag if there is at least one notified entry.
        if guard.value.entries.len() - guard.value.notifiable > 0 {
            assert(0u8 | NOTIFIED == NOTIFIED) by (bit_vector);
            flag |= NOTIFIED;
        }
        // Set the `NOTIFIABLE` flag if there is at least one notifiable entry.
        if guard.value.notifiable > 0 {
            assert(0u8 | NOTIFIABLE == NOTIFIABLE && NOTIFIED | NOTIFIABLE == 0b11) by (bit_vector);
            flag |= NOTIFIABLE;
        }
        let ghost held = *guard.raw.lock;
        guard.raw.inner_mut().swap_tag(flag);
        proof {
            RawLock::lemma_of(held.is_locked(), flag);
            RawLock::lemma_of(false, flag);
        }
        guard.unlock();
    }
}

impl WakerSet {
    /// The free keys, in the order in which they were freed: the last of them
    /// is the key of the next entry.
    pub closed spec fn vacant(&self) -> Seq<usize> {
        self.inner.value().entries.vacant()
    }

    /// The handles that the set has woken since it was made, in the order in
    /// which it woke them.
    pub closed spec fn woken(&self) -> Seq<Waker> {
        self.inner.value().woken@
    }

    /// The tag of the lock.
    pub closed spec fn spec_flag(&self) -> u8 {
        self.inner.raw_lock().spec_tag()
    }

    /// The count that the set keeps of its entries that wait.
    pub closed spec fn spec_notifiable(&self) -> usize {
        self.inner.value().notifiable
    }

    /// The set is at rest: nobody holds its lock, the count of its waiting
    /// entries is right, and the tag says what the entries are.
    pub closed spec fn wf(&self) -> bool {
        &&& self.inner.value().consistent()
        &&& self.inner.raw_lock() == RawLock::of(false, summary(self@))
    }

    /// In a set at rest the count of the waiting entries is right, the tag
    /// sums up the entries, and the free keys are the keys of the empty slots,
    /// each of them once.
    pub proof fn lemma_wf(&self)
        requires
            self.wf(),
        ensures
            self.spec_notifiable() == count(self@, waiting()),
            self.spec_flag() == summary(self@),
            self@.len() <= usize::MAX,
            count(self@, occupied()) + self.vacant().len() == self@.len(),
            forall|i: int|
                0 <= i < self.vacant().len() ==> (#[trigger] self.vacant()[i]) < self@.len()
                    && self@[self.vacant()[i] as int].is_none(),
            forall|i: int, j: int|
                0 <= i < j < self.vacant().len() ==> self.vacant()[i] != self.vacant()[j],
            forall|key: usize|
                key < self@.len() && (#[trigger] self@[key as int]).is_none()
                    ==> self.vacant().contains(key),
    {
        self.inner.value().entries.lemma_wf();
        lemma_summary(self@);
        RawLock::lemma_of(false, summary(self@));
    }

    /// Creates a new `WakerSet`.
    pub fn new() -> (set: WakerSet)
        ensures
            set.wf(),
            set@ == Seq::<Slot>::empty(),
            set.vacant() == Seq::<usize>::empty(),
            set.woken() == Seq::<Waker>::empty(),
    {
        WakerSet {
            inner: RawLock::mutex(
                Inner { entries: Slab::new(), notifiable: 0, woken: WakeLog::new() },
            ),
        }
    }

    /// Locks the list of entries.
    fn lock(&mut self) -> (guard: Lock<'_>)
        requires
            old(self).wf(),
        ensures
            guard.waker_set.raw.lock.is_locked(),
            *guard.waker_set.value == old(self).inner.value(),
            guard.waker_set.value.consistent(),
            final(self).inner.raw_lock() == *final(guard.waker_set.raw.lock),
            final(self).inner.value() == *final(guard.waker_set.value),
    {
        proof {
            RawLock::lemma_of(false, summary(self@));
        }
        Lock { waker_set: self.inner.lock() }
    }

    /// Inserts a waker for a blocked operation and returns a key associated
    /// with it: the key that was freed last, or the first that was never used.
    pub fn insert(&mut self, waker: Waker) -> (key: usize)
        requires
            old(self).wf(),
        ensures
            final(self).wf(),
            key == next_key(old(self)@.len() as int, old(self).vacant()),
            final(self)@ == slots_inserted(old(self)@, old(self).vacant(), Some(waker)),
            final(self).vacant() == vacant_inserted(old(self).vacant()),
            final(self).woken() == old(self).woken(),
            count(final(self)@, waiting()) == count(old(self)@, waiting()) + 1,
            count(final(self)@, occupied()) == count(old(self)@, occupied()) + 1,
    {
        let mut inner = self.lock();
        let ghost before = inner.waker_set.value.entries@;
        let ghost free = inner.waker_set.value.entries.vacant();
        proof {
            inner.waker_set.value.entries.lemma_wf();
            if free.len() > 0 {
                lemma_count_update(before, free.last() as int, Some(Some(waker)), waiting());
                lemma_count_update(before, free.last() as int, Some(Some(waker)), occupied());
            } else {
                lemma_count_push(before, Some(Some(waker)), waiting());
                lemma_count_push(before, Some(Some(waker)), occupied());
            }
        }
        let key = inner.waker_set.value.entries.insert(Some(waker));
        proof {
            inner.waker_set.value.entries.lemma_wf();
            lemma_count_bound(inner.waker_set.value.entries@, waiting());
        }
        inner.waker_set.value.notifiable = inner.waker_set.value.notifiable + 1;
        inner.release();
        key
    }

    /// Removes the waker of an operation. A key that is free stays free.
    pub fn remove(&mut self, key: usize)
        requires
            old(self).wf(),
        ensures
            final(self).wf(),
            final(self)@ == slots_removed(old(self)@, key as int),
            final(self).vacant() == vacant_removed(old(self)@, old(self).vacant(), key),
            final(self).woken() == old(self).woken(),
            count(final(self)@, occupied()) == count(old(self)@, occupied()) - one_if(
                occupied()(slot_at(old(self)@, key as int)),
            ),
            count(final(self)@, waiting()) == count(old(self)@, waiting()) - one_if(
                waiting()(slot_at(old(self)@, key as int)),
            ),
    {
        let mut inner = self.lock();
        let ghost before = inner.waker_set.value.entries@;
        proof {
            lemma_removed(before, key as int);
        }
        match inner.waker_set.value.entries.remove(key) {
            Some(Some(_)) => {
                inner.waker_set.value.notifiable = inner.waker_set.value.notifiable - 1;
            },
            _ => {},
        }
        inner.release();
    }

    /// Removes the waker of a cancelled operation.
    ///
    /// Returns `true` if another blocked operation from the set was notified:
    /// that happens if the entry had been notified itself and another entry
    /// still waits. The first such entry, in the order of the keys, is then
    /// notified in its place.
    pub fn cancel(&mut self, key: usize) -> (transferred: bool)
        requires
            old(self).wf(),
        ensures
            final(self).wf(),
            final(self)@ == cancelled(old(self)@, key as int),
            final(self).vacant() == vacant_removed(old(self)@, old(self).vacant(), key),
            final(self).woken() == old(self).woken() + cancel_woken(old(self)@, key as int),
            transferred == cancel_transfers(old(self)@, key as int),
            count(final(self)@, occupied()) == count(old(self)@, occupied()) - one_if(
                occupied()(slot_at(old(self)@, key as int)),
            ),
            count(final(self)@, waiting()) == count(old(self)@, waiting()) - one_if(
                waiting()(slot_at(old(self)@, key as int)) || transferred,
            ),
    {
        let mut inner = self.lock();
        let ghost before = inner.waker_set.value.entries@;
        proof {
            lemma_removed(before, key as int);
            lemma_one_notified(slots_removed(before, key as int));
            assert(inner.waker_set.value.woken@ + Seq::<Waker>::empty()
                =~= inner.waker_set.value.woken@);
        }
        let transferred = match inner.waker_set.value.entries.remove(key) {
            Some(Some(_)) => {
                inner.waker_set.value.notifiable = inner.waker_set.value.notifiable - 1;
                false
            },
            Some(None) => {
                // The operation was cancelled and notified so notify another
                // operation instead.
                inner.waker_set.value.notify(Notify::One)
            },
            None => false,
        };
        inner.release();
        transferred
    }

    /// Reads the tag, without locking.
    pub fn flag(&self) -> (flag: u8)
        ensures
            flag == self.spec_flag(),
    {
        self.inner.raw().tag()
    }

    /// Notifies a blocked operation if none have been notified already.
    ///
    /// Returns `true` if an operation was notified.
    pub fn notify_any(&mut self) -> (woke: bool)
        requires
            old(self).wf(),
        ensures
            final(self).wf(),
            final(self)@ == any_notified(old(self)@),
            final(self).vacant() == old(self).vacant(),
            final(self).woken() == old(self).woken() + any_woken(old(self)@),
            woke == (count(old(self)@, notified()) == 0 && count(old(self)@, waiting()) > 0),
            count(final(self)@, waiting()) == count(old(self)@, waiting()) - one_if(woke),
            count(final(self)@, notified()) == count(old(self)@, notified()) + one_if(woke),
    {
        proof {
            self.lemma_wf();
            lemma_summary(self@);
            lemma_any(self@);
            lemma_one_notified(self@);
            lemma_first(self@, waiting());
        }
        let flag = self.flag();

        if !has_notified(flag) && has_notifiable(flag) {
            self.notify(Notify::Any)
        } else {
            false
        }
    }

    /// Notifies one additional blocked operation: the first that waits, in the
    /// order of the keys.
    ///
    /// Returns `true` if an operation was notified.
    pub fn notify_one(&mut self) -> (woke: bool)
        requires
            old(self).wf(),
        ensures
            final(self).wf(),
            final(self)@ == one_notified(old(self)@),
            final(self).vacant() == old(self).vacant(),
            final(self).woken() == old(self).woken() + one_woken(old(self)@),
            woke == (count(old(self)@, waiting()) > 0),
            count(final(self)@, waiting()) == count(old(self)@, waiting()) - one_if(woke),
            count(final(self)@, notified()) == count(old(self)@, notified()) + one_if(woke),
    {
        proof {
            self.lemma_wf();
            lemma_summary(self@);
            lemma_first(self@, waiting());
            lemma_one_notified(self@);
        }
        if has_notifiable(self.flag()) {
            self.notify(Notify::One)
        } else {
            false
        }
    }

    /// Notifies all blocked operations.
    ///
    /// Returns `true` if at least one operation was notified.
    pub fn notify_all(&mut self) -> (woke: bool)
        requires
            old(self).wf(),
        ensures
            final(self).wf(),
            final(self)@ == all_notified(old(self)@),
            final(self).vacant() == old(self).vacant(),
            final(self).woken() == old(self).woken() + handles(old(self)@),
            woke == (count(old(self)@, waiting()) > 0),
            count(final(self)@, waiting()) == 0,
            count(final(self)@, occupied()) == count(old(self)@, occupied()),
    {
        proof {
            self.lemma_wf();
            lemma_summary(self@);
            lemma_all_notified(self@);
            lemma_handles(self@);
            lemma_count_zero(self@, waiting());
            if count(self@, waiting()) == 0 {
            }
        }
        if has_notifiable(self.flag()) {
            self.notify(Notify::All)
        } else {
            false
        }
    }

    /// Notifies blocked operations, either one or all of them.
    ///
    /// Returns `true` if at least one operation was notified.
    fn notify(&mut self, n: Notify) -> (woke: bool)
        requires
            old(self).wf(),
        ensures
            final(self).wf(),
            final(self)@ == passed(old(self)@, n),
            final(self).vacant() == old(self).vacant(),
            final(self).woken() == old(self).woken() + pass_wakes(old(self)@, n),
            woke == pass_notifies(old(self)@, n),
    {
        let mut inner = self.lock();
        let woke = inner.waker_set.value.notify(n);
        inner.release();
        woke
    }

    /// The number of entries that wait.
    pub fn notifiable(&mut self) -> (n: usize)
        requires
            old(self).wf(),
        ensures
            final(self).wf(),
            final(self)@ == old(self)@,
            final(self).vacant() == old(self).vacant(),
            final(self).woken() == old(self).woken(),
            n == old(self).spec_notifiable(),
            n == count(old(self)@, waiting()),
    {
        let inner = self.lock();
        let n = inner.waker_set.value.notifiable;
        inner.release();
        n
    }

    /// The number of entries, those that wait and those that have been
    /// notified.
    pub fn len(&mut self) -> (entries: usize)
        requires
            old(self).wf(),
        ensures
            final(self).wf(),
            final(self)@ == old(self)@,
            final(self).vacant() == old(self).vacant(),
            final(self).woken() == old(self).woken(),
            entries == count(old(self)@, occupied()),
    {
        let inner = self.lock();
        let entries = inner.waker_set.value.entries.len();
        inner.release();
        entries
    }
}

/// Where no entry has been notified, the first entry is the first that waits.
proof fn lemma_any(slots: Seq<Slot>)
    ensures
        count(slots, notified()) == 0 && count(slots, waiting()) > 0 ==> {
            &&& head_notified(slots) == one_notified(slots)
            &&& head_woken(slots) == one_woken(slots)
            &&& pass_notifies(slots, Notify::Any)
        },
        count(slots, waiting()) == 0 ==> one_notified(slots) == slots,
{
    lemma_first(slots, waiting());
    lemma_count_zero(slots, notified());
    if count(slots, notified()) == 0 && count(slots, waiting()) > 0 {
        let key = first(slots, waiting());
        assert forall|j: int| 0 <= j < key implies !occupied()(#[trigger] slots[j]) by {
        }
        lemma_first_from_at(slots, occupied(), 0, key);
    }
}

/// Every entry that waits has its handle among the handles, once: there are as
/// many handles as entries that wait, each entry that waits finds its handle
/// at a place of its own, and the places follow the order of the keys.
pub proof fn lemma_handles(slots: Seq<Slot>)
    ensures
        handles(slots).len() == count(slots, waiting()),
        forall|key: int|
            0 <= key < slots.len() && waiting()(#[trigger] slots[key]) ==> {
                &&& 0 <= count(slots.take(key), waiting()) < handles(slots).len()
                &&& handles(slots)[count(slots.take(key), waiting()) as int] == handle_of(
                    slots[key],
                )
            },
        count(slots, waiting()) == 0 ==> handles(slots) == Seq::<Waker>::empty(),
    decreases slots.len(),
{
    if slots.len() > 0 {
        let front = slots.drop_last();
        lemma_handles(front);
        assert forall|key: int|
            0 <= key < slots.len() && waiting()(#[trigger] slots[key]) implies {
            &&& 0 <= count(slots.take(key), waiting()) < handles(slots).len()
            &&& handles(slots)[count(slots.take(key), waiting()) as int] == handle_of(slots[key])
        } by {
            if key < slots.len() - 1 {
                assert(front[key] == slots[key]);
                assert(front.take(key) =~= slots.take(key));
            }
        }
    }
}

/// Freeing a key takes its entry, if there is one, out of every count.
pub proof fn lemma_removed(slots: Seq<Slot>, key: int)
    ensures
        slots_removed(slots, key).len() == slots.len(),
        count(slots_removed(slots, key), occupied()) == count(slots, occupied()) - one_if(
            occupied()(slot_at(slots, key)),
        ),
        count(slots_removed(slots, key), waiting()) == count(slots, waiting()) - one_if(
            waiting()(slot_at(slots, key)),
        ),
        count(slots_removed(slots, key), notified()) == count(slots, notified()) - one_if(
            notified()(slot_at(slots, key)),
        ),
{
    if 0 <= key < slots.len() {
        lemma_count_update(slots, key, None, occupied());
        lemma_count_update(slots, key, None, waiting());
        lemma_count_update(slots, key, None, notified());
    }
}

/// Notifying all leaves no entry waiting: each entry that waited has been
/// notified, and the others are as they were.
pub proof fn lemma_all_notified(slots: Seq<Slot>)
    ensures
        all_notified(slots).len() == slots.len(),
        forall|key: int|
            0 <= key < slots.len() && waiting()(#[trigger] slots[key]) ==> all_notified(slots)[key]
                == taken(),
        forall|key: int|
            0 <= key < slots.len() && !waiting()(#[trigger] slots[key]) ==> all_notified(
                slots,
            )[key] == slots[key],
        count(all_notified(slots), waiting()) == 0,
        count(all_notified(slots), occupied()) == count(slots, occupied()),
{
    lemma_count_zero(all_notified(slots), waiting());
    lemma_count_pointwise(slots, occupied(), all_notified(slots), occupied());
}

/// Notifying one moves exactly one entry from waiting to notified, if any
/// waits: the first in the order of the keys. The handle of that entry is
/// woken, and no other.
pub proof fn lemma_one_notified(slots: Seq<Slot>)
    ensures
        one_notified(slots).len() == slots.len(),
        count(slots, waiting()) == 0 ==> one_notified(slots) == slots && one_woken(slots)
            == Seq::<Waker>::empty(),
        count(slots, waiting()) > 0 ==> {
            &&& 0 <= first(slots, waiting()) < slots.len()
            &&& waiting()(slots[first(slots, waiting())])
            &&& one_notified(slots) == slots.update(first(slots, waiting()), taken())
            &&& one_woken(slots) == seq![handle_of(slots[first(slots, waiting())])]
            &&& count(one_notified(slots), waiting()) == count(slots, waiting()) - 1
            &&& count(one_notified(slots), notified()) == count(slots, notified()) + 1
        },
        count(one_notified(slots), occupied()) == count(slots, occupied()),
{
    lemma_first(slots, waiting());
    let key = first(slots, waiting());
    if key < slots.len() {
        lemma_count_update(slots, key, taken(), waiting());
        lemma_count_update(slots, key, taken(), notified());
        lemma_count_update(slots, key, taken(), occupied());
    }
}

/// Invariant of the set: after every operation the count that it keeps of its
/// waiting entries is the number of entries that hold a handle, and the number
/// of entries less that count is the number of entries that have been
/// notified.
pub proof fn lemma_counts(set: WakerSet)
    requires
        set.wf(),
    ensures
        set.spec_notifiable() == count(set@, waiting()),
        count(set@, occupied()) - set.spec_notifiable() == count(set@, notified()),
        (set.spec_flag() & NOTIFIABLE != 0) == (set.spec_notifiable() > 0),
        (set.spec_flag() & NOTIFIED != 0) == (count(set@, notified()) > 0),
{
    set.lemma_wf();
    lemma_entries(set@);
    lemma_summary(set@);
}

/// The entries after `times` notifications of the kind of
/// [`any_notified`], one after the other.
pub open spec fn any_notified_times(slots: Seq<Slot>, times: nat) -> Seq<Slot>
    decreases times,
{
    if times == 0 {
        slots
    } else {
        any_notified(any_notified_times(slots, (times - 1) as nat))
    }
}

/// Notifying any, again and again with no entry added or removed in between,
/// notifies at most one entry: every call after the first changes nothing and
/// wakes nobody.
pub proof fn lemma_notify_any_once(slots: Seq<Slot>, times: nat)
    ensures
        times >= 1 ==> any_notified_times(slots, times) == any_notified(slots),
        any_woken(slots).len() <= 1,
        any_woken(any_notified(slots)) == Seq::<Waker>::empty(),
        count(any_notified_times(slots, times), notified()) <= count(slots, notified()) + 1,
        count(any_notified_times(slots, times), waiting()) + 1 >= count(slots, waiting()),
        count(slots, notified()) > 0 ==> any_notified_times(slots, times) == slots,
    decreases times,
{
    lemma_one_notified(slots);
    lemma_one_notified(any_notified(slots));
    if times >= 1 {
        lemma_notify_any_once(slots, (times - 1) as nat);
    }
}

/// Storing a handle and removing it at once gives back the number of entries
/// that wait and the number of entries; the key is free again, and is the next
/// to be handed out.
pub proof fn lemma_insert_remove(set: WakerSet, waker: Waker)
    requires
        set.wf(),
    ensures
        ({
            let key = next_key(set@.len() as int, set.vacant());
            let stored = slots_inserted(set@, set.vacant(), Some(waker));
            let free = vacant_inserted(set.vacant());
            let removed = slots_removed(stored, key);
            &&& stored[key] == Some(Some(waker))
            &&& count(stored, waiting()) == count(set@, waiting()) + 1
            &&& count(stored, occupied()) == count(set@, occupied()) + 1
            &&& count(removed, waiting()) == count(set@, waiting())
            &&& count(removed, occupied()) == count(set@, occupied())
            &&& removed[key].is_none()
            &&& next_key(removed.len() as int, vacant_removed(stored, free, key as usize)) == key
            &&& set.vacant().len() > 0 ==> removed == set@ && vacant_removed(
                stored,
                free,
                key as usize,
            ) == set.vacant()
        }),
{
    set.lemma_wf();
    let key = next_key(set@.len() as int, set.vacant());
    let stored = slots_inserted(set@, set.vacant(), Some(waker));
    if set.vacant().len() > 0 {
        lemma_count_update(set@, key, Some(Some(waker)), waiting());
        lemma_count_update(set@, key, Some(Some(waker)), occupied());
    } else {
        lemma_count_push(set@, Some(Some(waker)), waiting());
        lemma_count_push(set@, Some(Some(waker)), occupied());
    }
    lemma_count_update(stored, key, None, waiting());
    lemma_count_update(stored, key, None, occupied());
}

/// No missed wakeup: an entry that waits when all are notified is notified,
/// its handle is among those that are woken, and the call says that it
/// notified somebody.
pub proof fn lemma_no_missed_wakeup(slots: Seq<Slot>, key: int)
    requires
        0 <= key < slots.len(),
        waiting()(slots[key]),
    ensures
        all_notified(slots)[key] == taken(),
        handles(slots).contains(handle_of(slots[key])),
        count(slots, waiting()) > 0,
{
    lemma_count_zero(slots, waiting());
    lemma_handles(slots);
}

/// No missed wakeup, from the start: a handle that is stored is notified when
/// all are notified next.
pub proof fn lemma_insert_notify_all(set: WakerSet, waker: Waker)
    requires
        set.wf(),
    ensures
        ({
            let key = next_key(set@.len() as int, set.vacant());
            let stored = slots_inserted(set@, set.vacant(), Some(waker));
            &&& 0 <= key < stored.len()
            &&& stored[key] == Some(Some(waker))
            &&& all_notified(stored)[key] == taken()
            &&& handles(stored).contains(waker)
            &&& count(stored, waiting()) > 0
        }),
{
    set.lemma_wf();
    let key = next_key(set@.len() as int, set.vacant());
    let stored = slots_inserted(set@, set.vacant(), Some(waker));
    lemma_no_missed_wakeup(stored, key);
}

/// Cancellation passes a notification on: when an entry that has been
/// notified is cancelled, either another entry waits, and then exactly one
/// such entry, the first in the order of the keys, is notified in its place
/// and the call says so; or none waits, and then nothing but the removal
/// happens.
pub proof fn lemma_cancel_transfer(slots: Seq<Slot>, key: int)
    requires
        0 <= key < slots.len(),
        slots[key] == taken(),
    ensures
        ({
            let rest = slots_removed(slots, key);
            let after = cancelled(slots, key);
            &&& after[key].is_none()
            &&& count(rest, waiting()) == count(slots, waiting())
            &&& cancel_transfers(slots, key) == (count(slots, waiting()) > 0)
            &&& cancel_transfers(slots, key) ==> {
                &&& after == rest.update(first(rest, waiting()), taken())
                &&& waiting()(slots[first(rest, waiting())])
                &&& cancel_woken(slots, key) == seq![handle_of(slots[first(rest, waiting())])]
                &&& count(after, waiting()) == count(slots, waiting()) - 1
                &&& count(after, notified()) == count(slots, notified())
            }
            &&& !cancel_transfers(slots, key) ==> {
                &&& after == rest
                &&& cancel_woken(slots, key) == Seq::<Waker>::empty()
                &&& count(after, notified()) == count(slots, notified()) - 1
            }
        }),
{
    let rest = slots_removed(slots, key);
    lemma_count_update(slots, key, None, waiting());
    lemma_count_update(slots, key, None, notified());
    lemma_one_notified(rest);
    lemma_first(rest, waiting());
}

/// Of two entries that wait, when the first is notified and then cancelled,
/// the second is notified in its place if no entry between them waits.
pub proof fn lemma_cancel_reaches_next(slots: Seq<Slot>, a: int, b: int)
    requires
        0 <= a < slots.len(),
        0 <= b < slots.len(),
        a != b,
        waiting()(slots[a]),
        waiting()(slots[b]),
        forall|j: int| 0 <= j < b && j != a ==> !waiting()(#[trigger] slots[j]),
    ensures
        cancel_transfers(slots.update(a, taken()), a),
        cancelled(slots.update(a, taken()), a) == slots.update(a, None).update(b, taken()),
        cancel_woken(slots.update(a, taken()), a) == seq![handle_of(slots[b])],
{
    let told = slots.update(a, taken());
    let rest = slots_removed(told, a);
    lemma_first_from_at(rest, waiting(), 0, b);
    lemma_first(rest, waiting());
}

} // verus!
