//! A store of values under small keys that are used again once they are free.
//!
//! The values live in a growable array and the key of a value is its place in
//! it. The places that are free form a list that runs through the array
//! itself: each free place names the one that was freed before it. So a key is
//! handed out, and taken back, in constant time, and the key that was freed
//! last is the first to be used again.

use vstd::prelude::*;
use vstd::pervasive::unreached;
use crate::count::{count, lemma_count_push, lemma_count_update, lemma_count_bound};

verus! {

/// A place in the array.
enum Entry<T> {
    /// The place holds a value.
    Occupied(T),
    /// The place is free; it names the place that was freed before it, or the
    /// length of the array if there is none.
    Vacant(usize),
}

/// The property of a slot to hold a value.
pub open spec fn occupied<T>() -> spec_fn(Option<T>) -> bool {
    |slot: Option<T>| slot.is_some()
}

/// The key that the next value will be stored under: the key that was freed
/// last, or the first key that was never used.
pub open spec fn next_key(slots: int, vacant: Seq<usize>) -> int {
    if vacant.len() > 0 {
        vacant.last() as int
    } else {
        slots
    }
}

/// The slots after `value` has been stored.
pub open spec fn slots_inserted<T>(slots: Seq<Option<T>>, vacant: Seq<usize>, value: T) -> Seq<
    Option<T>,
> {
    if vacant.len() > 0 {
        slots.update(vacant.last() as int, Some(value))
    } else {
        slots.push(Some(value))
    }
}

/// The free keys after a value has been stored.
pub open spec fn vacant_inserted(vacant: Seq<usize>) -> Seq<usize> {
    if vacant.len() > 0 {
        vacant.drop_last()
    } else {
        vacant
    }
}

/// What is stored under `key`, if anything.
pub open spec fn slot_at<T>(slots: Seq<Option<T>>, key: int) -> Option<T> {
    if 0 <= key < slots.len() {
        slots[key]
    } else {
        None
    }
}

/// The slots after `key` has been freed.
pub open spec fn slots_removed<T>(slots: Seq<Option<T>>, key: int) -> Seq<Option<T>> {
    if slot_at(slots, key).is_some() {
        slots.update(key, None)
    } else {
        slots
    }
}

/// The free keys after `key` has been freed.
pub open spec fn vacant_removed<T>(slots: Seq<Option<T>>, vacant: Seq<usize>, key: usize) -> Seq<
    usize,
> {
    if slot_at(slots, key as int).is_some() {
        vacant.push(key)
    } else {
        vacant
    }
}

/// A store of values of type `T` under keys of type `usize`.
///
/// Its view is the sequence of its slots, by key: `Some` of the value stored
/// under the key, `None` for a key that is free.
pub struct Slab<T> {
    entries: Vec<Entry<T>>,
    /// The key that the next value is stored under.
    next: usize,
    /// How many values are stored.
    len: usize,
    /// The free keys, in the order in which they were freed.
    free: Ghost<Seq<usize>>,
}

impl<T> View for Slab<T> {
    type V = Seq<Option<T>>;

    closed spec fn view(&self) -> Seq<Option<T>> {
        slots_of(self.entries@)
    }
}

/// The slots that an array of places stands for.
spec fn slots_of<T>(entries: Seq<Entry<T>>) -> Seq<Option<T>> {
    Seq::new(
        entries.len(),
        |key: int|
            match entries[key] {
                Entry::Occupied(value) => Some(value),
                Entry::Vacant(_) => None,
            },
    )
}

/// The place that the free place `free[i]` names.
spec fn link(free: Seq<usize>, i: int, end: usize) -> usize {
    if i == 0 {
        end
    } else {
        free[i - 1]
    }
}

/// The parts of a store fit together: the free list runs through the free
/// places, once through each, and the count of values is right.
spec fn consistent<T>(entries: Seq<Entry<T>>, next: usize, len: usize, free: Seq<usize>) -> bool {
    &&& entries.len() <= usize::MAX
    &&& len == count(slots_of(entries), occupied())
    &&& len + free.len() == entries.len()
    &&& next == next_key(entries.len() as int, free)
    &&& forall|i: int|
        0 <= i < free.len() ==> {
            &&& (#[trigger] free[i]) < entries.len()
            &&& entries[free[i] as int] == Entry::<T>::Vacant(link(free, i, entries.len() as usize))
        }
    &&& forall|i: int, j: int| 0 <= i < j < free.len() ==> free[i] != free[j]
    &&& forall|key: usize|
        key < entries.len() && entries[key as int] is Vacant ==> #[trigger] listed(free, key)
}

/// The key is in the list.
spec fn listed(free: Seq<usize>, key: usize) -> bool {
    exists|i: int| 0 <= i < free.len() && free[i] == key
}

impl<T> Slab<T> {
    /// The free keys below the length of the view, in the order in which they
    /// were freed: the last of them is the next to be used.
    pub closed spec fn vacant(&self) -> Seq<usize> {
        self.free@
    }

    /// The store is consistent: the free list runs through the free places,
    /// once through each, and the count of values is right.
    pub closed spec fn wf(&self) -> bool {
        consistent(self.entries@, self.next, self.len, self.free@)
    }

    /// What consistency means for the view: the free keys are the keys of the
    /// empty slots, each of them once.
    pub proof fn lemma_wf(&self)
        requires
            self.wf(),
        ensures
            self@.len() <= usize::MAX,
            count(self@, occupied()) + self.vacant().len() == self@.len(),
            forall|i: int|
                0 <= i < self.vacant().len() ==> (#[trigger] self.vacant()[i]) < self@.len()
                    && self@[self.vacant()[i] as int].is_none(),
            forall|i: int, j: int|
                0 <= i < j < self.vacant().len() ==> self.vacant()[i] != self.vacant()[j],
            forall|key: usize|
                key < self@.len() && (#[trigger] self@[key as int]).is_none()
                    ==> self.vacant().contains(key),
            0 <= next_key(self@.len() as int, self.vacant()) <= self@.len(),
    {
        assert forall|key: usize|
            key < self@.len() && (#[trigger] self@[key as int]).is_none()
                implies self.vacant().contains(key) by {
            assert(listed(self.free@, key));
        }
    }

    /// An empty store.
    pub fn new() -> (slab: Self)
        ensures
            slab.wf(),
            slab@ == Seq::<Option<T>>::empty(),
            slab.vacant() == Seq::<usize>::empty(),
    {
        Slab { entries: Vec::new(), next: 0, len: 0, free: Ghost(Seq::empty()) }
    }

    /// The number of values in the store.
    pub fn len(&self) -> (len: usize)
        requires
            self.wf(),
        ensures
            len == count(self@, occupied()),
    {
        self.len
    }

    /// Whether the store holds no value.
    pub fn is_empty(&self) -> (empty: bool)
        requires
            self.wf(),
        ensures
            empty == (count(self@, occupied()) == 0),
    {
        self.len == 0
    }

    /// The bound of the keys: every key that was ever handed out is below it.
    /// Walking the keys from 0 up to it visits the values in ascending order
    /// of their keys.
    pub fn key_bound(&self) -> (bound: usize)
        ensures
            bound == self@.len(),
    {
        self.entries.len()
    }

    /// The keys under which values are stored, in ascending order.
    pub fn keys(&self) -> (keys: Vec<usize>)
        ensures
            keys@.len() == count(self@, occupied()),
            forall|i: int, j: int| 0 <= i < j < keys@.len() ==> keys@[i] < keys@[j],
            forall|i: int| 0 <= i < keys@.len() ==> slot_at(self@, #[trigger] keys@[i] as int).is_some(),
            forall|key: usize| slot_at(self@, key as int).is_some() ==> keys@.contains(key),
    {
        let mut keys: Vec<usize> = Vec::new();
        let bound = self.entries.len();
        let mut key: usize = 0;
        while key < bound
            invariant
                key <= bound,
                bound == self@.len(),
                keys@.len() == count(self@.take(key as int), occupied()),
                forall|i: int, j: int| 0 <= i < j < keys@.len() ==> keys@[i] < keys@[j],
                forall|i: int| 0 <= i < keys@.len() ==> (#[trigger] keys@[i]) < key,
                forall|i: int|
                    0 <= i < keys@.len() ==> slot_at(self@, #[trigger] keys@[i] as int).is_some(),
                forall|k: usize| k < key && slot_at(self@, k as int).is_some() ==> keys@.contains(k),
            decreases bound - key,
        {
            assert(self@.take(key as int + 1).drop_last() =~= self@.take(key as int));
            if self.contains(key) {
                let ghost found = keys@;
                keys.push(key);
                assert(keys@[found.len() as int] == key);
                assert forall|k: usize|
                    k < key + 1 && slot_at(self@, k as int).is_some() implies keys@.contains(k) by {
                    if k < key {
                        assert(found.contains(k));
                        let i = choose|i: int| 0 <= i < found.len() && found[i] == k;
                        assert(keys@[i] == k);
                    }
                }
            }
            key = key + 1;
        }
        assert(self@.take(bound as int) =~= self@);
        keys
    }

    /// Whether a value is stored under `key`.
    pub fn contains(&self, key: usize) -> (stored: bool)
        ensures
            stored == slot_at(self@, key as int).is_some(),
    {
        if key < self.entries.len() {
            match &self.entries[key] {
                Entry::Occupied(_) => true,
                Entry::Vacant(_) => false,
            }
        } else {
            false
        }
    }

    /// The value stored under `key`.
    pub fn get(&self, key: usize) -> (value: Option<&T>)
        ensures
            match value {
                Some(v) => slot_at(self@, key as int) == Some(*v),
                None => slot_at(self@, key as int).is_none(),
            },
    {
        if key < self.entries.len() {
            match &self.entries[key] {
                Entry::Occupied(value) => Some(value),
                Entry::Vacant(_) => None,
            }
        } else {
            None
        }
    }

    /// The value stored under `key`, to change it. The store ends with the
    /// value as the caller leaves it, and is otherwise unchanged.
    pub fn get_mut(&mut self, key: usize) -> (value: Option<&mut T>)
        requires
            old(self).wf(),
        ensures
            final(self).wf(),
            final(self).vacant() == old(self).vacant(),
            match value {
                Some(v) => {
                    &&& slot_at(old(self)@, key as int) == Some(*v)
                    &&& final(self)@ == old(self)@.update(key as int, Some(*final(v)))
                },
                None => {
                    &&& slot_at(old(self)@, key as int).is_none()
                    &&& final(self)@ == old(self)@
                },
            },
    {
        if !self.contains(key) {
            return None;
        }
        proof {
            assert forall|v: T|
                consistent(
                    #[trigger] self.entries@.update(key as int, Entry::Occupied(v)),
                    self.next,
                    self.len,
                    self.free@,
                ) && slots_of(self.entries@.update(key as int, Entry::Occupied(v)))
                    == self@.update(key as int, Some(v)) by {
                lemma_count_update(self@, key as int, Some(v), occupied());
                assert(slots_of(self.entries@.update(key as int, Entry::Occupied(v)))
                    == self@.update(key as int, Some(v)));
                assert forall|k: usize|
                    k < self.entries@.len() && self.entries@.update(
                        key as int,
                        Entry::Occupied(v),
                    )[k as int] is Vacant implies #[trigger] listed(self.free@, k) by {}
            }
        }
        match &mut self.entries[key] {
            Entry::Occupied(value) => Some(value),
            Entry::Vacant(_) => unreached(),
        }
    }

    /// Stores `value` and returns its key: the key that was freed last, or, if
    /// no key is free, the first that was never used.
    pub fn insert(&mut self, value: T) -> (key: usize)
        requires
            old(self).wf(),
        ensures
            final(self).wf(),
            key == next_key(old(self)@.len() as int, old(self).vacant()),
            final(self)@ == slots_inserted(old(self)@, old(self).vacant(), value),
            final(self).vacant() == vacant_inserted(old(self).vacant()),
            slot_at(old(self)@, key as int).is_none(),
    {
        let key = self.next;
        if key == self.entries.len() {
            proof {
                lemma_count_push(self@, Some(value), occupied());
            }
            self.entries.push(Entry::Occupied(value));
            self.next = self.entries.len();
            self.len = self.len + 1;
            assert(self@ == old(self)@.push(Some(value)));
            assert forall|k: usize|
                k < self.entries@.len() && self.entries@[k as int] is Vacant implies #[trigger] listed(
                self.free@,
                k,
            ) by {}
        } else {
            let following = match &self.entries[key] {
                Entry::Vacant(following) => *following,
                Entry::Occupied(_) => unreached(),
            };
            proof {
                lemma_count_update(self@, key as int, Some(value), occupied());
                lemma_count_bound(self@, occupied());
            }
            self.entries[key] = Entry::Occupied(value);
            self.next = following;
            self.len = self.len + 1;
            proof {
                self.free@ = self.free@.drop_last();
            }
            assert(self@ == old(self)@.update(key as int, Some(value)));
            assert forall|k: usize|
                k < self.entries@.len() && self.entries@[k as int] is Vacant implies #[trigger] listed(
                self.free@,
                k,
            ) by {
                assert(listed(old(self).free@, k));
                let i = choose|i: int| 0 <= i < old(self).free@.len() && old(self).free@[i] == k;
                assert(self.free@[i] == k);
            }
        }
        key
    }

    /// Frees `key` and returns the value that was stored under it, or nothing
    /// if the key was free already: then the store stays as it is.
    pub fn remove(&mut self, key: usize) -> (value: Option<T>)
        requires
            old(self).wf(),
        ensures
            final(self).wf(),
            value == slot_at(old(self)@, key as int),
            final(self)@ == slots_removed(old(self)@, key as int),
            final(self).vacant() == vacant_removed(old(self)@, old(self).vacant(), key),
    {
        if !self.contains(key) {
            return None;
        }
        proof {
            lemma_count_update(self@, key as int, None, occupied());
        }
        let mut entry = Entry::Vacant(self.next);
        std::mem::swap(&mut self.entries[key], &mut entry);
        self.next = key;
        self.len = self.len - 1;
        proof {
            self.free@ = self.free@.push(key);
        }
        assert(self@ == old(self)@.update(key as int, None));
        assert forall|k: usize|
            k < self.entries@.len() && self.entries@[k as int] is Vacant implies #[trigger] listed(
            self.free@,
            k,
        ) by {
            if k == key {
                assert(self.free@[old(self).free@.len() as int] == k);
            } else {
                assert(listed(old(self).free@, k));
                let i = choose|i: int| 0 <= i < old(self).free@.len() && old(self).free@[i] == k;
                assert(self.free@[i] == k);
            }
        }
        match entry {
            Entry::Occupied(value) => Some(value),
            Entry::Vacant(_) => unreached(),
        }
    }
}

} // verus!
