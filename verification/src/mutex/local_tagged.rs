//! A raw lock whose state word also carries a tag.

use vstd::prelude::*;
use crate::exclusive_lock::{RawExclusiveLock, RawExclusiveLockFair};
use crate::mutex::RawMutex;
use crate::RawLockInfo;

verus! {

/// The bit of the state word that is set while an *exc lock* is held.
pub const LOCK_BIT: u8 = 0b1000_0000;

/// The bits of the state word that hold the tag.
pub const TAG_MASK: u8 = 0b0111_1111;

/// How many bits the tag has.
pub const TAG_BITS: u32 = 7;

/// The state word made of a lock bit and a tag. Bits of `tag` outside
/// [`TAG_MASK`] are left out.
pub open spec fn pack(locked: bool, tag: u8) -> u8 {
    if locked {
        (tag & TAG_MASK) | LOCK_BIT
    } else {
        tag & TAG_MASK
    }
}

/// A state word says of itself what it was packed from.
pub proof fn lemma_pack(locked: bool, tag: u8)
    ensures
        (pack(locked, tag) & LOCK_BIT != 0) == locked,
        pack(locked, tag) & TAG_MASK == tag & TAG_MASK,
        (tag & TAG_MASK) & TAG_MASK == tag & TAG_MASK,
        tag <= TAG_MASK ==> tag & TAG_MASK == tag,
        tag & TAG_MASK <= TAG_MASK,
{
    assert((((tag & TAG_MASK) | LOCK_BIT) & LOCK_BIT) != 0) by (bit_vector);
    assert(((tag & TAG_MASK) & LOCK_BIT) == 0) by (bit_vector);
    assert(((tag & TAG_MASK) | LOCK_BIT) & TAG_MASK == tag & TAG_MASK) by (bit_vector);
    assert((tag & TAG_MASK) & TAG_MASK == tag & TAG_MASK) by (bit_vector);
    assert(tag <= TAG_MASK ==> tag & TAG_MASK == tag) by (bit_vector);
    assert(tag & TAG_MASK <= TAG_MASK) by (bit_vector);
}

/// A lock for one owner at a time, in one word: one bit says whether an
/// *exc lock* is held, the others are the tag. Taking and releasing the lock
/// leave the tag alone, and writing the tag leaves the lock bit alone.
pub struct RawLock {
    state: u8,
}

impl RawLock {
    /// An *exc lock* is held.
    pub closed spec fn is_locked(&self) -> bool {
        self.state & LOCK_BIT != 0
    }

    /// The tag.
    pub closed spec fn spec_tag(&self) -> u8 {
        self.state & TAG_MASK
    }

    /// The lock with the given lock bit and tag.
    pub closed spec fn of(locked: bool, tag: u8) -> RawLock {
        RawLock { state: pack(locked, tag) }
    }

    /// A lock is what its lock bit and its tag say, and the tag fits its mask.
    pub proof fn lemma_parts(self)
        ensures
            self == Self::of(self.is_locked(), self.spec_tag()),
            self.spec_tag() <= TAG_MASK,
    {
        let s = self.state;
        assert(s & LOCK_BIT != 0 ==> ((s & TAG_MASK) & TAG_MASK) | LOCK_BIT == s) by (bit_vector);
        assert(s & LOCK_BIT == 0 ==> (s & TAG_MASK) & TAG_MASK == s) by (bit_vector);
        assert(s & TAG_MASK <= TAG_MASK) by (bit_vector);
    }

    /// The lock bit and the tag of a lock made from them.
    pub proof fn lemma_of(locked: bool, tag: u8)
        ensures
            Self::of(locked, tag).is_locked() == locked,
            Self::of(locked, tag).spec_tag() == tag & TAG_MASK,
            tag <= TAG_MASK ==> Self::of(locked, tag).spec_tag() == tag,
    {
        lemma_pack(locked, tag);
    }

    /// A lock that nobody holds, with an empty tag.
    pub fn new() -> (lock: Self)
        ensures
            lock == Self::of(false, 0),
            !lock.is_locked(),
            lock.spec_tag() == 0,
    {
        proof {
            lemma_pack(false, 0);
        }
        assert(0u8 & TAG_MASK == 0) by (bit_vector);
        RawLock { state: 0 }
    }

    /// A lock that nobody holds, with the given tag.
    pub fn with_tag(tag: u8) -> (lock: Self)
        ensures
            lock == Self::of(false, tag),
            !lock.is_locked(),
            lock.spec_tag() == tag & TAG_MASK,
    {
        proof {
            lemma_pack(false, tag);
        }
        RawLock { state: tag & TAG_MASK }
    }

    /// Whether an *exc lock* is held.
    pub fn locked(&self) -> (held: bool)
        ensures
            held == self.is_locked(),
    {
        self.state & LOCK_BIT != 0
    }

    /// Reads the tag.
    pub fn tag(&self) -> (tag: u8)
        ensures
            tag == self.spec_tag(),
            tag <= TAG_MASK,
    {
        let s = self.state;
        assert(s & TAG_MASK <= TAG_MASK) by (bit_vector);
        self.state & TAG_MASK
    }

    /// Replaces the tag and returns the one it had.
    pub fn swap_tag(&mut self, tag: u8) -> (previous: u8)
        ensures
            previous == old(self).spec_tag(),
            *final(self) == Self::of(old(self).is_locked(), tag),
            final(self).is_locked() == old(self).is_locked(),
            final(self).spec_tag() == tag & TAG_MASK,
    {
        let s = self.state;
        let previous = s & TAG_MASK;
        assert((s & LOCK_BIT) | (tag & TAG_MASK) == if s & LOCK_BIT != 0 {
            (tag & TAG_MASK) | LOCK_BIT
        } else {
            tag & TAG_MASK
        }) by (bit_vector);
        proof {
            lemma_pack(s & LOCK_BIT != 0, tag);
        }
        self.state = (s & LOCK_BIT) | (tag & TAG_MASK);
        previous
    }

    /// Sets the bits of `bits` in the tag and returns the tag it had.
    pub fn or_tag(&mut self, bits: u8) -> (previous: u8)
        ensures
            previous == old(self).spec_tag(),
            *final(self) == Self::of(old(self).is_locked(), old(self).spec_tag() | bits),
            final(self).is_locked() == old(self).is_locked(),
            final(self).spec_tag() == (old(self).spec_tag() | bits) & TAG_MASK,
    {
        let s = self.state;
        let previous = s & TAG_MASK;
        assert(s | (bits & TAG_MASK) == if s & LOCK_BIT != 0 {
            (((s & TAG_MASK) | bits) & TAG_MASK) | LOCK_BIT
        } else {
            ((s & TAG_MASK) | bits) & TAG_MASK
        }) by (bit_vector);
        proof {
            lemma_pack(s & LOCK_BIT != 0, (s & TAG_MASK) | bits);
        }
        self.state = s | (bits & TAG_MASK);
        previous
    }
}

impl RawExclusiveLock for RawLock {
    open spec fn exc_held(&self) -> bool {
        self.is_locked()
    }

    open spec fn exc_ready(&self) -> bool {
        !self.is_locked()
    }

    open spec fn exc_acquired(self) -> Self {
        Self::of(true, self.spec_tag())
    }

    open spec fn exc_released(self) -> Self {
        Self::of(false, self.spec_tag())
    }

    proof fn exc_laws(self) {
        self.lemma_parts();
        Self::lemma_of(true, self.spec_tag());
        Self::lemma_of(false, self.spec_tag());
    }

    fn exc_lock(&mut self)
        ensures
            final(self).is_locked(),
            final(self).spec_tag() == old(self).spec_tag(),
    {
        let s = self.state;
        assert(s & LOCK_BIT == 0 ==> s | LOCK_BIT == ((s & TAG_MASK) & TAG_MASK) | LOCK_BIT)
            by (bit_vector);
        assert((s | LOCK_BIT) & TAG_MASK == s & TAG_MASK) by (bit_vector);
        proof {
            lemma_pack(true, s & TAG_MASK);
        }
        self.state = s | LOCK_BIT;
    }

    fn exc_try_lock(&mut self) -> (acquired: bool)
        ensures
            final(self).is_locked(),
            final(self).spec_tag() == old(self).spec_tag(),
    {
        if self.state & LOCK_BIT == 0 {
            self.exc_lock();
            true
        } else {
            false
        }
    }

    fn exc_unlock(&mut self)
        ensures
            !final(self).is_locked(),
            final(self).spec_tag() == old(self).spec_tag(),
    {
        let s = self.state;
        assert(s & TAG_MASK == (s & TAG_MASK) & TAG_MASK) by (bit_vector);
        assert((s & TAG_MASK) & LOCK_BIT == 0) by (bit_vector);
        self.state = s & TAG_MASK;
    }
}

impl RawExclusiveLockFair for RawLock {
    fn exc_unlock_fair(&mut self)
        ensures
            !final(self).is_locked(),
            final(self).spec_tag() == old(self).spec_tag(),
    {
        self.exc_unlock();
    }
}

impl RawLockInfo for RawLock {
    open spec fn initial() -> Self {
        Self::of(false, 0)
    }

    fn init() -> (lock: Self) {
        Self::new()
    }
}

impl RawMutex for RawLock {
    proof fn initial_ready() {
        Self::lemma_of(false, 0);
    }
}

impl RawLock {
    /// A mutex over this kind of lock.
    pub fn mutex<T>(value: T) -> (mutex: crate::mutex::Mutex<RawLock, T>)
        ensures
            mutex.raw_lock() == Self::of(false, 0),
            mutex.value() == value,
    {
        crate::mutex::Mutex::from_raw_parts(Self::new(), value)
    }
}

} // verus!
