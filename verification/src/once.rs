//! Actions that run once, and values that are made once.
//!
//! All of them keep their progress in a raw lock that has two marks beside
//! its lock state ([`Finish`]): one says that the action is done, the other
//! that an attempt has begun. An attempt sets the second mark before it runs
//! the action and the first when the action has returned. So an attempt that
//! finds the second mark set, on a lock that is not done, knows that an
//! earlier attempt never came back: the lock is *poisoned*.

use vstd::prelude::*;
use crate::exclusive_lock::RawExclusiveLock;

pub mod local;

verus! {

/// Raw locks that keep two marks beside their lock state: *done* and
/// *poisoned*. Marks are only ever set, and they and the lock state leave
/// each other alone.
pub trait Finish: RawExclusiveLock {
    /// The *done* mark is set.
    spec fn done(&self) -> bool;

    /// The *poisoned* mark is set.
    spec fn poisoned(&self) -> bool;

    /// This lock with the *done* mark set.
    spec fn marked_done(self) -> Self;

    /// This lock with the *poisoned* mark set.
    spec fn marked_poisoned(self) -> Self;

    /// Setting a mark sets that mark and changes neither the other mark nor
    /// the lock state; taking and releasing the lock change no mark.
    proof fn finish_laws(self)
        ensures
            self.marked_done().done(),
            self.marked_done().poisoned() == self.poisoned(),
            self.marked_done().exc_held() == self.exc_held(),
            self.marked_done().exc_ready() == self.exc_ready(),
            self.marked_poisoned().poisoned(),
            self.marked_poisoned().done() == self.done(),
            self.marked_poisoned().exc_held() == self.exc_held(),
            self.marked_poisoned().exc_ready() == self.exc_ready(),
            self.exc_acquired().done() == self.done(),
            self.exc_acquired().poisoned() == self.poisoned(),
            self.exc_released().done() == self.done(),
            self.exc_released().poisoned() == self.poisoned(),
    ;

    /// Whether the *done* mark is set.
    fn is_done(&self) -> (done: bool)
        ensures
            done == self.done(),
    ;

    /// Sets the *done* mark.
    fn mark_done(&mut self)
        ensures
            *final(self) == old(self).marked_done(),
    ;

    /// Sets the *poisoned* mark and returns whether it was set before.
    fn get_and_mark_poisoned(&mut self) -> (poisoned: bool)
        ensures
            poisoned == old(self).poisoned(),
            *final(self) == old(self).marked_poisoned(),
    ;
}

/// What to do with a lock that is found poisoned.
pub trait Strategy {
    /// Whether the action is tried again on a poisoned lock. Where it is not,
    /// nothing can be done with such a lock.
    spec fn retries() -> bool;
}

/// The strategy that gives up on a poisoned lock.
pub struct Panic;

/// The strategy that tries again on a poisoned lock.
pub struct Retry;

impl Strategy for Panic {
    open spec fn retries() -> bool {
        false
    }
}

impl Strategy for Retry {
    open spec fn retries() -> bool {
        true
    }
}

/// The lock after a whole attempt: taken, marked as poisoned, marked as done,
/// released.
pub open spec fn completed<L: Finish>(lock: L) -> L {
    lock.exc_acquired().marked_poisoned().marked_done().exc_released()
}

/// A whole attempt leaves the lock done.
pub proof fn lemma_completed<L: Finish>(lock: L)
    requires
        lock.exc_ready(),
    ensures
        completed(lock).done(),
        lock.exc_acquired().marked_poisoned().exc_held(),
        lock.exc_acquired().marked_poisoned().marked_done().exc_held(),
{
    lock.exc_laws();
    lock.exc_acquired().finish_laws();
    lock.exc_acquired().marked_poisoned().finish_laws();
    lock.exc_acquired().marked_poisoned().marked_done().finish_laws();
}

/// An action that runs at most once.
pub struct Once<L> {
    lock: L,
}

impl<L: Finish> Once<L> {
    /// The raw lock.
    pub closed spec fn raw_lock(&self) -> L {
        self.lock
    }

    /// The action has run.
    pub open spec fn done(&self) -> bool {
        self.raw_lock().done()
    }

    /// An attempt can begin: the action has not run, nobody holds the lock,
    /// and the lock is not poisoned, unless the strategy `S` tries again.
    pub open spec fn can_begin<S: Strategy>(&self) -> bool {
        &&& !self.done()
        &&& self.raw_lock().exc_ready()
        &&& S::retries() || !self.raw_lock().poisoned()
    }

    /// A `Once` over the given lock.
    pub fn from_raw(lock: L) -> (once: Self)
        ensures
            once.raw_lock() == lock,
    {
        Once { lock }
    }

    /// Whether the action has run.
    pub fn is_done(&self) -> (done: bool)
        ensures
            done == self.done(),
    {
        self.lock.is_done()
    }

    /// Begins an attempt: takes the lock and sets the *poisoned* mark. Returns
    /// whether the mark was set before.
    fn begin(&mut self) -> (poisoned: bool)
        requires
            old(self).raw_lock().exc_ready(),
        ensures
            poisoned == old(self).raw_lock().poisoned(),
            final(self).raw_lock() == old(self).raw_lock().exc_acquired().marked_poisoned(),
            final(self).raw_lock().exc_held(),
    {
        proof {
            lemma_completed(self.lock);
            self.lock.finish_laws();
        }
        self.lock.exc_lock();
        self.lock.get_and_mark_poisoned()
    }

    /// Ends an attempt: sets the *done* mark and releases the lock.
    fn end(&mut self)
        requires
            old(self).raw_lock().exc_held(),
        ensures
            final(self).raw_lock() == old(self).raw_lock().marked_done().exc_released(),
            final(self).done(),
    {
        proof {
            self.lock.finish_laws();
            self.lock.marked_done().finish_laws();
        }
        self.lock.mark_done();
        self.lock.exc_unlock();
    }

    /// Runs `f` unless the action has run before.
    pub fn call_once<F: FnOnce()>(&mut self, f: F)
        requires
            !old(self).done() ==> old(self).can_begin::<Panic>() && f.requires(()),
        ensures
            final(self).done(),
            old(self).done() ==> *final(self) == *old(self),
            !old(self).done() ==> f.ensures((), ()) && final(self).raw_lock() == completed(
                old(self).raw_lock(),
            ),
    {
        if !self.is_done() {
            self.begin();
            f();
            self.end();
        }
    }
}

/// A value that is made at most once.
pub struct OnceCell<L, T> {
    once: Once<L>,
    value: Option<T>,
}

impl<L: Finish, T> OnceCell<L, T> {
    /// The `Once` that guards the value.
    pub closed spec fn once(&self) -> Once<L> {
        self.once
    }

    /// The value, if it has been made.
    pub closed spec fn value(&self) -> Option<T> {
        self.value
    }

    /// The value is there exactly when the `Once` is done.
    pub open spec fn wf(&self) -> bool {
        self.once().done() == self.value().is_some()
    }

    /// An empty cell over a `Once` that is not done.
    pub fn from_raw(once: Once<L>) -> (cell: Self)
        requires
            !once.done(),
        ensures
            cell.wf(),
            cell.once() == once,
            cell.value().is_none(),
    {
        OnceCell { once, value: None }
    }

    /// The value, if it has been made.
    pub fn get(&self) -> (value: Option<&T>)
        ensures
            match value {
                Some(v) => self.value() == Some(*v),
                None => self.value().is_none(),
            },
    {
        self.value.as_ref()
    }

    /// The value; it is made by `f` if it has not been made before.
    pub fn get_or_init<F: FnOnce() -> T>(&mut self, f: F) -> (value: &T)
        requires
            old(self).wf(),
            !old(self).once().done() ==> old(self).once().can_begin::<Panic>() && f.requires(()),
        ensures
            final(self).wf(),
            final(self).value() == Some(*value),
            old(self).once().done() ==> *final(self) == *old(self),
            !old(self).once().done() ==> f.ensures((), *value) && final(self).once().raw_lock()
                == completed(old(self).once().raw_lock()),
    {
        if !self.once.is_done() {
            self.once.begin();
            self.value = Some(f());
            self.once.end();
        }
        match &self.value {
            Some(value) => value,
            None => vstd::pervasive::unreached(),
        }
    }

    /// Takes the cell apart: the value, if it has been made.
    pub fn into_inner(self) -> (value: Option<T>)
        ensures
            value == self.value(),
    {
        self.value
    }
}

/// A value that is made by a function the first time it is asked for.
///
/// `S` says what happens when the lock is found poisoned ([`Strategy`]).
pub struct Lazy<L, T, F, S> {
    once: Once<L>,
    /// The function, until it has been called.
    func: Option<F>,
    value: Option<T>,
    /// The function that was handed in.
    init: Ghost<F>,
    strategy: core::marker::PhantomData<S>,
}

impl<L: Finish, T, F: FnOnce() -> T, S: Strategy> Lazy<L, T, F, S> {
    /// The `Once` that guards the value.
    pub closed spec fn once(&self) -> Once<L> {
        self.once
    }

    /// The value, if it has been made.
    pub closed spec fn value(&self) -> Option<T> {
        self.value
    }

    /// The function that makes the value.
    pub closed spec fn init(&self) -> F {
        self.init@
    }

    /// The value is there exactly when the `Once` is done, and it is a result
    /// of the function; until then the function is at hand.
    pub closed spec fn wf(&self) -> bool {
        &&& self.once.done() == self.value.is_some()
        &&& !self.once.done() ==> self.func == Some(self.init@)
        &&& self.value matches Some(v) ==> call_ensures(self.init@, (), v)
    }

    /// A value that `func` will make, guarded by a `Once` that is not done.
    pub fn from_raw_parts(once: Once<L>, func: F) -> (lazy: Self)
        requires
            !once.done(),
        ensures
            lazy.wf(),
            lazy.once() == once,
            lazy.init() == func,
            lazy.value().is_none(),
    {
        Lazy {
            once,
            init: Ghost(func),
            func: Some(func),
            value: None,
            strategy: core::marker::PhantomData,
        }
    }

    /// The value; the first call makes it.
    pub fn force(&mut self) -> (value: &T)
        requires
            old(self).wf(),
            !old(self).once().done() ==> old(self).once().can_begin::<S>() && call_requires(
                old(self).init(),
                (),
            ),
        ensures
            final(self).wf(),
            final(self).once().done(),
            final(self).init() == old(self).init(),
            final(self).value() == Some(*value),
            call_ensures(old(self).init(), (), *value),
            old(self).once().done() ==> *final(self) == *old(self),
            !old(self).once().done() ==> final(self).once().raw_lock() == completed(
                old(self).once().raw_lock(),
            ),
    {
        if !self.once.is_done() {
            match self.func.take() {
                Some(func) => {
                    self.once.begin();
                    self.value = Some(func());
                    self.once.end();
                },
                None => {},
            }
        }
        match &self.value {
            Some(value) => value,
            None => vstd::pervasive::unreached(),
        }
    }

    /// The value, if it has been made.
    pub fn get(&self) -> (value: Option<&T>)
        ensures
            match value {
                Some(v) => self.value() == Some(*v),
                None => self.value().is_none(),
            },
    {
        self.value.as_ref()
    }
}

/// A value that is made by a function that may be called more than once: who
/// asks first keeps what its call made.
pub struct RacyLazy<L, T, F> {
    once: OnceCell<L, T>,
    func: F,
}

impl<L: Finish, T, F: Fn() -> T> RacyLazy<L, T, F> {
    /// The cell that keeps the value.
    pub closed spec fn cell(&self) -> OnceCell<L, T> {
        self.once
    }

    /// The function that makes the value.
    pub closed spec fn func(&self) -> F {
        self.func
    }

    /// The cell is consistent, and its value is a result of the function.
    pub open spec fn wf(&self) -> bool {
        &&& self.cell().wf()
        &&& self.cell().value() matches Some(v) ==> call_ensures(self.func(), (), v)
    }

    /// A value that `func` will make, kept in `once`.
    pub fn from_raw_parts(once: OnceCell<L, T>, func: F) -> (lazy: Self)
        requires
            once.wf(),
            once.value().is_none(),
        ensures
            lazy.wf(),
            lazy.cell() == once,
            lazy.func() == func,
    {
        RacyLazy { once, func }
    }

    /// The value; the first call makes it.
    pub fn force(&mut self) -> (value: &T)
        requires
            old(self).wf(),
            !old(self).cell().once().done() ==> old(self).cell().once().can_begin::<Panic>()
                && call_requires(old(self).func(), ()),
        ensures
            final(self).wf(),
            final(self).cell().once().done(),
            final(self).func() == old(self).func(),
            final(self).cell().value() == Some(*value),
            call_ensures(old(self).func(), (), *value),
            old(self).cell().once().done() ==> *final(self) == *old(self),
    {
        if self.once.get().is_none() {
            let made = (self.func)();
            self.once.get_or_init(move || -> (value: T)
                ensures
                    value == made,
                { made });
        }
        match self.once.get() {
            Some(value) => value,
            None => vstd::pervasive::unreached(),
        }
    }
}

} // verus!
