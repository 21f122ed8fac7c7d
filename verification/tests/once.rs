use locker::exclusive_lock::RawExclusiveLock;
use locker::once::local::{RawLock, DONE_BIT, POISON_BIT};
use locker::once::Finish;
use std::cell::Cell;

#[test]
fn a_new_lock_has_no_mark() {
    let mut lock = RawLock::new();
    assert!(!lock.is_done());
    assert!(!lock.inner.locked());
    assert_eq!(lock.inner.tag(), 0);
    assert!(!lock.get_and_mark_poisoned());
}

#[test]
fn the_marks_are_two_bits_of_the_tag() {
    assert_eq!(DONE_BIT, 0b01);
    assert_eq!(POISON_BIT, 0b10);
    let mut lock = RawLock::new();
    lock.mark_done();
    assert!(lock.is_done());
    assert_eq!(lock.inner.tag(), DONE_BIT);
    assert!(!lock.get_and_mark_poisoned());
    assert_eq!(lock.inner.tag(), DONE_BIT | POISON_BIT);
    assert!(lock.get_and_mark_poisoned());
    assert!(lock.is_done());
}

#[test]
fn get_and_mark_poisoned_reports_the_earlier_mark() {
    let mut lock = RawLock::new();
    assert!(!lock.get_and_mark_poisoned());
    assert!(lock.get_and_mark_poisoned());
    assert!(lock.get_and_mark_poisoned());
    assert!(!lock.is_done());
    assert_eq!(lock.inner.tag(), POISON_BIT);
}

#[test]
fn the_marks_survive_locking() {
    let mut lock = RawLock::new();
    lock.mark_done();
    assert!(lock.exc_try_lock());
    assert!(lock.is_done());
    assert!(!lock.exc_try_lock());
    lock.exc_bump();
    lock.exc_unlock();
    assert!(lock.is_done());
    assert!(!lock.inner.locked());
    lock.exc_lock();
    lock.get_and_mark_poisoned();
    assert!(lock.inner.locked());
    lock.exc_unlock();
    assert_eq!(lock.inner.tag(), DONE_BIT | POISON_BIT);
}

#[test]
fn call_once_runs_the_action_once() {
    let runs = Cell::new(0);
    let mut once = RawLock::once();
    assert!(!once.is_done());
    once.call_once(|| runs.set(runs.get() + 1));
    assert!(once.is_done());
    once.call_once(|| runs.set(runs.get() + 1));
    once.call_once(|| runs.set(runs.get() + 1));
    assert_eq!(runs.get(), 1);
}

#[test]
fn a_once_cell_keeps_the_first_value() {
    let mut cell = RawLock::once_cell::<String>();
    assert_eq!(cell.get(), None);
    assert_eq!(cell.get_or_init(|| String::from("first")), "first");
    assert_eq!(cell.get_or_init(|| String::from("second")), "first");
    assert_eq!(cell.get().map(String::as_str), Some("first"));
    assert_eq!(cell.into_inner(), Some(String::from("first")));
    let cell = RawLock::once_cell::<u8>();
    assert_eq!(cell.into_inner(), None);
}

#[test]
fn a_lazy_value_is_made_on_first_use() {
    let calls = Cell::new(0);
    let mut lazy = RawLock::lazy(|| {
        calls.set(calls.get() + 1);
        21 * 2
    });
    assert_eq!(lazy.get(), None);
    assert_eq!(calls.get(), 0);
    assert_eq!(*lazy.force(), 42);
    assert_eq!(*lazy.force(), 42);
    assert_eq!(lazy.get(), Some(&42));
    assert_eq!(calls.get(), 1);
}

#[test]
fn a_retrying_lazy_value_is_made_on_first_use() {
    let mut lazy = RawLock::retry_lazy(|| vec![1, 2, 3]);
    assert_eq!(lazy.get(), None);
    assert_eq!(lazy.force(), &vec![1, 2, 3]);
    assert_eq!(lazy.get(), Some(&vec![1, 2, 3]));
}

#[test]
fn a_racy_lazy_value_is_made_on_first_use() {
    let calls = Cell::new(0u32);
    let mut lazy = RawLock::racy_lazy(|| {
        calls.set(calls.get() + 1);
        calls.get() * 10
    });
    assert_eq!(*lazy.force(), 10);
    assert_eq!(*lazy.force(), 10);
    assert_eq!(calls.get(), 1);
}

#[test]
fn a_mutex_over_the_once_lock() {
    let mut mutex = RawLock::mutex(3u8);
    let mut guard = mutex.lock();
    *guard.get_mut() += 1;
    guard.unlock();
    assert!(!mutex.raw().inner.locked());
    assert_eq!(mutex.into_inner(), 4);
}
