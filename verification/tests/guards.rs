use locker::exclusive_lock::{RawExclusiveGuard, RawExclusiveLock};
use locker::mutex::local_splittable::RawLock as Splittable;
use locker::mutex::local_tagged::RawLock as Tagged;
use locker::rwlock::{RawLock as RwRawLock, EXCLUSIVE};
use locker::share_lock::{RawShareGuard, RawShareLock, RawShareLockFair};

#[test]
fn a_guard_holds_the_lock_until_it_is_released() {
    let mut lock = Tagged::new();
    let guard = RawExclusiveGuard::new(&mut lock);
    assert!(guard.inner().locked());
    guard.unlock();
    assert!(!lock.locked());
}

#[test]
fn try_new_gives_no_guard_on_a_held_lock() {
    let mut lock = Tagged::new();
    lock.exc_lock();
    assert!(RawExclusiveGuard::try_new(&mut lock).is_none());
    assert!(lock.locked());
    lock.exc_unlock();
    let guard = RawExclusiveGuard::try_new(&mut lock).unwrap();
    assert!(guard.inner().locked());
    guard.unlock_fair();
    assert!(!lock.locked());
}

#[test]
fn from_raw_takes_over_a_lock_that_is_held() {
    let mut lock = Tagged::with_tag(1);
    lock.exc_lock();
    let guard = RawExclusiveGuard::from_raw(&mut lock);
    assert!(guard.inner().locked());
    guard.unlock();
    assert!(!lock.locked());
    assert_eq!(lock.tag(), 1);
}

#[test]
fn bump_keeps_the_lock_held() {
    let mut lock = Tagged::new();
    let mut guard = RawExclusiveGuard::new(&mut lock);
    guard.bump();
    assert!(guard.inner().locked());
    guard.bump_fair();
    assert!(guard.inner().locked());
    guard.unlock();
    assert!(!lock.locked());
}

#[test]
fn unlocked_runs_the_function_and_takes_the_lock_back() {
    let mut lock = Tagged::with_tag(0b11);
    let mut guard = RawExclusiveGuard::new(&mut lock);
    let result = guard.unlocked(|| 6 * 7);
    assert_eq!(result, 42);
    assert!(guard.inner().locked());
    let result = guard.unlocked_fair(|| "fair");
    assert_eq!(result, "fair");
    assert!(guard.inner().locked());
    assert_eq!(guard.inner().tag(), 0b11);
    guard.unlock();
    assert!(!lock.locked());
}

#[test]
fn a_split_lock_is_free_when_every_share_is_released() {
    let mut lock = Splittable::new();
    let mut first = RawExclusiveGuard::new(&mut lock);
    assert_eq!(first.inner().owners, 1);
    let mut second = first.split();
    assert_eq!(second.inner().owners, 2);
    let third = second.split();
    assert_eq!(third.inner().owners, 3);
    third.unlock();
    second.unlock();
    assert_eq!(first.inner().owners, 1);
    first.unlock();
    assert_eq!(lock.owners, 0);
    assert!(lock.exc_try_lock());
}

#[test]
fn a_split_lock_cannot_be_taken_anew() {
    let mut lock = Splittable::new();
    let mut guard = RawExclusiveGuard::new(&mut lock);
    let share = guard.split();
    share.unlock();
    std::mem::forget(guard);
    assert_eq!(lock.owners, 1);
    assert!(!lock.exc_try_lock());
    assert_eq!(lock.owners, 1);
    lock.exc_unlock();
    assert_eq!(lock.owners, 0);
    assert!(lock.exc_try_lock());
}

#[test]
fn downgrade_turns_a_writer_into_a_reader() {
    let mut lock = RwRawLock::new();
    let writer = RawExclusiveGuard::new(&mut lock);
    assert_eq!(writer.inner().state, EXCLUSIVE);
    let mut reader = writer.downgrade();
    assert_eq!(reader.inner().state, 1);
    let other = reader.split();
    assert_eq!(other.inner().state, 2);
    other.unlock();
    reader.unlock();
    assert_eq!(lock.state, 0);
}

#[test]
fn readers_share_and_exclude_writers() {
    let mut lock = RwRawLock::new();
    assert!(lock.shr_try_lock());
    assert!(lock.shr_try_lock());
    lock.shr_split();
    assert_eq!(lock.state, 3);
    assert!(!lock.exc_try_lock());
    assert_eq!(lock.state, 3);
    lock.shr_unlock();
    lock.shr_unlock_fair();
    lock.shr_bump();
    lock.shr_bump_fair();
    assert_eq!(lock.state, 1);
    lock.shr_unlock();
    assert_eq!(lock.state, 0);
    assert!(lock.exc_try_lock());
    assert_eq!(lock.state, EXCLUSIVE);
    assert!(!lock.shr_try_lock());
    assert!(!lock.exc_try_lock());
    assert_eq!(lock.state, EXCLUSIVE);
    lock.exc_unlock();
    assert_eq!(lock.state, 0);
}

#[test]
fn the_number_of_readers_has_a_limit() {
    let mut lock = RwRawLock { state: EXCLUSIVE - 1 };
    assert!(!lock.shr_try_lock());
    assert_eq!(lock.state, EXCLUSIVE - 1);
    lock.shr_unlock();
    assert!(lock.shr_try_lock());
    assert_eq!(lock.state, EXCLUSIVE - 1);
}

#[test]
fn a_share_guard_holds_one_shr_lock() {
    let mut lock = RwRawLock::new();
    let mut guard = RawShareGuard::new(&mut lock);
    assert_eq!(guard.inner().state, 1);
    guard.bump();
    guard.bump_fair();
    assert_eq!(guard.inner().state, 1);
    guard.unlock_fair();
    assert_eq!(lock.state, 0);
    lock.exc_lock();
    assert!(RawShareGuard::try_new(&mut lock).is_none());
    lock.exc_unlock();
    let guard = RawShareGuard::try_new(&mut lock).unwrap();
    guard.unlock();
    assert_eq!(lock.state, 0);
    lock.shr_lock();
    let guard = RawShareGuard::from_raw(&mut lock);
    guard.unlock();
    assert_eq!(lock.state, 0);
}
