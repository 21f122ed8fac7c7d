use locker::exclusive_lock::RawExclusiveLock;
use locker::mutex::local_splittable::RawLock as Splittable;
use locker::mutex::local_tagged::RawLock;
use locker::mutex::Mutex;

#[test]
fn a_value_written_under_the_lock_is_seen_by_the_next_owner() {
    let mut mutex: Mutex<RawLock, i32> = Mutex::new(5);
    let mut first = mutex.lock();
    assert_eq!(*first.get(), 5);
    *first.get_mut() = 6;
    first.unlock();
    let second = mutex.lock();
    assert_eq!(*second.get(), 6);
    second.unlock();
    assert_eq!(mutex.into_inner(), 6);
}

#[test]
fn try_lock_returns_nothing_while_a_guard_holds_the_lock() {
    let mut mutex: Mutex<RawLock, i32> = Mutex::new(1);
    let guard = mutex.lock();
    // The guard is never released: the lock stays held.
    std::mem::forget(guard);
    assert!(mutex.raw().locked());
    assert!(mutex.try_lock().is_none());
    assert!(mutex.try_lock().is_none());
    assert!(mutex.raw().locked());
    mutex.raw_mut().exc_unlock();
    let guard = mutex.try_lock();
    assert!(guard.is_some());
    guard.unwrap().unlock();
    assert!(!mutex.raw().locked());
}

#[test]
fn try_lock_gives_a_guard_on_a_free_mutex() {
    let mut mutex: Mutex<RawLock, Vec<u8>> = Mutex::new(vec![1]);
    let mut guard = mutex.try_lock().unwrap();
    assert!(guard.raw().inner().locked());
    guard.get_mut().push(2);
    guard.unlock_fair();
    assert!(!mutex.raw().locked());
    assert_eq!(mutex.into_inner(), vec![1, 2]);
}

#[test]
fn a_mutex_is_made_of_its_parts() {
    let mutex = Mutex::from_raw_parts(RawLock::with_tag(3), "value");
    assert_eq!(mutex.raw().tag(), 3);
    let mutex = mutex.into_mutex();
    let (lock, value) = mutex.into_raw_parts();
    assert_eq!(lock.tag(), 3);
    assert!(!lock.locked());
    assert_eq!(value, "value");
}

#[test]
fn get_mut_reaches_the_value_without_locking() {
    let mut mutex = RawLock::mutex(10u64);
    *mutex.get_mut() += 1;
    assert!(!mutex.raw().locked());
    assert_eq!(mutex.into_inner(), 11);
}

#[test]
fn the_default_mutex_holds_the_default_value() {
    let mutex: Mutex<RawLock, u32> = Mutex::default();
    assert!(!mutex.raw().locked());
    assert_eq!(mutex.raw().tag(), 0);
    assert_eq!(mutex.into_inner(), 0);
    let mutex: Mutex<Splittable, String> = Mutex::default();
    assert_eq!(mutex.raw().owners, 0);
    assert_eq!(mutex.into_inner(), "");
}

#[test]
fn the_lock_of_a_mutex_keeps_its_tag_across_a_critical_section() {
    let mut mutex = Mutex::from_raw_parts(RawLock::with_tag(0b10), 0u8);
    let mut guard = mutex.lock();
    *guard.get_mut() = 9;
    assert_eq!(guard.raw().inner().tag(), 0b10);
    guard.raw.inner_mut().swap_tag(0b01);
    guard.unlock();
    assert_eq!(mutex.raw().tag(), 0b01);
    assert!(!mutex.raw().locked());
    assert_eq!(*mutex.get_mut(), 9);
}
