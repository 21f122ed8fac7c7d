use locker::waker_set::{has_notifiable, has_notified, WakeLog, WakerSet, NOTIFIABLE, NOTIFIED};
use std::sync::{Arc, Mutex};
use std::task::{Wake, Waker};

/// A task that counts how often it was woken.
struct Task {
    wakes: Mutex<usize>,
}

impl Wake for Task {
    fn wake(self: Arc<Self>) {
        *self.wakes.lock().unwrap() += 1;
    }
}

fn task() -> (Arc<Task>, Waker) {
    let task = Arc::new(Task { wakes: Mutex::new(0) });
    (task.clone(), Waker::from(task))
}

fn wakes(task: &Arc<Task>) -> usize {
    *task.wakes.lock().unwrap()
}

#[test]
fn new_set_is_empty() {
    let mut set = WakerSet::new();
    assert_eq!(set.len(), 0);
    assert_eq!(set.notifiable(), 0);
    assert_eq!(set.flag(), 0);
    assert!(!set.notify_any());
    assert!(!set.notify_one());
    assert!(!set.notify_all());
    assert_eq!(set.flag(), 0);
}

#[test]
fn flag_bits_are_distinct() {
    assert_eq!(NOTIFIED, 0b01);
    assert_eq!(NOTIFIABLE, 0b10);
    assert!(has_notified(NOTIFIED) && !has_notifiable(NOTIFIED));
    assert!(!has_notified(NOTIFIABLE) && has_notifiable(NOTIFIABLE));
    assert!(has_notified(0b11) && has_notifiable(0b11));
    assert!(!has_notified(0) && !has_notifiable(0));
}

#[test]
fn notify_one_then_all() {
    let mut set = WakerSet::new();
    let (t1, w1) = task();
    let (t2, w2) = task();
    let (t3, w3) = task();
    let k1 = set.insert(w1);
    let k2 = set.insert(w2);
    let k3 = set.insert(w3);
    assert_eq!((k1, k2, k3), (0, 1, 2));
    assert_eq!(set.notifiable(), 3);
    assert_eq!(set.flag(), NOTIFIABLE);

    assert!(set.notify_one());
    assert_eq!(wakes(&t1) + wakes(&t2) + wakes(&t3), 1);
    assert_eq!(wakes(&t1), 1);
    assert_eq!(set.notifiable(), 2);
    assert_eq!(set.flag(), NOTIFIED | NOTIFIABLE);

    assert!(set.notify_all());
    assert_eq!((wakes(&t1), wakes(&t2), wakes(&t3)), (1, 1, 1));
    assert_eq!(set.notifiable(), 0);
    assert_eq!(set.flag() & NOTIFIABLE, 0);
    assert_eq!(set.flag(), NOTIFIED);
    assert_eq!(set.len(), 3);
}

#[test]
fn notify_any_twice_wakes_once() {
    let mut set = WakerSet::new();
    let (t, w) = task();
    set.insert(w);
    assert!(set.notify_any());
    assert!(!set.notify_any());
    assert_eq!(wakes(&t), 1);
    assert_eq!(set.notifiable(), 0);
    assert_eq!(set.len(), 1);
}

#[test]
fn notify_any_waits_for_the_notified_entry_to_leave() {
    let mut set = WakerSet::new();
    let (t1, w1) = task();
    let (t2, w2) = task();
    let k1 = set.insert(w1);
    set.insert(w2);
    assert!(set.notify_any());
    assert_eq!((wakes(&t1), wakes(&t2)), (1, 0));
    assert!(!set.notify_any());
    assert!(!set.notify_any());
    assert_eq!((wakes(&t1), wakes(&t2)), (1, 0));
    set.remove(k1);
    assert_eq!(set.flag(), NOTIFIABLE);
    assert!(set.notify_any());
    assert_eq!((wakes(&t1), wakes(&t2)), (1, 1));
}

#[test]
fn notify_one_is_additive() {
    let mut set = WakerSet::new();
    let (t1, w1) = task();
    let (t2, w2) = task();
    let (t3, w3) = task();
    set.insert(w1);
    set.insert(w2);
    set.insert(w3);
    assert!(set.notify_one());
    assert_eq!((wakes(&t1), wakes(&t2), wakes(&t3)), (1, 0, 0));
    assert!(set.notify_one());
    assert_eq!((wakes(&t1), wakes(&t2), wakes(&t3)), (1, 1, 0));
    assert!(set.notify_one());
    assert_eq!((wakes(&t1), wakes(&t2), wakes(&t3)), (1, 1, 1));
    assert!(!set.notify_one());
    assert_eq!((wakes(&t1), wakes(&t2), wakes(&t3)), (1, 1, 1));
    assert_eq!(set.notifiable(), 0);
    assert_eq!(set.len(), 3);
}

#[test]
fn notify_all_reaches_every_waiting_entry() {
    let mut set = WakerSet::new();
    let (t1, w1) = task();
    let (t2, w2) = task();
    let (t3, w3) = task();
    set.insert(w1);
    let k2 = set.insert(w2);
    assert!(set.notify_one());
    set.remove(k2);
    set.insert(w3);
    assert!(set.notify_all());
    assert_eq!((wakes(&t1), wakes(&t2), wakes(&t3)), (1, 0, 1));
    assert!(!set.notify_all());
    assert_eq!((wakes(&t1), wakes(&t2), wakes(&t3)), (1, 0, 1));
}

#[test]
fn insert_then_remove_restores_the_counts() {
    let mut set = WakerSet::new();
    let (_t1, w1) = task();
    let (t2, w2) = task();
    set.insert(w1);
    let (len, waiting, flag) = (set.len(), set.notifiable(), set.flag());
    let key = set.insert(w2);
    assert_eq!(key, 1);
    assert_eq!((set.len(), set.notifiable()), (2, 2));
    set.remove(key);
    assert_eq!((set.len(), set.notifiable(), set.flag()), (len, waiting, flag));
    assert_eq!(wakes(&t2), 0);
}

#[test]
fn insert_then_remove_on_an_empty_set() {
    let mut set = WakerSet::new();
    let (_t, w) = task();
    let key = set.insert(w);
    assert_eq!(key, 0);
    assert_eq!(set.flag(), NOTIFIABLE);
    set.remove(key);
    assert_eq!((set.len(), set.notifiable(), set.flag()), (0, 0, 0));
}

#[test]
fn keys_are_used_again_last_freed_first() {
    let mut set = WakerSet::new();
    let mut keys = Vec::new();
    for _ in 0..4 {
        let (_t, w) = task();
        keys.push(set.insert(w));
    }
    assert_eq!(keys, vec![0, 1, 2, 3]);
    set.remove(1);
    set.remove(3);
    let (_t, w) = task();
    assert_eq!(set.insert(w), 3);
    let (_t, w) = task();
    assert_eq!(set.insert(w), 1);
    let (_t, w) = task();
    assert_eq!(set.insert(w), 4);
    assert_eq!(set.len(), 5);
}

#[test]
fn remove_of_a_notified_entry_keeps_the_count_of_waiting() {
    let mut set = WakerSet::new();
    let (_t1, w1) = task();
    let (_t2, w2) = task();
    let k1 = set.insert(w1);
    set.insert(w2);
    assert!(set.notify_one());
    assert_eq!((set.len(), set.notifiable()), (2, 1));
    set.remove(k1);
    assert_eq!((set.len(), set.notifiable()), (1, 1));
    assert_eq!(set.flag(), NOTIFIABLE);
}

#[test]
fn remove_of_a_free_key_changes_nothing() {
    let mut set = WakerSet::new();
    let (t, w) = task();
    let key = set.insert(w);
    set.remove(key + 1);
    set.remove(100);
    assert_eq!((set.len(), set.notifiable(), set.flag()), (1, 1, NOTIFIABLE));
    set.remove(key);
    set.remove(key);
    assert_eq!((set.len(), set.notifiable(), set.flag()), (0, 0, 0));
    assert!(!set.cancel(key));
    assert_eq!((set.len(), set.notifiable(), set.flag()), (0, 0, 0));
    assert_eq!(wakes(&t), 0);
}

#[test]
fn cancel_of_a_waiting_entry_only_removes_it() {
    let mut set = WakerSet::new();
    let (t1, w1) = task();
    let (t2, w2) = task();
    let k1 = set.insert(w1);
    set.insert(w2);
    assert!(!set.cancel(k1));
    assert_eq!((wakes(&t1), wakes(&t2)), (0, 0));
    assert_eq!((set.len(), set.notifiable(), set.flag()), (1, 1, NOTIFIABLE));
}

#[test]
fn cancel_of_a_notified_entry_notifies_the_next() {
    let mut set = WakerSet::new();
    let (ta, wa) = task();
    let (tb, wb) = task();
    let a = set.insert(wa);
    let _b = set.insert(wb);
    assert!(set.notify_any());
    assert_eq!((wakes(&ta), wakes(&tb)), (1, 0));
    assert!(set.cancel(a));
    assert_eq!((wakes(&ta), wakes(&tb)), (1, 1));
    assert_eq!((set.len(), set.notifiable(), set.flag()), (1, 0, NOTIFIED));
}

#[test]
fn cancel_of_a_notified_entry_with_nobody_waiting() {
    let mut set = WakerSet::new();
    let (ta, wa) = task();
    let a = set.insert(wa);
    assert!(set.notify_any());
    assert!(!set.cancel(a));
    assert_eq!(wakes(&ta), 1);
    assert_eq!((set.len(), set.notifiable(), set.flag()), (0, 0, 0));
}

#[test]
fn cancel_passes_the_notification_to_the_lowest_waiting_key() {
    let mut set = WakerSet::new();
    let (t0, w0) = task();
    let (t1, w1) = task();
    let (t2, w2) = task();
    let (t3, w3) = task();
    set.insert(w0);
    set.insert(w1);
    set.insert(w2);
    set.insert(w3);
    set.remove(1);
    // Entry 0 is notified, then entry 2.
    assert!(set.notify_one());
    assert!(set.notify_one());
    assert_eq!((wakes(&t0), wakes(&t1), wakes(&t2), wakes(&t3)), (1, 0, 1, 0));
    // Entry 2 gives up: its notification goes to entry 3.
    assert!(set.cancel(2));
    assert_eq!((wakes(&t0), wakes(&t1), wakes(&t2), wakes(&t3)), (1, 0, 1, 1));
    assert_eq!((set.len(), set.notifiable(), set.flag()), (2, 0, NOTIFIED));
}

#[test]
fn notification_follows_the_order_of_the_keys() {
    let mut set = WakerSet::new();
    let (t0, w0) = task();
    let (t1, w1) = task();
    let (t2, w2) = task();
    set.insert(w0);
    set.insert(w1);
    set.remove(0);
    // The new entry takes key 0 and is notified before the older entry 1.
    assert_eq!(set.insert(w2), 0);
    assert!(set.notify_one());
    assert_eq!((wakes(&t0), wakes(&t1), wakes(&t2)), (0, 0, 1));
    assert!(set.notify_one());
    assert_eq!((wakes(&t0), wakes(&t1), wakes(&t2)), (0, 1, 1));
}

#[test]
fn the_same_handle_can_be_registered_again() {
    let mut set = WakerSet::new();
    let (t, w) = task();
    let k1 = set.insert(w.clone());
    assert!(set.notify_any());
    set.remove(k1);
    let k2 = set.insert(w);
    assert_eq!(k2, k1);
    assert!(set.notify_any());
    assert_eq!(wakes(&t), 2);
}

#[test]
fn the_flag_follows_every_operation() {
    let mut set = WakerSet::new();
    let (_t1, w1) = task();
    let (_t2, w2) = task();
    assert_eq!(set.flag(), 0);
    let k1 = set.insert(w1);
    assert_eq!(set.flag(), NOTIFIABLE);
    let k2 = set.insert(w2);
    assert_eq!(set.flag(), NOTIFIABLE);
    set.notify_any();
    assert_eq!(set.flag(), NOTIFIED | NOTIFIABLE);
    set.notify_all();
    assert_eq!(set.flag(), NOTIFIED);
    set.remove(k1);
    assert_eq!(set.flag(), NOTIFIED);
    set.cancel(k2);
    assert_eq!(set.flag(), 0);
}

#[test]
fn a_wake_log_wakes_each_handle_once() {
    let mut log = WakeLog::new();
    let (t1, w1) = task();
    let (t2, w2) = task();
    log.wake(w1);
    assert_eq!((wakes(&t1), wakes(&t2)), (1, 0));
    log.wake(w2.clone());
    log.wake(w2);
    assert_eq!((wakes(&t1), wakes(&t2)), (1, 2));
}

/// The set as a plain list: `None` for a free key, `Some(false)` for an entry
/// that has been notified, `Some(true)` for an entry that waits.
struct Plain {
    slots: Vec<Option<bool>>,
    free: Vec<usize>,
    wakes: Vec<usize>,
}

impl Plain {
    fn insert(&mut self) -> usize {
        match self.free.pop() {
            Some(key) => {
                self.slots[key] = Some(true);
                self.wakes[key] = 0;
                key
            }
            None => {
                self.slots.push(Some(true));
                self.wakes.push(0);
                self.slots.len() - 1
            }
        }
    }

    fn remove(&mut self, key: usize) -> Option<bool> {
        let slot = self.slots.get(key).copied().flatten();
        if slot.is_some() {
            self.slots[key] = None;
            self.free.push(key);
        }
        slot
    }

    fn notify_first(&mut self) -> bool {
        match self.slots.iter().position(|slot| *slot == Some(true)) {
            Some(key) => {
                self.slots[key] = Some(false);
                self.wakes[key] += 1;
                true
            }
            None => false,
        }
    }

    fn waiting(&self) -> usize {
        self.slots.iter().filter(|slot| **slot == Some(true)).count()
    }

    fn notified(&self) -> usize {
        self.slots.iter().filter(|slot| **slot == Some(false)).count()
    }

    fn flag(&self) -> u8 {
        let mut flag = 0;
        if self.notified() > 0 {
            flag |= NOTIFIED;
        }
        if self.waiting() > 0 {
            flag |= NOTIFIABLE;
        }
        flag
    }
}

#[test]
fn random_operations_agree_with_a_plain_list() {
    let mut seed: u64 = 0x2545_f491_4f6c_dd1d;
    let mut next = move |bound: u64| {
        seed ^= seed << 13;
        seed ^= seed >> 7;
        seed ^= seed << 17;
        seed % bound
    };
    for _ in 0..50 {
        let mut set = WakerSet::new();
        let mut plain = Plain { slots: Vec::new(), free: Vec::new(), wakes: Vec::new() };
        let mut tasks: Vec<Arc<Task>> = Vec::new();
        for _ in 0..200 {
            match next(7) {
                0 | 1 => {
                    let (t, w) = task();
                    let key = set.insert(w);
                    assert_eq!(key, plain.insert());
                    if key == tasks.len() {
                        tasks.push(t);
                    } else {
                        tasks[key] = t;
                    }
                }
                2 => {
                    let key = next(plain.slots.len() as u64 + 2) as usize;
                    set.remove(key);
                    plain.remove(key);
                }
                3 => {
                    let key = next(plain.slots.len() as u64 + 2) as usize;
                    let expected = match plain.remove(key) {
                        Some(false) => plain.notify_first(),
                        _ => false,
                    };
                    assert_eq!(set.cancel(key), expected);
                }
                4 => {
                    let expected = plain.notified() == 0 && plain.notify_first();
                    assert_eq!(set.notify_any(), expected);
                }
                5 => {
                    let expected = plain.notify_first();
                    assert_eq!(set.notify_one(), expected);
                }
                _ => {
                    let mut expected = false;
                    while plain.notify_first() {
                        expected = true;
                    }
                    assert_eq!(set.notify_all(), expected);
                }
            }
            assert_eq!(set.notifiable(), plain.waiting());
            assert_eq!(set.len(), plain.waiting() + plain.notified());
            assert_eq!(set.flag(), plain.flag());
            for (key, t) in tasks.iter().enumerate() {
                assert_eq!(wakes(t), plain.wakes[key]);
            }
        }
    }
}
