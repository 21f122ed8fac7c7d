use locker::slab::Slab;

#[test]
fn a_new_slab_is_empty() {
    let slab: Slab<u32> = Slab::new();
    assert_eq!(slab.len(), 0);
    assert!(slab.is_empty());
    assert_eq!(slab.key_bound(), 0);
    assert!(!slab.contains(0));
    assert_eq!(slab.get(0), None);
    assert_eq!(slab.keys(), Vec::<usize>::new());
}

#[test]
fn insert_hands_out_ascending_keys() {
    let mut slab = Slab::new();
    assert_eq!(slab.insert('a'), 0);
    assert_eq!(slab.insert('b'), 1);
    assert_eq!(slab.insert('c'), 2);
    assert_eq!(slab.len(), 3);
    assert!(!slab.is_empty());
    assert_eq!(slab.key_bound(), 3);
    assert_eq!(slab.get(0), Some(&'a'));
    assert_eq!(slab.get(1), Some(&'b'));
    assert_eq!(slab.get(2), Some(&'c'));
    assert_eq!(slab.get(3), None);
    assert_eq!(slab.keys(), vec![0, 1, 2]);
}

#[test]
fn remove_returns_the_value_once() {
    let mut slab = Slab::new();
    let key = slab.insert(7u8);
    assert_eq!(slab.remove(key), Some(7));
    assert_eq!(slab.remove(key), None);
    assert_eq!(slab.remove(key + 1), None);
    assert_eq!(slab.len(), 0);
    assert!(!slab.contains(key));
    assert_eq!(slab.key_bound(), 1);
}

#[test]
fn the_key_freed_last_is_used_first() {
    let mut slab = Slab::new();
    for value in 0..5u32 {
        slab.insert(value);
    }
    assert_eq!(slab.remove(1), Some(1));
    assert_eq!(slab.remove(4), Some(4));
    assert_eq!(slab.remove(2), Some(2));
    assert_eq!(slab.len(), 2);
    assert_eq!(slab.keys(), vec![0, 3]);
    assert_eq!(slab.insert(20), 2);
    assert_eq!(slab.insert(40), 4);
    assert_eq!(slab.insert(10), 1);
    assert_eq!(slab.insert(50), 5);
    assert_eq!(slab.len(), 6);
    assert_eq!(slab.key_bound(), 6);
    assert_eq!(slab.keys(), vec![0, 1, 2, 3, 4, 5]);
    assert_eq!(slab.get(1), Some(&10));
    assert_eq!(slab.get(2), Some(&20));
    assert_eq!(slab.get(4), Some(&40));
}

#[test]
fn get_mut_changes_the_value_in_place() {
    let mut slab = Slab::new();
    let a = slab.insert(String::from("a"));
    let b = slab.insert(String::from("b"));
    slab.get_mut(a).unwrap().push('!');
    assert_eq!(slab.get(a).map(String::as_str), Some("a!"));
    assert_eq!(slab.get(b).map(String::as_str), Some("b"));
    assert!(slab.get_mut(2).is_none());
    slab.remove(a);
    assert!(slab.get_mut(a).is_none());
    assert_eq!(slab.len(), 1);
}

#[test]
fn a_value_can_be_emptied_while_walking_the_keys() {
    let mut slab = Slab::new();
    slab.insert(Some(1));
    slab.insert(Some(2));
    slab.insert(Some(3));
    slab.remove(1);
    let mut taken = Vec::new();
    for key in 0..slab.key_bound() {
        if let Some(slot) = slab.get_mut(key) {
            taken.push((key, slot.take()));
        }
    }
    assert_eq!(taken, vec![(0, Some(1)), (2, Some(3))]);
    assert_eq!(slab.len(), 2);
    assert_eq!(slab.get(0), Some(&None));
    assert_eq!(slab.get(2), Some(&None));
}

#[test]
fn random_operations_agree_with_a_plain_list_of_slots() {
    let mut seed: u64 = 0x9e37_79b9_7f4a_7c15;
    let mut next = move |bound: u64| {
        seed ^= seed << 13;
        seed ^= seed >> 7;
        seed ^= seed << 17;
        seed % bound
    };
    let mut slab = Slab::new();
    let mut slots: Vec<Option<u64>> = Vec::new();
    let mut free: Vec<usize> = Vec::new();
    for round in 0..2000u64 {
        if next(3) < 2 {
            let key = slab.insert(round);
            match free.pop() {
                Some(expected) => {
                    assert_eq!(key, expected);
                    slots[key] = Some(round);
                }
                None => {
                    assert_eq!(key, slots.len());
                    slots.push(Some(round));
                }
            }
        } else {
            let key = next(slots.len() as u64 + 2) as usize;
            let expected = slots.get(key).copied().flatten();
            assert_eq!(slab.remove(key), expected);
            if expected.is_some() {
                slots[key] = None;
                free.push(key);
            }
        }
        assert_eq!(slab.len(), slots.iter().flatten().count());
        assert_eq!(slab.key_bound(), slots.len());
        let keys: Vec<usize> = (0..slots.len()).filter(|key| slots[*key].is_some()).collect();
        assert_eq!(slab.keys(), keys);
        for (key, slot) in slots.iter().enumerate() {
            assert_eq!(slab.get(key), slot.as_ref());
            assert_eq!(slab.contains(key), slot.is_some());
        }
    }
}
