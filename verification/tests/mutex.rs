use mikado::sys::web::mutex::Mutex;

#[test]
fn free_lock_hands_out_its_value() {
    let mut m: Mutex<String, u32> = Mutex::new("value".to_string());
    assert_eq!(m.poll_lock(1).as_deref(), Some("value"));
    // Held: later polls wait.
    assert_eq!(m.poll_lock(2), None);
    assert_eq!(m.poll_lock(3), None);
}

#[test]
fn unlock_without_waiters_wakes_nobody() {
    let mut m: Mutex<u8, u32> = Mutex::new(5);
    let v = m.poll_lock(0).unwrap();
    assert_eq!(m.unlock(v + 1), None);
    // The next holder sees what the last one gave back.
    assert_eq!(m.poll_lock(0), Some(6));
}

#[test]
fn woken_task_receives_released_value() {
    let mut m: Mutex<u32, u32> = Mutex::new(0);
    let v = m.poll_lock(10).unwrap();
    assert_eq!(m.poll_lock(11), None);
    assert_eq!(m.unlock(v + 7), Some(11));
    assert_eq!(m.poll_lock(11), Some(7));
}

#[test]
fn barging_task_requeues_woken_one_at_back() {
    let mut m: Mutex<(), u32> = Mutex::new(());
    let g = m.poll_lock(1).unwrap();
    assert_eq!(m.poll_lock(2), None);
    assert_eq!(m.poll_lock(3), None);
    assert_eq!(m.unlock(g), Some(2));
    // Task 4 polls before the woken task 2 does and takes the lock.
    let g4 = m.poll_lock(4).unwrap();
    assert_eq!(m.poll_lock(2), None);
    assert_eq!(m.unlock(g4), Some(3));
    let g3 = m.poll_lock(3).unwrap();
    assert_eq!(m.unlock(g3), Some(2));
    let g2 = m.poll_lock(2).unwrap();
    assert_eq!(m.unlock(g2), None);
}

#[test]
fn sequential_tasks_lock_in_order() {
    // Ten tasks ask for the lock in order 0..10; each, once it holds the
    // lock, records its number and releases. They run in the order they asked.
    let mut m: Mutex<Vec<u32>, u32> = Mutex::new(Vec::new());
    let mut first = m.poll_lock(0).unwrap();
    for i in 1..10 {
        assert!(m.poll_lock(i).is_none());
    }
    first.push(0);
    let mut woken = m.unlock(first);
    let mut seen = Vec::new();
    while let Some(task) = woken {
        seen.push(task);
        let mut order = m.poll_lock(task).unwrap();
        order.push(task);
        woken = m.unlock(order);
    }
    assert_eq!(seen, (1..10).collect::<Vec<u32>>());
    assert_eq!(m.poll_lock(99).unwrap(), (0..10).collect::<Vec<u32>>());
}

#[test]
fn lock_state_follows_guards() {
    let mut m: Mutex<i32, u32> = Mutex::new(-3);
    assert!(!m.is_locked());
    let v = m.poll_lock(1).unwrap();
    assert!(m.is_locked());
    assert_eq!(m.poll_lock(2), None);
    assert!(m.is_locked());
    assert_eq!(m.unlock(v * 2), Some(2));
    assert!(!m.is_locked());
    assert_eq!(m.poll_lock(2), Some(-6));
}

#[test]
fn try_lock_and_enqueue() {
    let mut m: Mutex<u8, u32> = Mutex::new(9);
    assert_eq!(m.try_lock(), Some(9));
    assert_eq!(m.try_lock(), None);
    m.enqueue(1);
    m.enqueue(2);
    assert_eq!(m.unlock(10), Some(1));
    assert_eq!(m.try_lock(), Some(10));
    assert_eq!(m.unlock(11), Some(2));
    assert_eq!(m.try_lock(), Some(11));
    assert_eq!(m.unlock(12), None);
}

#[test]
fn wakes_first_in_first_out_across_interleavings() {
    let mut m: Mutex<(), u32> = Mutex::new(());
    let mut woken = Vec::new();
    let g = m.poll_lock(0).unwrap();
    assert_eq!(m.poll_lock(1), None);
    assert_eq!(m.poll_lock(2), None);
    woken.extend(m.unlock(g));
    // Task 5 barges in; the woken task 1 queues again behind 2.
    let g = m.poll_lock(5).unwrap();
    assert_eq!(m.poll_lock(3), None);
    assert_eq!(m.poll_lock(1), None);
    woken.extend(m.unlock(g));
    let g = m.poll_lock(2).unwrap();
    woken.extend(m.unlock(g));
    let g = m.poll_lock(3).unwrap();
    woken.extend(m.unlock(g));
    let g = m.poll_lock(1).unwrap();
    woken.extend(m.unlock(g));
    assert_eq!(woken, vec![1, 2, 3, 1]);
}

#[test]
fn waiter_at_place_k_is_woken_by_give_back_k_plus_one() {
    let mut m: Mutex<(), u32> = Mutex::new(());
    let mut g = m.poll_lock(100).unwrap();
    for w in 0..4 {
        assert_eq!(m.poll_lock(w), None);
    }
    // Waker 2 waits at place 2; new polls in between only queue behind it.
    let mut woken = Vec::new();
    for round in 0..3 {
        woken.push(m.unlock(g).unwrap());
        g = m.poll_lock(200 + round).unwrap();
        assert_eq!(m.poll_lock(300 + round), None);
    }
    assert_eq!(woken, vec![0, 1, 2]);
    assert_eq!(m.unlock(g), Some(3));
}
