use std::collections::VecDeque;

use simple_locks::bounded_queue::BoundedQueue;

#[test]
fn bounded_queue_refuses_push_when_full() {
    // the bound is the capacity the deque got, which is at least 5
    let mut q: BoundedQueue<u32> = BoundedQueue::new(5);
    let mut accepted = 0;
    while q.has_room() {
        assert_eq!(q.try_push(accepted), Ok(()));
        assert_eq!(q.back(), Some(&accepted));
        accepted += 1;
    }
    assert!(accepted >= 5);
    assert_eq!(q.try_push(99), Err(99));
    assert_eq!(q.len(), accepted as usize);
    assert_eq!(q.back(), Some(&(accepted - 1)));
}

#[test]
fn bounded_queue_from_deque_bound_is_capacity_at_least_cap() {
    // a reported capacity below what was asked for: the bound is what was asked
    let mut q: BoundedQueue<u32> = BoundedQueue::from_deque(VecDeque::new(), 3, 5);
    for i in 0..5 {
        assert_eq!(q.try_push(i), Ok(()));
    }
    assert_eq!(q.try_push(5), Err(5));
    // a reported capacity above what was asked for: the bound is the capacity
    let mut q: BoundedQueue<u32> = BoundedQueue::from_deque(VecDeque::new(), 7, 5);
    for i in 0..7 {
        assert_eq!(q.try_push(i), Ok(()));
    }
    assert_eq!(q.try_push(7), Err(7));
    assert_eq!(q.try_pop(), Some(0));
    assert_eq!(q.try_push(7), Ok(()));
}

#[test]
fn bounded_queue_pops_in_fifo_order() {
    let mut q: BoundedQueue<u32> = BoundedQueue::new(3);
    assert_eq!(q.try_pop(), None);
    assert_eq!(q.back(), None);
    assert_eq!(q.try_push(1), Ok(()));
    assert_eq!(q.try_push(2), Ok(()));
    assert_eq!(q.try_pop(), Some(1));
    assert_eq!(q.try_push(3), Ok(()));
    assert_eq!(q.try_pop(), Some(2));
    assert_eq!(q.try_pop(), Some(3));
    assert_eq!(q.try_pop(), None);
    assert!(q.has_room());
}

#[test]
fn bounded_queue_pop_undoes_push_on_empty() {
    let mut q: BoundedQueue<&str> = BoundedQueue::new(1);
    assert_eq!(q.try_push("a"), Ok(()));
    assert_eq!(q.try_pop(), Some("a"));
    assert_eq!(q.len(), 0);
}

#[test]
fn bounded_queue_carries_data_in_fifo_order() {
    // a producer of 0..100 and a consumer, through room for 5 items
    let data: Vec<usize> = (0..100).collect();
    let mut q: BoundedQueue<usize> = BoundedQueue::new(5);
    let mut res = vec![];
    let mut next = 0;
    while res.len() < data.len() {
        while next < data.len() {
            match q.try_push(data[next]) {
                Ok(()) => next += 1,
                Err(v) => {
                    assert_eq!(v, data[next]);
                    break;
                }
            }
        }
        while let Some(item) = q.try_pop() {
            res.push(item);
        }
    }
    assert_eq!(res, data, "data should be the same in FIFO order");
}

#[test]
fn bounded_queue_default_is_empty_and_full() {
    // `VecDeque::new` allocates nothing, so the default queue has no room
    let mut q: BoundedQueue<u8> = BoundedQueue::default();
    assert_eq!(q.len(), 0);
    assert_eq!(q.try_pop(), None);
    assert!(!q.has_room());
    assert_eq!(q.try_push(1), Err(1));
}

#[test]
fn bounded_queue_from_deque_keeps_held_items() {
    let mut items = VecDeque::new();
    items.push_back(10u32);
    items.push_back(20u32);
    let mut q = BoundedQueue::from_deque(items, 3, 2);
    assert_eq!(q.len(), 2);
    assert_eq!(q.try_push(30), Ok(()));
    assert_eq!(q.try_push(40), Err(40));
    assert_eq!(q.try_pop(), Some(10));
    assert_eq!(q.try_pop(), Some(20));
    assert_eq!(q.try_pop(), Some(30));
    assert_eq!(q.try_pop(), None);
}
