use rsplayer::queue::BoundedQueue;
use rsplayer::queue::Full;
use std::cell::RefCell;

#[test]
fn new_queue_is_empty() {
    let queue: BoundedQueue<u32, 3> = BoundedQueue::new();
    assert_eq!(queue.len(), 0);
    assert!(queue.is_empty());
    assert!(!queue.is_full());
    assert_eq!(queue.capacity(), 3);
    assert_eq!(queue.peek_front(), None);
}

#[test]
fn push_beyond_capacity_fails_and_queue_stays_bounded() {
    let mut queue: BoundedQueue<u32, 3> = BoundedQueue::new();
    assert_eq!(queue.push(1), Ok(()));
    assert_eq!(queue.push(2), Ok(()));
    assert_eq!(queue.push(3), Ok(()));
    assert!(queue.is_full());
    for item in 4..20 {
        assert_eq!(queue.push(item), Err(Full { item }));
        assert_eq!(queue.len(), 3);
    }
    assert_eq!(queue.pop_front(), Some(1));
    assert_eq!(queue.pop_front(), Some(2));
    assert_eq!(queue.pop_front(), Some(3));
    assert_eq!(queue.pop_front(), None);
}

#[test]
fn failed_push_hands_the_item_back_and_changes_nothing() {
    let mut queue: BoundedQueue<String, 1> = BoundedQueue::new();
    assert_eq!(queue.push(String::from("first")), Ok(()));
    let refused = queue.push(String::from("second"));
    assert_eq!(refused, Err(Full { item: String::from("second") }));
    assert_eq!(queue.len(), 1);
    assert_eq!(queue.peek_front(), Some(&String::from("first")));
    assert_eq!(queue.pop_front(), Some(String::from("first")));
    assert_eq!(queue.len(), 0);
}

#[test]
fn pop_front_returns_items_in_push_order() {
    let mut queue: BoundedQueue<u32, 4> = BoundedQueue::new();
    assert_eq!(queue.push(10), Ok(()));
    assert_eq!(queue.push(20), Ok(()));
    assert_eq!(queue.pop_front(), Some(10));
    assert_eq!(queue.push(30), Ok(()));
    assert_eq!(queue.push(40), Ok(()));
    assert_eq!(queue.push(50), Ok(()));
    assert_eq!(queue.push(60), Err(Full { item: 60 }));
    assert_eq!(queue.pop_front(), Some(20));
    assert_eq!(queue.pop_front(), Some(30));
    assert_eq!(queue.pop_front(), Some(40));
    assert_eq!(queue.pop_front(), Some(50));
    assert_eq!(queue.pop_front(), None);
    assert_eq!(queue.pop_front(), None);
}

#[test]
fn every_pop_matches_one_earlier_push() {
    let mut queue: BoundedQueue<u32, 2> = BoundedQueue::new();
    let mut accepted: Vec<u32> = Vec::new();
    let mut popped: Vec<u32> = Vec::new();
    for round in 0..30u32 {
        if round % 3 == 2 {
            if let Some(item) = queue.pop_front() {
                popped.push(item);
            }
        } else if queue.push(round).is_ok() {
            accepted.push(round);
        }
        assert!(queue.len() <= 2);
    }
    while let Some(item) = queue.pop_front() {
        popped.push(item);
    }
    assert_eq!(accepted, popped);
}

#[test]
fn peek_front_leaves_the_item_queued() {
    let mut queue: BoundedQueue<u32, 2> = BoundedQueue::new();
    assert_eq!(queue.push(7), Ok(()));
    assert_eq!(queue.push(8), Ok(()));
    assert_eq!(queue.peek_front(), Some(&7));
    assert_eq!(queue.peek_front(), Some(&7));
    assert_eq!(queue.len(), 2);
}

#[test]
fn zero_capacity_queue_refuses_everything() {
    let mut queue: BoundedQueue<u32, 0> = BoundedQueue::new();
    assert!(queue.is_full());
    assert_eq!(queue.push(1), Err(Full { item: 1 }));
    assert_eq!(queue.len(), 0);
    assert_eq!(queue.pop_front(), None);
}

#[test]
fn drain_returns_everything_oldest_first() {
    let mut queue: BoundedQueue<u32, 3> = BoundedQueue::new();
    assert_eq!(queue.push(1), Ok(()));
    assert_eq!(queue.push(2), Ok(()));
    assert_eq!(queue.push(3), Ok(()));
    assert_eq!(queue.drain(), vec![1, 2, 3]);
    assert!(queue.is_empty());
    assert_eq!(queue.drain(), Vec::<u32>::new());
    assert_eq!(queue.push(4), Ok(()));
    assert_eq!(queue.len(), 1);
}

#[test]
fn clear_hands_every_item_to_the_finalizer_once() {
    let mut queue: BoundedQueue<u32, 3> = BoundedQueue::new();
    assert_eq!(queue.push(5), Ok(()));
    assert_eq!(queue.push(6), Ok(()));
    assert_eq!(queue.push(7), Ok(()));
    let released: RefCell<Vec<u32>> = RefCell::new(Vec::new());
    let answers = queue.clear(|item| released.borrow_mut().push(item));
    assert_eq!(answers.len(), 3);
    assert_eq!(released.into_inner(), vec![5, 6, 7]);
    assert!(queue.is_empty());
    assert_eq!(queue.capacity(), 3);
}
