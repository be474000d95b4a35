use std::collections::VecDeque;

use widgets::widgets::history::{push_sample, HISTORY_CAPACITY};

#[test]
fn push_grows_in_order() {
    let mut h: VecDeque<u64> = VecDeque::new();
    push_sample(&mut h, 1);
    push_sample(&mut h, 2);
    push_sample(&mut h, 3);
    assert_eq!(h, VecDeque::from(vec![1, 2, 3]));
}

#[test]
fn capacity_is_one_hundred() {
    assert_eq!(HISTORY_CAPACITY, 100);
}

#[test]
fn history_never_exceeds_capacity() {
    let mut h: VecDeque<u64> = VecDeque::new();
    for i in 0..105u64 {
        push_sample(&mut h, i);
        assert!(h.len() <= HISTORY_CAPACITY);
    }
    assert_eq!(h.len(), HISTORY_CAPACITY);
}

#[test]
fn overflow_drops_oldest_first() {
    let mut h: VecDeque<u64> = VecDeque::new();
    for i in 0..100u64 {
        push_sample(&mut h, i);
    }
    assert_eq!(h.front(), Some(&0));
    push_sample(&mut h, 100);
    assert_eq!(h.len(), 100);
    assert_eq!(h.front(), Some(&1));
    assert_eq!(h.back(), Some(&100));
    push_sample(&mut h, 101);
    assert_eq!(h.front(), Some(&2));
    assert_eq!(h.back(), Some(&101));
}
