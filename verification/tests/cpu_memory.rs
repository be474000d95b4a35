use std::collections::VecDeque;

use widgets::widgets::cpu::{average_usage, cpu_usage_history};
use widgets::widgets::memory::{memory_usage_history, MemoryUsage};

#[test]
fn average_of_no_cores_is_zero() {
    let samples: Vec<u64> = Vec::new();
    assert_eq!(average_usage(&samples), 0);
}

#[test]
fn average_of_two_cores() {
    let samples: Vec<u64> = vec![1000, 2000];
    assert_eq!(average_usage(&samples), 1500);
}

#[test]
fn average_rounds_toward_zero() {
    let samples: Vec<u64> = vec![1, 2];
    assert_eq!(average_usage(&samples), 1);
}

#[test]
fn average_of_largest_readings() {
    let samples: Vec<u64> = vec![u64::MAX, u64::MAX, u64::MAX];
    assert_eq!(average_usage(&samples), u64::MAX);
}

#[test]
fn cpu_history_records_the_mean() {
    let mut h: VecDeque<u64> = VecDeque::new();
    let samples: Vec<u64> = vec![100, 200, 400];
    cpu_usage_history(&samples, &mut h);
    assert_eq!(h, VecDeque::from(vec![233]));
}

#[test]
fn cpu_history_stays_capped() {
    let mut h: VecDeque<u64> = VecDeque::new();
    let samples: Vec<u64> = vec![5000];
    for _ in 0..150 {
        cpu_usage_history(&samples, &mut h);
    }
    assert_eq!(h.len(), 100);
    assert!(h.iter().all(|&v| v == 5000));
}

#[test]
fn memory_default_is_all_zero() {
    let m = MemoryUsage::default();
    assert_eq!(m.total_memory, 0);
    assert_eq!(m.used_memory, 0);
    assert_eq!(m.free_memory, 0);
    assert_eq!(m.total_swap, 0);
    assert_eq!(m.used_swap, 0);
    assert_eq!(m.free_swap, 0);
}

#[test]
fn memory_history_records_used_bytes() {
    let mut h: VecDeque<u64> = VecDeque::new();
    let m = MemoryUsage { used_memory: 123_456, ..MemoryUsage::default() };
    memory_usage_history(&m, &mut h);
    let m2 = MemoryUsage { used_memory: 654_321, ..m };
    memory_usage_history(&m2, &mut h);
    assert_eq!(h, VecDeque::from(vec![123_456, 654_321]));
}
