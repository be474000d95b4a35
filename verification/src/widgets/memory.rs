//! Memory gauges: the snapshot of the host's memory and swap counters, and
//! the used-memory chart history.
//!
//! All counters are byte counts. Polling them from the host is the host
//! loop's job; the functions here take a snapshot as plain values.

use std::collections::VecDeque;
use vstd::prelude::*;

use crate::widgets::history::{push_capped, push_sample, HISTORY_CAPACITY};

verus! {

/// One snapshot of the host's memory and swap counters, in bytes.
#[derive(Clone, Copy, Debug, PartialEq, Eq, Structural)]
pub struct MemoryUsage {
    pub total_memory: u64,
    pub used_memory: u64,
    pub free_memory: u64,
    pub total_swap: u64,
    pub used_swap: u64,
    pub free_swap: u64,
}

/// Whether the snapshot is the all-zero one shown until the first poll.
pub open spec fn memory_is_default(m: MemoryUsage) -> bool {
    &&& m.total_memory == 0
    &&& m.used_memory == 0
    &&& m.free_memory == 0
    &&& m.total_swap == 0
    &&& m.used_swap == 0
    &&& m.free_swap == 0
}

impl Default for MemoryUsage {
    /// The all-zero snapshot, shown until the first poll succeeds.
    fn default() -> (r: Self)
        ensures
            memory_is_default(r),
    {
        MemoryUsage {
            total_memory: 0,
            used_memory: 0,
            free_memory: 0,
            total_swap: 0,
            used_swap: 0,
            free_swap: 0,
        }
    }
}

/// Record the snapshot's used-memory counter in the memory history,
/// dropping the oldest entry once the history is full.
pub fn memory_usage_history(memory: &MemoryUsage, history: &mut VecDeque<u64>)
    ensures
        final(history)@ == push_capped(old(history)@, memory.used_memory),
        old(history)@.len() <= HISTORY_CAPACITY ==> final(history)@.len() <= HISTORY_CAPACITY,
{
    push_sample(history, memory.used_memory);
}

} // verus!
