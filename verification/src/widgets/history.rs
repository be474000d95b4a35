//! Fixed-capacity sample histories: bounded FIFO queues of recent metric
//! readings that drive the time-series charts.

use std::collections::VecDeque;
use vstd::prelude::*;

verus! {

/// Greatest number of samples a history keeps.
pub const HISTORY_CAPACITY: usize = 100;

/// The sequence a history holds after one sample is recorded: the new sample
/// is appended, and if the history would then exceed `HISTORY_CAPACITY`, the
/// oldest sample is dropped.
pub open spec fn push_capped(h: Seq<u64>, value: u64) -> Seq<u64> {
    let grown = h.push(value);
    if grown.len() > HISTORY_CAPACITY {
        grown.drop_first()
    } else {
        grown
    }
}

/// Record one sample in a history, dropping the oldest sample if the history
/// would otherwise exceed `HISTORY_CAPACITY`. A history that starts within
/// capacity stays within capacity.
pub fn push_sample(history: &mut VecDeque<u64>, value: u64)
    ensures
        final(history)@ == push_capped(old(history)@, value),
        old(history)@.len() <= HISTORY_CAPACITY ==> final(history)@.len() <= HISTORY_CAPACITY,
{
    history.push_back(value);
    if history.len() > HISTORY_CAPACITY {
        history.pop_front();
    }
}

} // verus!
