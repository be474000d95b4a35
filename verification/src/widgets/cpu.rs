//! Processor usage: averaging the per-core readings and recording the
//! overall usage in the chart history.
//!
//! A reading is a load percentage in hundredths of a percent, so `10000`
//! stands for a fully busy core. Polling the readings from the host is the
//! host loop's job; the functions here take the readings as plain values.

use std::collections::VecDeque;
use vstd::arithmetic::div_mod::{lemma_div_is_ordered, lemma_div_multiples_vanish};
use vstd::prelude::*;

use crate::widgets::history::{push_capped, push_sample, HISTORY_CAPACITY};

verus! {

/// Sum of a sequence of readings.
pub open spec fn sum_of(s: Seq<u64>) -> int
    decreases s.len(),
{
    if s.len() == 0 {
        0
    } else {
        sum_of(s.drop_last()) + s.last()
    }
}

/// Mean of a sequence of readings, rounded toward zero; an empty sequence
/// averages to zero.
pub open spec fn average_of(s: Seq<u64>) -> int {
    if s.len() == 0 {
        0
    } else {
        sum_of(s) / s.len() as int
    }
}

proof fn lemma_sum_of_bounds(s: Seq<u64>)
    ensures
        0 <= sum_of(s) <= s.len() * u64::MAX,
    decreases s.len(),
{
    if s.len() > 0 {
        lemma_sum_of_bounds(s.drop_last());
    }
}

proof fn lemma_average_of_fits(s: Seq<u64>)
    ensures
        0 <= average_of(s) <= u64::MAX,
{
    if s.len() > 0 {
        let n = s.len() as int;
        lemma_sum_of_bounds(s);
        lemma_div_is_ordered(sum_of(s), n * u64::MAX, n);
        lemma_div_multiples_vanish(u64::MAX as int, n);
        lemma_div_is_ordered(0, sum_of(s), n);
    }
}

/// Mean of the per-core readings, rounded toward zero; zero when there are
/// no cores.
pub fn average_usage(samples: &Vec<u64>) -> (r: u64)
    ensures
        r == average_of(samples@),
{
    if samples.len() == 0 {
        return 0;
    }
    let mut sum: u128 = 0;
    let mut i: usize = 0;
    while i < samples.len()
        invariant
            i <= samples@.len(),
            sum == sum_of(samples@.subrange(0, i as int)),
            sum <= i * u64::MAX,
        decreases samples@.len() - i,
    {
        proof {
            assert(samples@.subrange(0, i + 1 as int).drop_last() =~= samples@.subrange(
                0,
                i as int,
            ));
        }
        sum = sum + samples[i] as u128;
        i = i + 1;
    }
    proof {
        assert(samples@.subrange(0, samples@.len() as int) =~= samples@);
        lemma_average_of_fits(samples@);
        lemma_div_is_ordered(sum as int, samples@.len() * u64::MAX, samples@.len() as int);
        lemma_div_multiples_vanish(u64::MAX as int, samples@.len() as int);
    }
    let avg: u128 = sum / (samples.len() as u128);
    avg as u64
}

/// Record the mean of the per-core readings in the usage history, dropping
/// the oldest entry once the history is full.
pub fn cpu_usage_history(cpu_samples: &Vec<u64>, history: &mut VecDeque<u64>)
    ensures
        final(history)@ == push_capped(old(history)@, average_of(cpu_samples@) as u64),
        old(history)@.len() <= HISTORY_CAPACITY ==> final(history)@.len() <= HISTORY_CAPACITY,
{
    proof {
        lemma_average_of_fits(cpu_samples@);
    }
    let average = average_usage(cpu_samples);
    push_sample(history, average);
}

} // verus!
