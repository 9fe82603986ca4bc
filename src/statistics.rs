//! Timing statistics of the compositor, as `(metric, value)` samples.
use vstd::prelude::*;
use std::collections::HashMap;

verus! {

broadcast use vstd::std_specs::hash::group_hash_axioms;

/// Nanoseconds spent compositing, before calling through.
pub const FRAME_TIME_CUSTOM: u32 = 0;
/// Nanoseconds for the whole present call.
pub const FRAME_TIME_TOTAL: u32 = 1;
/// The whole call minus compositing.
pub const FRAME_TIME_DIFF: u32 = 2;
/// Number of metric slots that a statistics table starts with.
pub const METRIC_SLOTS: u32 = 100;

/// A statistics table with every metric slot present and zero.
pub open spec fn zeroed_stats() -> Map<u32, u32> {
    Map::new(|k: u32| k < METRIC_SLOTS, |k: u32| 0u32)
}

/// A table with each of the metric slots `0..100` present and zero, so that
/// reading any known metric finds a value.
pub fn get_stats_map() -> (r: HashMap<u32, u32>)
    ensures
        r@ == zeroed_stats(),
{
    let mut stats: HashMap<u32, u32> = HashMap::with_capacity(METRIC_SLOTS as usize);
    let mut i: u32 = 0;
    while i < METRIC_SLOTS
        invariant
            i <= METRIC_SLOTS,
            stats@ == Map::new(|k: u32| k < i, |k: u32| 0u32),
        decreases METRIC_SLOTS - i,
    {
        stats.insert(i, 0);
        assert(stats@ =~= Map::new(|k: u32| k < i + 1, |k: u32| 0u32));
        i = i + 1;
    }
    assert(stats@ =~= zeroed_stats());
    stats
}

/// Stores one received sample in the table; a later sample of a metric
/// replaces the earlier one.
pub fn record_statistic(stats: &mut HashMap<u32, u32>, key: u32, value: u32)
    ensures
        final(stats)@ == old(stats)@.insert(key, value),
{
    stats.insert(key, value);
}

/// Queues one sample for the statistics sink.
pub fn send_statistic(outbox: &mut Vec<(u32, u32)>, key: u32, value: u32)
    ensures
        final(outbox)@ == old(outbox)@.push((key, value)),
{
    outbox.push((key, value));
}

/// `a - b` modulo `2^32`.
pub open spec fn wrapped_difference(a: u32, b: u32) -> u32 {
    if a >= b {
        (a - b) as u32
    } else {
        (a + 0x1_0000_0000 - b) as u32
    }
}

/// The samples of one drawn frame: compositing time, total time, and their
/// difference, wrapping as the 32-bit counters do.
pub open spec fn frame_samples(custom: u32, total: u32) -> Seq<(u32, u32)> {
    seq![
        (FRAME_TIME_CUSTOM, custom),
        (FRAME_TIME_TOTAL, total),
        (FRAME_TIME_DIFF, wrapped_difference(total, custom)),
    ]
}

/// Queues the timing samples of one drawn frame.
pub fn send_frame_times(outbox: &mut Vec<(u32, u32)>, custom: u32, total: u32)
    ensures
        final(outbox)@ == old(outbox)@ + frame_samples(custom, total),
{
    send_statistic(outbox, FRAME_TIME_CUSTOM, custom);
    send_statistic(outbox, FRAME_TIME_TOTAL, total);
    let diff = total.wrapping_sub(custom);
    send_statistic(outbox, FRAME_TIME_DIFF, diff);
    assert(old(outbox)@ + frame_samples(custom, total) =~= outbox@);
}

} // verus!
