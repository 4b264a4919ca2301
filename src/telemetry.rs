//! Integer telemetry that a frame shows: totals of disk counters and the peak
//! that scales a throughput sparkline.
use crate::history::BoundedHistory;
use vstd::prelude::*;

verus! {

/// The sum of `s`.
pub open spec fn seq_sum(s: Seq<u64>) -> nat
    decreases s.len(),
{
    if s.len() == 0 {
        0
    } else {
        seq_sum(s.drop_last()) + s.last() as nat
    }
}

/// The largest item of `s`, or zero for an empty `s`.
pub open spec fn seq_max(s: Seq<u64>) -> nat
    decreases s.len(),
{
    if s.len() == 0 {
        0
    } else if s.last() >= seq_max(s.drop_last()) {
        s.last() as nat
    } else {
        seq_max(s.drop_last())
    }
}

/// The total of per-disk counters, or nothing where it overflows 64 bits.
pub fn checked_total(counters: &Vec<u64>) -> (r: Option<u64>)
    ensures
        r is Some <==> seq_sum(counters@) <= u64::MAX,
        r matches Some(t) ==> t == seq_sum(counters@),
{
    let mut total: u64 = 0;
    let mut i: usize = 0;
    while i < counters.len()
        invariant
            i <= counters@.len(),
            total == seq_sum(counters@.subrange(0, i as int)),
        decreases counters@.len() - i,
    {
        assert(counters@.subrange(0, i + 1).drop_last() =~= counters@.subrange(0, i as int));
        if total > u64::MAX - counters[i] {
            proof {
                lemma_sum_prefix_grows(counters@, i + 1);
            }
            return None;
        }
        total = total + counters[i];
        i = i + 1;
    }
    assert(counters@.subrange(0, i as int) =~= counters@);
    Some(total)
}

/// A longer prefix of `s` never sums to less.
proof fn lemma_sum_prefix_grows(s: Seq<u64>, j: int)
    requires
        0 <= j <= s.len(),
    ensures
        seq_sum(s.subrange(0, j)) <= seq_sum(s),
    decreases s.len() - j,
{
    if j < s.len() {
        lemma_sum_prefix_grows(s, j + 1);
        assert(s.subrange(0, j + 1).drop_last() =~= s.subrange(0, j));
    } else {
        assert(s.subrange(0, j) =~= s);
    }
}

/// The value that the tallest bar of a sparkline over `points` stands for:
/// the largest sample, and at least one, so that an idle series draws flat.
pub fn sparkline_peak(points: &BoundedHistory<u64>) -> (r: u64)
    ensures
        r == if seq_max(points@) >= 1 { seq_max(points@) } else { 1 },
{
    let mut peak: u64 = 0;
    let mut i: usize = 0;
    while i < points.len()
        invariant
            i <= points@.len(),
            peak == seq_max(points@.subrange(0, i as int)),
        decreases points@.len() - i,
    {
        let v = match points.get(i) {
            Some(x) => *x,
            None => 0,
        };
        assert(points@.subrange(0, i + 1).drop_last() =~= points@.subrange(0, i as int));
        if v > peak {
            peak = v;
        }
        i = i + 1;
    }
    assert(points@.subrange(0, i as int) =~= points@);
    if peak >= 1 {
        peak
    } else {
        1
    }
}

} // verus!
