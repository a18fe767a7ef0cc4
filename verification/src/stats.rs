//! Statistics engine: percentile and average computation over a latency
//! series, in nanoseconds.

use vstd::prelude::*;
use vstd::arithmetic::div_mod::{
    lemma_div_is_ordered, lemma_div_multiples_vanish, lemma_div_pos_is_pos,
    lemma_fundamental_div_mod, lemma_mod_bound, lemma_multiply_divide_lt,
};
use vstd::arithmetic::mul::{
    lemma_mul_inequality, lemma_mul_is_distributive_add_other_way,
};

verus! {

/// Summary of a latency series: average and three percentile ranks.
#[derive(Clone, Copy, Debug, PartialEq, Eq, Structural)]
pub struct LatencyStats {
    pub avg: u64,
    pub p50: u64,
    pub p95: u64,
    pub p99: u64,
}

/// Ascending order.
pub open spec fn sorted(s: Seq<u64>) -> bool {
    forall|i: int, j: int| 0 <= i <= j < s.len() ==> s[i] <= s[j]
}

/// Sum of the entries of a series.
pub open spec fn sum_seq(s: Seq<u64>) -> int
    decreases s.len(),
{
    if s.len() == 0 {
        0
    } else {
        sum_seq(s.drop_last()) + s.last()
    }
}

/// The entry at rank `i`, clamped to a zero duration when the rank is out
/// of bounds (in particular, for an empty series).
pub open spec fn rank(s: Seq<u64>, i: int) -> u64 {
    if 0 <= i < s.len() {
        s[i]
    } else {
        0
    }
}

/// The average, as an unbounded integer; zero for an empty series.
pub open spec fn spec_avg(s: Seq<u64>) -> int {
    if s.len() == 0 {
        0
    } else {
        sum_seq(s) / s.len() as int
    }
}

/// What the statistics engine reports for a series: the entries at ranks
/// `L/2`, `L*95/100` and `L*99/100`, and the truncated average.
pub open spec fn spec_stats(s: Seq<u64>) -> LatencyStats {
    LatencyStats {
        avg: spec_avg(s) as u64,
        p50: rank(s, s.len() as int / 2),
        p95: rank(s, s.len() as int * 95 / 100),
        p99: rank(s, s.len() as int * 99 / 100),
    }
}

/// A sum of `u64` entries is bounded by the length times the largest value.
proof fn lemma_sum_seq_le_max(s: Seq<u64>)
    ensures
        0 <= sum_seq(s) <= s.len() * (u64::MAX as int),
    decreases s.len(),
{
    if s.len() > 0 {
        lemma_sum_seq_le_max(s.drop_last());
        lemma_mul_is_distributive_add_other_way(u64::MAX as int, s.len() - 1, 1);
    }
}

/// A series whose entries all lie in `[lo, hi]` has its sum in
/// `[len * lo, len * hi]`.
proof fn lemma_sum_seq_bounds(s: Seq<u64>, lo: u64, hi: u64)
    requires
        forall|i: int| 0 <= i < s.len() ==> lo <= #[trigger] s[i] && s[i] <= hi,
    ensures
        s.len() * (lo as int) <= sum_seq(s) <= s.len() * (hi as int),
    decreases s.len(),
{
    if s.len() > 0 {
        lemma_sum_seq_bounds(s.drop_last(), lo, hi);
        lemma_mul_is_distributive_add_other_way(lo as int, s.len() - 1, 1);
        lemma_mul_is_distributive_add_other_way(hi as int, s.len() - 1, 1);
        assert(s.last() == s[s.len() - 1]);
    }
}

/// The average of `u64` entries fits in a `u64`.
proof fn lemma_avg_in_range(s: Seq<u64>)
    ensures
        0 <= spec_avg(s) <= u64::MAX as int,
{
    if s.len() > 0 {
        let l = s.len() as int;
        lemma_sum_seq_le_max(s);
        lemma_div_is_ordered(0, sum_seq(s), l);
        lemma_div_is_ordered(sum_seq(s), l * (u64::MAX as int), l);
        lemma_div_multiples_vanish(u64::MAX as int, l);
    }
}

/// The entry at rank `i`, or a zero duration when `i` is out of bounds.
fn rank_at(series: &Vec<u64>, i: usize) -> (r: u64)
    ensures
        r == rank(series@, i as int),
{
    if i < series.len() {
        series[i]
    } else {
        0
    }
}

/// Percentile/average summary of a latency series. The percentile ranks
/// read the series as given; callers sort it first (`sort_latencies`)
/// when ranks are to mean percentiles.
pub fn compute_stats(series: &Vec<u64>) -> (r: LatencyStats)
    ensures
        r == spec_stats(series@),
{
    let len = series.len();
    proof {
        assert((len as int) * 95 <= (usize::MAX as int) * 95) by {
            lemma_mul_inequality(len as int, usize::MAX as int, 95);
        }
    }
    let i95 = ((len as u128) * 95 / 100) as usize;
    let i99 = ((len as u128) * 99 / 100) as usize;
    proof {
        if len > 0 {
            lemma_div_is_ordered((len as int) * 95, (len as int) * 100, 100);
            lemma_div_is_ordered((len as int) * 99, (len as int) * 100, 100);
            lemma_div_multiples_vanish(len as int, 100);
        }
    }
    let p50 = rank_at(series, len / 2);
    let p95 = rank_at(series, i95);
    let p99 = rank_at(series, i99);

    let mut sum: u128 = 0;
    let mut idx: usize = 0;
    while idx < len
        invariant
            len == series@.len(),
            idx <= len,
            sum as int == sum_seq(series@.take(idx as int)),
            sum as int <= (idx as int) * (u64::MAX as int),
        decreases len - idx,
    {
        proof {
            let pref = series@.take(idx as int + 1);
            assert(pref.drop_last() =~= series@.take(idx as int));
            assert(pref.last() == series@[idx as int]);
            assert((idx as int + 1) * (u64::MAX as int) <= 0x10000000000000000 * (
            u64::MAX as int)) by {
                lemma_mul_inequality(idx as int + 1, 0x10000000000000000, u64::MAX as int);
            }
            assert(0x10000000000000000 * (u64::MAX as int) < u128::MAX as int) by (nonlinear_arith);
            lemma_mul_is_distributive_add_other_way(u64::MAX as int, idx as int, 1);
        }
        sum = sum + series[idx] as u128;
        idx = idx + 1;
    }
    assert(series@.take(len as int) =~= series@);

    let avg: u64 = if len > 0 {
        proof {
            lemma_avg_in_range(series@);
            lemma_sum_seq_le_max(series@);
            lemma_div_is_ordered(sum as int, (len as int) * (u64::MAX as int), len as int);
            lemma_div_multiples_vanish(u64::MAX as int, len as int);
        }
        (sum / (len as u128)) as u64
    } else {
        0
    };

    LatencyStats { avg, p50, p95, p99 }
}

/// Relies on `<[u64]>::sort_unstable`: sorts the slice in place, so the
/// new contents are an ascending permutation of the old.
#[verifier::external_body]
pub fn sort_latencies(v: &mut Vec<u64>)
    ensures
        sorted(final(v)@),
        final(v)@.to_multiset() == old(v)@.to_multiset(),
        final(v)@.len() == old(v)@.len(),
{
    v.sort_unstable();
}

/// Over a sorted, non-empty series the percentile ranks are ordered,
/// `p50 <= p95 <= p99`, and the average lies between the smallest and the
/// largest entry.
pub proof fn lemma_stats_ordered(s: Seq<u64>)
    requires
        s.len() > 0,
        sorted(s),
    ensures
        spec_stats(s).p50 <= spec_stats(s).p95,
        spec_stats(s).p95 <= spec_stats(s).p99,
        s[0] <= spec_stats(s).avg,
        spec_stats(s).avg <= s[s.len() - 1],
{
    let l = s.len() as int;
    let i50 = l / 2;
    let i95 = l * 95 / 100;
    let i99 = l * 99 / 100;

    lemma_fundamental_div_mod(l, 2);
    lemma_mod_bound(l, 2);
    assert(2 * i50 <= l);
    assert((2 * i50) * 50 <= l * 50) by {
        lemma_mul_inequality(2 * i50, l, 50);
    }
    assert((100 * i50) / 100 == i50) by {
        lemma_div_multiples_vanish(i50, 100);
    }
    lemma_div_is_ordered(100 * i50, l * 95, 100);
    assert(i50 <= i95);

    lemma_div_is_ordered(l * 95, l * 99, 100);
    assert(i95 <= i99);

    lemma_multiply_divide_lt(l * 99, 100, l);
    assert(i99 < l);

    lemma_div_pos_is_pos(l * 95, 100);
    lemma_div_pos_is_pos(l * 99, 100);

    assert(s[i50] <= s[i95]);
    assert(s[i95] <= s[i99]);

    let lo = s[0];
    let hi = s[l - 1];
    assert(forall|i: int| 0 <= i < s.len() ==> lo <= #[trigger] s[i] && s[i] <= hi);
    lemma_sum_seq_bounds(s, lo, hi);
    lemma_avg_in_range(s);
    assert((l * (lo as int)) / l == lo as int) by {
        lemma_div_multiples_vanish(lo as int, l);
    }
    assert((l * (hi as int)) / l == hi as int) by {
        lemma_div_multiples_vanish(hi as int, l);
    }
    lemma_div_is_ordered(l * (lo as int), sum_seq(s), l);
    lemma_div_is_ordered(sum_seq(s), l * (hi as int), l);
}

/// The statistics are a pure function of the series: two computations
/// over the same series yield identical summaries.
pub proof fn lemma_stats_deterministic(s: Seq<u64>, a: LatencyStats, b: LatencyStats)
    requires
        a == spec_stats(s),
        b == spec_stats(s),
    ensures
        a == b,
{
}

} // verus!
