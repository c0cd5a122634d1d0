//! The scale self-check: classify the HX711 output rate from the gaps
//! between successive readings.

use vstd::prelude::*;
use vstd::relations::{sorted_by, total_ordering};
use vstd::seq_lib::{lemma_sorted_unique, to_multiset_build, to_multiset_insert};

verus! {

/// The natural order on `u64`.
pub open spec fn u64_le() -> spec_fn(u64, u64) -> bool {
    |a: u64, b: u64| a <= b
}

/// The median gap: the element at index `len / 2` of the ascending gaps, or
/// 0 when there are none.
pub open spec fn spec_median_gap(gaps: Seq<u64>) -> u64 {
    if gaps.len() == 0 {
        0
    } else {
        gaps.sort_by(u64_le())[(gaps.len() / 2) as int]
    }
}

/// The HX711 runs at 80 samples per second when the median gap is below
/// 50 ms, else at 10.
pub open spec fn spec_hx711_rate(gaps: Seq<u64>) -> u32 {
    if spec_median_gap(gaps) < 50_000 {
        80
    } else {
        10
    }
}

fn sorted_gaps(v: &Vec<u64>) -> (r: Vec<u64>)
    ensures
        r@ == v@.sort_by(u64_le()),
{
    let mut r: Vec<u64> = Vec::new();
    let n = v.len();
    let mut i: usize = 0;
    proof {
        assert(r@ =~= v@.take(0));
    }
    while i < n
        invariant
            n == v.len(),
            i <= n,
            sorted_by(r@, u64_le()),
            r@.to_multiset() == v@.take(i as int).to_multiset(),
        decreases n - i,
    {
        let x = v[i];
        let mut p: usize = 0;
        let rl = r.len();
        while p < rl && r[p] <= x
            invariant
                rl == r.len(),
                p <= rl,
                forall|k: int| 0 <= k < p ==> r@[k] <= x,
            decreases rl - p,
        {
            p = p + 1;
        }
        let ghost old_r = r@;
        r.insert(p, x);
        proof {
            assert forall|a: int, b: int| 0 <= a < b < r@.len() implies #[trigger] (u64_le())(
                r@[a],
                r@[b],
            ) by {
                if b < p {
                    assert((u64_le())(old_r[a], old_r[b]));
                } else if b == p {
                    assert(old_r[a] <= x);
                } else if a < p {
                    assert(old_r[a] <= x);
                    assert((u64_le())(old_r[a], old_r[b - 1]));
                } else if a == p {
                    assert(x < old_r[p as int]);
                    if b - 1 > p {
                        assert((u64_le())(old_r[p as int], old_r[b - 1]));
                    }
                } else {
                    assert((u64_le())(old_r[a - 1], old_r[b - 1]));
                }
            }
            to_multiset_insert(old_r, p as int, x);
            assert(v@.take(i + 1) == v@.take(i as int).push(x));
            to_multiset_build(v@.take(i as int), x);
        }
        i = i + 1;
    }
    proof {
        assert(v@.take(n as int) == v@);
        assert(total_ordering(u64_le()));
        v@.lemma_sort_by_ensures(u64_le());
        lemma_sorted_unique(r@, v@.sort_by(u64_le()), u64_le());
    }
    r
}

/// The median gap between readings (microseconds) and the classified HX711
/// rate in samples per second.
pub fn classify_hx711_rate(gaps_us: &Vec<u64>) -> (r: (u64, u32))
    ensures
        r.0 == spec_median_gap(gaps_us@),
        r.1 == spec_hx711_rate(gaps_us@),
{
    let t = sorted_gaps(gaps_us);
    proof {
        assert(total_ordering(u64_le()));
        gaps_us@.lemma_sort_by_ensures(u64_le());
        vstd::seq_lib::to_multiset_len(t@);
        vstd::seq_lib::to_multiset_len(gaps_us@);
    }
    let median = if t.len() == 0 {
        0
    } else {
        t[t.len() / 2]
    };
    let sps = if median < 50_000 {
        80
    } else {
        10
    };
    (median, sps)
}

} // verus!
