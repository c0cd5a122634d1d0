//! Signal conditioning on centigram samples: a rolling median prefilter and a
//! rolling moving average, both over windows that warm up sample by sample.

use vstd::prelude::*;
use vstd::relations::{sorted_by, total_ordering};
use vstd::seq_lib::{lemma_sorted_unique, to_multiset_build, to_multiset_insert};

use crate::fixed_point::avg2_round_nearest_i32;
use crate::util::{lemma_round_half_away_bounded, round_half_away};

verus! {

/// The natural order on `i32`.
pub open spec fn i32_le() -> spec_fn(i32, i32) -> bool {
    |a: i32, b: i32| a <= b
}

/// The samples of a window in ascending order.
pub open spec fn sorted_window(s: Seq<i32>) -> Seq<i32> {
    s.sort_by(i32_le())
}

/// Median of an ascending sequence: the middle element for an odd length,
/// the average of the two middle elements (rounded to nearest, ties away from
/// zero) for an even length.
pub open spec fn median_of_sorted(t: Seq<i32>) -> int {
    let mid = (t.len() / 2) as int;
    if t.len() % 2 == 0 {
        round_half_away(t[mid - 1] + t[mid], 2)
    } else {
        t[mid] as int
    }
}

/// Median of the samples of a window.
pub open spec fn spec_median(s: Seq<i32>) -> int {
    median_of_sorted(sorted_window(s))
}

/// Append a sample to a rolling window that holds at most `cap` samples,
/// evicting the oldest one when the window overflows.
pub open spec fn push_window<T>(buf: Seq<T>, x: T, cap: int) -> Seq<T> {
    let b = buf.push(x);
    if b.len() > cap {
        b.drop_first()
    } else {
        b
    }
}

/// Sum of the samples of a window.
pub open spec fn seq_sum(s: Seq<i32>) -> int
    decreases s.len(),
{
    if s.len() == 0 {
        0
    } else {
        seq_sum(s.drop_last()) + s.last()
    }
}

/// Mean of the samples of a window, rounded to nearest with ties away from zero.
pub open spec fn spec_mean(s: Seq<i32>) -> int {
    round_half_away(seq_sum(s), s.len() as int)
}

proof fn lemma_i32_le_total()
    ensures
        total_ordering(i32_le()),
{
}

/// A window's sum lies between `len * i32::MIN` and `len * i32::MAX`.
pub proof fn lemma_seq_sum_bounds(s: Seq<i32>)
    ensures
        s.len() * (i32::MIN as int) <= seq_sum(s) <= s.len() * (i32::MAX as int),
    decreases s.len(),
{
    if s.len() > 0 {
        lemma_seq_sum_bounds(s.drop_last());
        assert(s.len() * (i32::MIN as int) == (s.len() - 1) * (i32::MIN as int) + (i32::MIN as int))
            by (nonlinear_arith);
        assert(s.len() * (i32::MAX as int) == (s.len() - 1) * (i32::MAX as int) + (i32::MAX as int))
            by (nonlinear_arith);
    }
}

/// The rounded mean of a non-empty window of `i32` samples is again an `i32`.
pub proof fn lemma_mean_in_range(s: Seq<i32>)
    requires
        s.len() > 0,
    ensures
        i32::MIN <= spec_mean(s) <= i32::MAX,
{
    lemma_seq_sum_bounds(s);
    let n = s.len() as int;
    let t = seq_sum(s);
    let h = n / 2;
    if t >= 0 {
        assert((t + h) / n <= i32::MAX) by (nonlinear_arith)
            requires
                n > 0,
                0 <= t <= n * (i32::MAX as int),
                0 <= h < n,
        {
            assert(t + h < n * (i32::MAX as int) + n);
            assert(n * (i32::MAX as int) + n == n * ((i32::MAX as int) + 1));
        }
    } else {
        assert((-t + h) / n <= 0x8000_0000) by (nonlinear_arith)
            requires
                n > 0,
                0 < -t <= n * 0x8000_0000,
                0 <= h < n,
        {
            assert(-t + h < n * 0x8000_0000 + n);
            assert(n * 0x8000_0000 + n == n * 0x8000_0001);
        }
    }
}

/// The samples of `v` in ascending order (a stable insertion sort).
pub fn sorted_copy(v: &Vec<i32>) -> (r: Vec<i32>)
    ensures
        r@ == sorted_window(v@),
{
    let mut r: Vec<i32> = Vec::new();
    let n = v.len();
    let mut i: usize = 0;
    proof {
        assert(r@ =~= v@.take(0));
    }
    while i < n
        invariant
            n == v.len(),
            i <= n,
            sorted_by(r@, i32_le()),
            r@.to_multiset() == v@.take(i as int).to_multiset(),
        decreases n - i,
    {
        let x = v[i];
        let mut p: usize = 0;
        let rl = r.len();
        while p < rl && r[p] <= x
            invariant
                rl == r.len(),
                p <= rl,
                forall|k: int| 0 <= k < p ==> r@[k] <= x,
            decreases rl - p,
        {
            p = p + 1;
        }
        let ghost old_r = r@;
        r.insert(p, x);
        proof {
            assert(r@ == old_r.insert(p as int, x));
            assert forall|a: int, b: int| 0 <= a < b < r@.len() implies #[trigger] (i32_le())(
                r@[a],
                r@[b],
            ) by {
                assert(sorted_by(old_r, i32_le()));
                if b < p {
                    assert((i32_le())(old_r[a], old_r[b]));
                } else if b == p {
                    assert(old_r[a] <= x);
                } else if a < p {
                    assert(old_r[a] <= x);
                    assert(x < old_r[p as int] || p == old_r.len());
                    assert((i32_le())(old_r[a], old_r[b - 1]));
                } else if a == p {
                    assert(x < old_r[p as int]);
                    if b - 1 > p {
                        assert((i32_le())(old_r[p as int], old_r[b - 1]));
                    }
                } else {
                    assert((i32_le())(old_r[a - 1], old_r[b - 1]));
                }
            }
            to_multiset_insert(old_r, p as int, x);
            assert(v@.take(i + 1) == v@.take(i as int).push(x));
            to_multiset_build(v@.take(i as int), x);
        }
        i = i + 1;
    }
    proof {
        assert(v@.take(n as int) == v@);
        lemma_i32_le_total();
        v@.lemma_sort_by_ensures(i32_le());
        lemma_sorted_unique(r@, sorted_window(v@), i32_le());
    }
    r
}

/// Median of a non-empty window.
pub fn median_i32(v: &Vec<i32>) -> (m: i32)
    requires
        v.len() > 0,
    ensures
        m == spec_median(v@),
{
    let t = sorted_copy(v);
    proof {
        lemma_i32_le_total();
        v@.lemma_sort_by_ensures(i32_le());
        assert(t@.len() == v@.len()) by {
            vstd::seq_lib::to_multiset_len(t@);
            vstd::seq_lib::to_multiset_len(v@);
        }
    }
    let n = t.len();
    let mid = n / 2;
    if n % 2 == 0 {
        avg2_round_nearest_i32(t[mid - 1], t[mid])
    } else {
        t[mid]
    }
}

/// Sum of a window, formed in 128 bits.
fn sum_i128(v: &Vec<i32>) -> (s: i128)
    ensures
        s == seq_sum(v@),
{
    let n = v.len();
    let mut s: i128 = 0;
    let mut i: usize = 0;
    while i < n
        invariant
            n == v.len(),
            i <= n,
            s == seq_sum(v@.take(i as int)),
        decreases n - i,
    {
        proof {
            assert(v@.take(i + 1).drop_last() == v@.take(i as int));
            lemma_seq_sum_bounds(v@.take(i + 1));
            assert((i + 1) * (i32::MAX as int) <= 0x1_0000_0000_0000_0000 * 0x8000_0000) by (nonlinear_arith)
                requires
                    i + 1 <= 0x1_0000_0000_0000_0000,
            ;
            assert((i + 1) * (i32::MIN as int) >= -(0x1_0000_0000_0000_0000 * 0x8000_0000)) by (nonlinear_arith)
                requires
                    i + 1 <= 0x1_0000_0000_0000_0000,
            ;
        }
        s = s + (v[i] as i128);
        i = i + 1;
    }
    proof {
        assert(v@.take(n as int) == v@);
    }
    s
}

/// Mean of a non-empty window, rounded to nearest with ties away from zero.
pub fn mean_i32(v: &Vec<i32>) -> (m: i32)
    requires
        v.len() > 0,
    ensures
        m == spec_mean(v@),
{
    let s = sum_i128(v);
    let n = v.len() as i128;
    proof {
        lemma_mean_in_range(v@);
        lemma_round_half_away_bounded(s as int, n as int);
        lemma_seq_sum_bounds(v@);
        assert(v@.len() * (i32::MAX as int) <= 0x1_0000_0000_0000_0000 * 0x8000_0000) by (nonlinear_arith)
            requires
                v@.len() <= 0x1_0000_0000_0000_0000,
        ;
        assert(v@.len() * (i32::MIN as int) >= -(0x1_0000_0000_0000_0000 * 0x8000_0000)) by (nonlinear_arith)
            requires
                v@.len() <= 0x1_0000_0000_0000_0000,
        ;
    }
    let q = if s >= 0 {
        (s + n / 2) / n
    } else {
        -((-s + n / 2) / n)
    };
    q as i32
}

/// Append `x` to a rolling window of at most `cap` entries.
pub fn push_window_vec<T>(buf: &mut Vec<T>, x: T, cap: usize)
    ensures
        final(buf)@ == push_window(old(buf)@, x, cap as int),
{
    buf.push(x);
    if buf.len() > cap {
        buf.remove(0);
        proof {
            assert(final(buf)@ =~= push_window(old(buf)@, x, cap as int));
        }
    }
}

} // verus!
