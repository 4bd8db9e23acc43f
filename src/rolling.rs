//! The rolling updates of the windowed indicators, in exact arithmetic.
//!
//! A windowed indicator seeds its state with the first window and then, at
//! each further output position, takes in the step's `newest` sample and lets
//! go of its `dropped` one. Over integers this streamed state equals the
//! aggregate recomputed from scratch over the step's window; the laws below
//! prove it for a plain sum (which also covers sums of squares and of
//! price-volume products, by choice of the sequence) and for the linearly
//! weighted sum, whose update subtracts the previous plain sum.
use vstd::prelude::*;

use crate::window::Step;

verus! {

/// `s[lo] + ... + s[hi - 1]`.
pub open spec fn range_sum(s: Seq<int>, lo: int, hi: int) -> int
    decreases hi - lo,
{
    if lo >= hi {
        0
    } else {
        range_sum(s, lo, hi - 1) + s[hi - 1]
    }
}

/// `1 * s[lo] + 2 * s[lo + 1] + ... + (hi - lo) * s[hi - 1]`: the newest
/// sample weighs most.
pub open spec fn range_weighted_sum(s: Seq<int>, lo: int, hi: int) -> int
    decreases hi - lo,
{
    if lo >= hi {
        0
    } else {
        range_weighted_sum(s, lo, hi - 1) + (hi - lo) * s[hi - 1]
    }
}

/// The steps hand out the output positions `0, 1, ...` of an indicator whose
/// first output stands at sample `offset`, with windows of `period` samples,
/// over a series of `len` samples.
pub open spec fn schedule(steps: Seq<Step>, offset: nat, period: nat, len: nat) -> bool {
    &&& period > 0
    &&& offset + 1 >= period
    &&& forall|i: int|
        0 <= i < steps.len() ==> (#[trigger] steps[i]).is_at(i as nat, offset, period)
    &&& offset + steps.len() <= len
}

/// The rolling sum after step `k`: the first window summed directly, then
/// plus the newest and minus the dropped sample of every later step.
pub open spec fn streamed_sum(s: Seq<int>, steps: Seq<Step>, k: int) -> int
    decreases k,
{
    if k <= 0 {
        range_sum(s, steps[0].oldest as int, steps[0].newest + 1)
    } else {
        streamed_sum(s, steps, k - 1) + s[steps[k].newest as int] - s[steps[k].dropped->0 as int]
    }
}

/// The rolling weighted sum and plain sum after step `k`. The weighted sum
/// takes in the newest sample at the full weight `period` and gives up the
/// previous plain sum, which lowers every older weight by one and drops the
/// oldest sample; then the plain sum rolls as in [`streamed_sum`].
pub open spec fn streamed_weighted(s: Seq<int>, steps: Seq<Step>, period: nat, k: int) -> (
    int,
    int,
)
    decreases k,
{
    if k <= 0 {
        (
            range_weighted_sum(s, steps[0].oldest as int, steps[0].newest + 1),
            range_sum(s, steps[0].oldest as int, steps[0].newest + 1),
        )
    } else {
        let (weighted, plain) = streamed_weighted(s, steps, period, k - 1);
        let incoming = s[steps[k].newest as int];
        (weighted + period * incoming - plain, plain + incoming - s[steps[k].dropped->0 as int])
    }
}

proof fn lemma_range_sum_front(s: Seq<int>, lo: int, hi: int)
    requires
        0 <= lo < hi <= s.len(),
    ensures
        range_sum(s, lo, hi) == s[lo] + range_sum(s, lo + 1, hi),
    decreases hi - lo,
{
    assert(range_sum(s, lo, hi) == range_sum(s, lo, hi - 1) + s[hi - 1]);
    if lo + 1 < hi {
        lemma_range_sum_front(s, lo, hi - 1);
        assert(range_sum(s, lo + 1, hi) == range_sum(s, lo + 1, hi - 1) + s[hi - 1]);
    } else {
        assert(range_sum(s, lo, lo) == 0);
        assert(range_sum(s, lo + 1, hi) == 0);
    }
}

proof fn lemma_range_weighted_sum_shift(s: Seq<int>, lo: int, hi: int)
    requires
        0 <= lo <= hi < s.len(),
    ensures
        range_weighted_sum(s, lo + 1, hi + 1) == range_weighted_sum(s, lo, hi) - range_sum(s, lo, hi)
            + (hi - lo) * s[hi],
    decreases hi - lo,
{
    if lo < hi {
        lemma_range_weighted_sum_shift(s, lo, hi - 1);
        let a = s[hi - 1];
        assert((hi - 1 - lo) * a + a == (hi - lo) * a) by (nonlinear_arith);
        assert(range_weighted_sum(s, lo + 1, hi + 1) == range_weighted_sum(s, lo + 1, hi) + (hi - lo)
            * s[hi]);
        assert(range_weighted_sum(s, lo, hi) == range_weighted_sum(s, lo, hi - 1) + (hi - lo) * a);
        assert(range_sum(s, lo, hi) == range_sum(s, lo, hi - 1) + a);
    } else {
        let a = s[hi];
        assert((hi - lo) * a == 0) by (nonlinear_arith)
            requires
                hi == lo,
        ;
        assert(range_weighted_sum(s, lo + 1, hi + 1) == 0);
        assert(range_weighted_sum(s, lo, hi) == 0);
        assert(range_sum(s, lo, hi) == 0);
    }
}

/// Rolling-update equivalence for sums: at every step of a schedule, the
/// streamed sum equals the sum of that step's window recomputed directly.
pub proof fn lemma_streamed_sum_is_window_sum(
    s: Seq<int>,
    steps: Seq<Step>,
    offset: nat,
    period: nat,
    k: int,
)
    requires
        schedule(steps, offset, period, s.len()),
        0 <= k < steps.len(),
    ensures
        streamed_sum(s, steps, k) == range_sum(s, steps[k].oldest as int, steps[k].newest + 1),
    decreases k,
{
    assert(steps[k].is_at(k as nat, offset, period));
    if k > 0 {
        assert(steps[k - 1].is_at((k - 1) as nat, offset, period));
        lemma_streamed_sum_is_window_sum(s, steps, offset, period, k - 1);
        let lo = steps[k - 1].oldest as int;
        lemma_range_sum_front(s, lo, steps[k].newest as int + 1);
    }
}

/// Rolling-update equivalence for the linearly weighted sum: at every step of
/// a schedule, the streamed weighted sum equals the weighted sum of that
/// step's window recomputed directly, and the plain sum rolled beside it
/// equals that window's sum.
pub proof fn lemma_streamed_weighted_is_window_weighted(
    s: Seq<int>,
    steps: Seq<Step>,
    offset: nat,
    period: nat,
    k: int,
)
    requires
        schedule(steps, offset, period, s.len()),
        0 <= k < steps.len(),
    ensures
        streamed_weighted(s, steps, period, k) == (
            range_weighted_sum(s, steps[k].oldest as int, steps[k].newest + 1),
            range_sum(s, steps[k].oldest as int, steps[k].newest + 1),
        ),
    decreases k,
{
    assert(steps[k].is_at(k as nat, offset, period));
    if k > 0 {
        assert(steps[k - 1].is_at((k - 1) as nat, offset, period));
        lemma_streamed_weighted_is_window_weighted(s, steps, offset, period, k - 1);
        let lo = steps[k - 1].oldest as int;
        let hi = steps[k].newest as int;
        lemma_range_sum_front(s, lo, hi + 1);
        lemma_range_weighted_sum_shift(s, lo, hi);
    }
}

} // verus!
