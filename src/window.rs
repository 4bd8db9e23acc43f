//! Validation of an indicator's inputs, and the cursor that walks its output
//! positions.
//!
//! For output position `k` the newest sample consumed is `k + offset`, where
//! the offset depends on the indicator (see [`IndicatorKind::offset_spec`]).
//! A windowed recurrence over `period` samples sees the window
//! `oldest ..= newest`; moving from one position to the next it takes in
//! `newest` and lets go of `dropped`, the sample just before the window.
use vstd::prelude::*;

use crate::error::IndicatorError;
use crate::kind::IndicatorKind;
use crate::rolling::schedule;

verus! {

/// The sample indices that one output position consumes.
#[derive(Clone, Copy, Debug, PartialEq, Eq, Structural)]
pub struct Step {
    /// Output position, counted from zero.
    pub position: usize,
    /// Newest sample behind this output.
    pub newest: usize,
    /// First sample of the `period`-long window that ends at `newest`.
    pub oldest: usize,
    /// The sample before `newest`, if any.
    pub previous: Option<usize>,
    /// The sample before `oldest`, if any: the one that left the window.
    pub dropped: Option<usize>,
}

impl Step {
    /// This is the step for output `position` of an indicator whose first
    /// output stands at sample `offset`, with windows of `period` samples.
    pub open spec fn is_at(self, position: nat, offset: nat, period: nat) -> bool {
        let newest = position + offset;
        &&& self.position == position
        &&& self.newest == newest
        &&& self.oldest == newest + 1 - period
        &&& self.previous == if newest >= 1 {
            Some((newest - 1) as usize)
        } else {
            None
        }
        &&& self.dropped == if newest >= period {
            Some((newest - period) as usize)
        } else {
            None
        }
    }
}

/// What a caller knows of a [`Window`].
pub struct WindowView {
    pub kind: IndicatorKind,
    /// Length of the (parallel) input series.
    pub len: nat,
    pub period: nat,
    /// Output position that the next step produces.
    pub position: nat,
}

impl WindowView {
    pub open spec fn offset(self) -> nat {
        self.kind.offset_spec(self.period)
    }

    /// Number of outputs over the whole input.
    pub open spec fn output_len(self) -> nat {
        self.kind.output_len_spec(self.len, self.period)
    }

    pub open spec fn wf(self) -> bool {
        &&& self.period > 0
        &&& self.len >= self.kind.min_len_spec(self.period)
        &&& self.position <= self.output_len()
    }
}

/// The outcome of validating `period` and the lengths of the input series of
/// an indicator of `kind`, primary series first: `None` where they are
/// accepted. The primary series must reach the minimum length for `kind`;
/// every other series must be as long as the primary one.
pub open spec fn validation(kind: IndicatorKind, period: nat, lens: Seq<usize>) -> Option<
    IndicatorError,
> {
    if period == 0 {
        Some(IndicatorError::ZeroPeriod)
    } else if lens.len() == 0 || lens[0] < kind.min_len_spec(period) {
        Some(IndicatorError::InsufficientData)
    } else if exists|i: int| 0 <= i < lens.len() && #[trigger] lens[i] != lens[0] {
        Some(IndicatorError::LengthMismatch)
    } else {
        None
    }
}

/// Error boundaries: a zero period is reported as such; otherwise a primary
/// series shorter than the period is insufficient data, and parallel series
/// of differing lengths are a mismatch once the primary one is long enough.
/// An empty series is never accepted.
pub proof fn lemma_error_boundaries(kind: IndicatorKind, period: nat, lens: Seq<usize>)
    ensures
        period == 0 ==> validation(kind, period, lens) == Some(IndicatorError::ZeroPeriod),
        period > 0 && lens.len() > 0 && lens[0] < period ==> validation(kind, period, lens) == Some(
            IndicatorError::InsufficientData,
        ),
        period > 0 && lens.len() > 0 && lens[0] >= kind.min_len_spec(period) && (exists|i: int|
            0 <= i < lens.len() && #[trigger] lens[i] != lens[0]) ==> validation(kind, period, lens)
            == Some(IndicatorError::LengthMismatch),
        (exists|i: int| 0 <= i < lens.len() && #[trigger] lens[i] == 0) ==> validation(
            kind,
            period,
            lens,
        ) is Some,
{
    assert(kind.min_len_spec(period) >= period);
    assert(period > 0 ==> kind.min_len_spec(period) >= 1);
}

/// Validated input geometry of one indicator, with a cursor over its output
/// positions. The cursor only moves forward: to start again, validate anew.
#[derive(Clone, Copy, Debug)]
pub struct Window {
    kind: IndicatorKind,
    len: usize,
    period: usize,
    offset: usize,
    position: usize,
}

impl View for Window {
    type V = WindowView;

    closed spec fn view(&self) -> WindowView {
        WindowView {
            kind: self.kind,
            len: self.len as nat,
            period: self.period as nat,
            position: self.position as nat,
        }
    }
}

impl Window {
    #[verifier::type_invariant]
    spec fn inv(self) -> bool {
        &&& self@.wf()
        &&& self.offset == self.kind.offset_spec(self.period as nat)
    }

    /// Validates `period` and the lengths of the input series: one length for
    /// a single series; for parallel series all of them, the primary one
    /// (price, or high) first.
    ///
    /// The checks come in this order: a zero period; a missing primary series
    /// or one shorter than the minimum for `kind`; series of differing
    /// lengths.
    pub fn new(kind: IndicatorKind, period: usize, lens: &[usize]) -> (r: Result<
        Window,
        IndicatorError,
    >)
        ensures
            match r {
                Ok(w) => {
                    &&& validation(kind, period as nat, lens@) is None
                    &&& w@ == WindowView {
                        kind,
                        len: lens@[0] as nat,
                        period: period as nat,
                        position: 0,
                    }
                },
                Err(e) => validation(kind, period as nat, lens@) == Some(e),
            },
    {
        if period == 0 {
            return Err(IndicatorError::ZeroPeriod);
        }
        if lens.len() == 0 {
            return Err(IndicatorError::InsufficientData);
        }
        let min_len = match kind.min_len(period) {
            Some(m) => m,
            None => {
                assert(lens@[0] < kind.min_len_spec(period as nat));
                return Err(IndicatorError::InsufficientData);
            },
        };
        if lens[0] < min_len {
            return Err(IndicatorError::InsufficientData);
        }
        let len = lens[0];
        let mut i: usize = 1;
        while i < lens.len()
            invariant
                1 <= i <= lens.len(),
                period > 0,
                len == lens@[0],
                len >= kind.min_len_spec(period as nat),
                forall|j: int| 0 <= j < i ==> lens@[j] == len,
            decreases lens.len() - i,
        {
            if lens[i] != len {
                assert(lens@[i as int] != lens@[0]);
                return Err(IndicatorError::LengthMismatch);
            }
            i = i + 1;
        }
        let offset = kind.offset(period);
        Ok(Window { kind, len, period, offset, position: 0 })
    }

    pub fn kind(&self) -> (r: IndicatorKind)
        ensures
            r == self@.kind,
    {
        self.kind
    }

    /// Length of the input series.
    pub fn len(&self) -> (r: usize)
        ensures
            r == self@.len,
    {
        self.len
    }

    pub fn period(&self) -> (r: usize)
        ensures
            r == self@.period,
    {
        self.period
    }

    /// Index of the newest sample behind the first output.
    pub fn offset(&self) -> (r: usize)
        ensures
            r == self@.offset(),
    {
        proof {
            use_type_invariant(self);
        }
        self.offset
    }

    /// Number of outputs over the whole input.
    pub fn output_len(&self) -> (r: usize)
        ensures
            r == self@.output_len(),
    {
        proof {
            use_type_invariant(self);
        }
        self.len - self.offset
    }

    /// Number of outputs not produced yet.
    pub fn remaining(&self) -> (r: usize)
        ensures
            r == self@.output_len() - self@.position,
    {
        proof {
            use_type_invariant(self);
        }
        self.len - self.offset - self.position
    }

    /// The step for the next output position, or `None` once every position
    /// has been produced.
    pub fn advance(&mut self) -> (r: Option<Step>)
        ensures
            final(self)@.kind == old(self)@.kind,
            final(self)@.len == old(self)@.len,
            final(self)@.period == old(self)@.period,
            old(self)@.position < old(self)@.output_len() ==> {
                &&& r matches Some(s)
                &&& s.is_at(old(self)@.position, old(self)@.offset(), old(self)@.period)
                &&& s.newest < old(self)@.len
                &&& final(self)@.position == old(self)@.position + 1
            },
            old(self)@.position >= old(self)@.output_len() ==> {
                &&& r is None
                &&& final(self)@.position == old(self)@.position
            },
    {
        proof {
            use_type_invariant(&*self);
        }
        if self.position >= self.len - self.offset {
            return None;
        }
        let position = self.position;
        let newest = position + self.offset;
        let previous = if newest >= 1 {
            Some(newest - 1)
        } else {
            None
        };
        let dropped = if newest >= self.period {
            Some(newest - self.period)
        } else {
            None
        };
        let step = Step { position, newest, oldest: newest + 1 - self.period, previous, dropped };
        self.position = position + 1;
        Some(step)
    }

    /// Every step not produced yet, in order; afterwards the window is
    /// exhausted. From a fresh window this yields one step per output:
    /// the input length minus the lookback, plus one.
    pub fn drain(&mut self) -> (r: Vec<Step>)
        ensures
            final(self)@.kind == old(self)@.kind,
            final(self)@.len == old(self)@.len,
            final(self)@.period == old(self)@.period,
            final(self)@.position == old(self)@.output_len(),
            r@.len() + old(self)@.position == old(self)@.len - old(self)@.kind.lookback_spec(
                old(self)@.period,
            ) + 1,
            forall|i: int|
                0 <= i < r@.len() ==> (#[trigger] r@[i]).is_at(
                    (old(self)@.position + i) as nat,
                    old(self)@.offset(),
                    old(self)@.period,
                ),
            old(self)@.position == 0 ==> schedule(
                r@,
                old(self)@.offset(),
                old(self)@.period,
                old(self)@.len,
            ),
    {
        proof {
            use_type_invariant(&*self);
        }
        let ghost start = self@.position;
        let mut steps: Vec<Step> = Vec::with_capacity(self.remaining());
        loop
            invariant
                self@.kind == old(self)@.kind,
                self@.len == old(self)@.len,
                self@.period == old(self)@.period,
                start == old(self)@.position,
                start <= self@.position <= self@.output_len(),
                steps@.len() == self@.position - start,
                forall|i: int|
                    0 <= i < steps@.len() ==> (#[trigger] steps@[i]).is_at(
                        (start + i) as nat,
                        self@.offset(),
                        self@.period,
                    ),
            ensures
                self@.kind == old(self)@.kind,
                self@.len == old(self)@.len,
                self@.period == old(self)@.period,
                start == old(self)@.position,
                self@.position == self@.output_len(),
                steps@.len() == self@.position - start,
                forall|i: int|
                    0 <= i < steps@.len() ==> (#[trigger] steps@[i]).is_at(
                        (start + i) as nat,
                        self@.offset(),
                        self@.period,
                    ),
            decreases self@.output_len() - self@.position,
        {
            proof {
                use_type_invariant(&*self);
            }
            match self.advance() {
                Some(step) => steps.push(step),
                None => break,
            }
        }
        steps
    }
}

} // verus!
