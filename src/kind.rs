//! The indicator family, and for each member the position of its first output
//! and the shortest input it accepts.
use vstd::prelude::*;

verus! {

/// One member of the indicator family.
#[derive(Clone, Copy, Debug, PartialEq, Eq, Structural)]
pub enum IndicatorKind {
    Sma,
    Ema,
    Wma,
    Vwma,
    Dema,
    Tema,
    Kama,
    Atr,
    StdDev,
    BBands,
    Bbpb,
}

impl IndicatorKind {
    /// Index of the newest sample that the first output depends on; the
    /// effective lookback is one more.
    pub open spec fn offset_spec(self, period: nat) -> nat {
        match self {
            IndicatorKind::Dema => (2 * period - 2) as nat,
            IndicatorKind::Tema => (3 * period - 3) as nat,
            IndicatorKind::Kama | IndicatorKind::Atr => period,
            _ => (period - 1) as nat,
        }
    }

    /// Number of samples that the first output depends on.
    pub open spec fn lookback_spec(self, period: nat) -> nat {
        self.offset_spec(period) + 1
    }

    /// Shortest input length accepted for `period`.
    pub open spec fn min_len_spec(self, period: nat) -> nat {
        match self {
            IndicatorKind::Kama => if period >= 2 { period } else { 2 },
            _ => self.offset_spec(period) + 1,
        }
    }

    /// Number of outputs for an input of `len` samples that meets the minimum.
    pub open spec fn output_len_spec(self, len: nat, period: nat) -> nat {
        (len - self.offset_spec(period)) as nat
    }

    /// The shortest accepted input length, or `None` where it exceeds `usize`.
    pub fn min_len(self, period: usize) -> (r: Option<usize>)
        requires
            period > 0,
        ensures
            match r {
                Some(m) => m == self.min_len_spec(period as nat),
                None => self.min_len_spec(period as nat) > usize::MAX,
            },
    {
        match self {
            IndicatorKind::Dema => {
                if period - 1 > usize::MAX - period {
                    None
                } else {
                    Some(period + (period - 1))
                }
            },
            IndicatorKind::Tema => {
                if period - 1 > (usize::MAX - period) / 2 {
                    None
                } else {
                    Some(period + (period - 1) + (period - 1))
                }
            },
            IndicatorKind::Kama => {
                if period >= 2 {
                    Some(period)
                } else {
                    Some(2)
                }
            },
            IndicatorKind::Atr => {
                if period == usize::MAX {
                    None
                } else {
                    Some(period + 1)
                }
            },
            _ => Some(period),
        }
    }

    /// Index of the newest sample behind the first output.
    pub fn offset(self, period: usize) -> (r: usize)
        requires
            period > 0,
            self.min_len_spec(period as nat) <= usize::MAX,
        ensures
            r == self.offset_spec(period as nat),
    {
        match self {
            IndicatorKind::Dema => (period - 1) + (period - 1),
            IndicatorKind::Tema => (period - 1) + (period - 1) + (period - 1),
            IndicatorKind::Kama | IndicatorKind::Atr => period,
            _ => period - 1,
        }
    }
}

} // verus!
