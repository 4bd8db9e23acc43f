//! Construction-time errors shared by all indicators.
use vstd::prelude::*;

use crate::kind::IndicatorKind;

verus! {

/// Why an indicator could not be constructed.
#[derive(Clone, Copy, Debug, PartialEq, Eq, Structural)]
pub enum IndicatorError {
    /// The period is zero.
    ZeroPeriod,
    /// An input series is shorter than the indicator's minimum.
    InsufficientData,
    /// Parallel input series differ in length.
    LengthMismatch,
}

impl IndicatorError {
    /// The message an indicator of `kind` reports for this error.
    pub open spec fn text(self, kind: IndicatorKind) -> Seq<char> {
        match (self, kind) {
            (IndicatorError::ZeroPeriod, IndicatorKind::Sma) => "Period must be greater than zero."@,
            (IndicatorError::ZeroPeriod, IndicatorKind::Atr) => "Period must be greater than zero."@,
            (IndicatorError::ZeroPeriod, IndicatorKind::Ema) => "Period must be greater than 0"@,
            (IndicatorError::ZeroPeriod, IndicatorKind::Dema) => "Period must be greater than 0"@,
            (IndicatorError::ZeroPeriod, IndicatorKind::Tema) => "Period must be greater than 0"@,
            (IndicatorError::ZeroPeriod, IndicatorKind::Wma) => "Period must be greater than 0."@,
            (IndicatorError::ZeroPeriod, IndicatorKind::Kama) => "Period must be greater than 0."@,
            (IndicatorError::ZeroPeriod, _) => "Period must be set to a number greater than 0"@,
            (IndicatorError::InsufficientData, IndicatorKind::Sma) => "Insufficient data for SMA calculation."@,
            (IndicatorError::InsufficientData, IndicatorKind::Atr) => "Insufficient data for ATR calculation."@,
            (IndicatorError::InsufficientData, IndicatorKind::StdDev) => "Insufficient data for the given period"@,
            (IndicatorError::InsufficientData, IndicatorKind::Ema) => "Period cannot be greater than input data length"@,
            (IndicatorError::InsufficientData, IndicatorKind::Dema) => "Input data is too short for DEMA: need at least 2 * period - 1 values"@,
            (IndicatorError::InsufficientData, IndicatorKind::Tema) => "Input data is too short for TEMA: need at least 3 * period - 2 values"@,
            (IndicatorError::InsufficientData, IndicatorKind::Kama) => "Data length must be greater than 1 and at least the period."@,
            (IndicatorError::InsufficientData, _) => "Period cannot be greater than input data length."@,
            (IndicatorError::LengthMismatch, IndicatorKind::Vwma) => "Data and volume must have the same length."@,
            (IndicatorError::LengthMismatch, _) => "All inputs must have the same length."@,
        }
    }

    /// The message an indicator of `kind` reports for this error.
    pub fn message(self, kind: IndicatorKind) -> (r: String)
        ensures
            r@ == self.text(kind),
    {
        let s: &str = match (self, kind) {
            (IndicatorError::ZeroPeriod, IndicatorKind::Sma) => "Period must be greater than zero.",
            (IndicatorError::ZeroPeriod, IndicatorKind::Atr) => "Period must be greater than zero.",
            (IndicatorError::ZeroPeriod, IndicatorKind::Ema) => "Period must be greater than 0",
            (IndicatorError::ZeroPeriod, IndicatorKind::Dema) => "Period must be greater than 0",
            (IndicatorError::ZeroPeriod, IndicatorKind::Tema) => "Period must be greater than 0",
            (IndicatorError::ZeroPeriod, IndicatorKind::Wma) => "Period must be greater than 0.",
            (IndicatorError::ZeroPeriod, IndicatorKind::Kama) => "Period must be greater than 0.",
            (IndicatorError::ZeroPeriod, _) => "Period must be set to a number greater than 0",
            (IndicatorError::InsufficientData, IndicatorKind::Sma) => "Insufficient data for SMA calculation.",
            (IndicatorError::InsufficientData, IndicatorKind::Atr) => "Insufficient data for ATR calculation.",
            (IndicatorError::InsufficientData, IndicatorKind::StdDev) => "Insufficient data for the given period",
            (IndicatorError::InsufficientData, IndicatorKind::Ema) => "Period cannot be greater than input data length",
            (IndicatorError::InsufficientData, IndicatorKind::Dema) => "Input data is too short for DEMA: need at least 2 * period - 1 values",
            (IndicatorError::InsufficientData, IndicatorKind::Tema) => "Input data is too short for TEMA: need at least 3 * period - 2 values",
            (IndicatorError::InsufficientData, IndicatorKind::Kama) => "Data length must be greater than 1 and at least the period.",
            (IndicatorError::InsufficientData, _) => "Period cannot be greater than input data length.",
            (IndicatorError::LengthMismatch, IndicatorKind::Vwma) => "Data and volume must have the same length.",
            (IndicatorError::LengthMismatch, _) => "All inputs must have the same length.",
        };
        s.to_owned()
    }
}

} // verus!
