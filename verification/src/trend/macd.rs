//! Moving Average Convergence Divergence.
//!
//! Output columns: `"MACD_line"`, `"MACD_signal"`, `"MACD_histogram"`.

use std::collections::HashMap;

use vstd::prelude::*;

use crate::error::IndicatorError;
use crate::indicator::PriceColumn;
use crate::registry::{invalid_param_error, param_usize, usize_param_ok, usize_param_value};

verus! {

/// Parameters of the MACD indicator.
#[derive(Debug, Clone)]
pub struct MacdParams {
    /// Fast EMA period. Default: 12.
    pub fast_period: usize,
    /// Slow EMA period. Default: 26.
    pub slow_period: usize,
    /// Signal-line period. Default: 9.
    pub signal_period: usize,
    /// Price field. Default: close.
    pub column: PriceColumn,
}

impl Default for MacdParams {
    fn default() -> (r: Self)
        ensures
            r.fast_period == 12,
            r.slow_period == 26,
            r.signal_period == 9,
            r.column == PriceColumn::Close,
    {
        MacdParams { fast_period: 12, slow_period: 26, signal_period: 9, column: PriceColumn::Close }
    }
}

/// The MACD indicator.
#[derive(Debug, Clone)]
pub struct Macd {
    pub params: MacdParams,
}

impl Default for Macd {
    fn default() -> (r: Self)
        ensures
            r.params.fast_period == 12,
            r.params.slow_period == 26,
            r.params.signal_period == 9,
            r.params.column == PriceColumn::Close,
    {
        Macd::new(MacdParams::default())
    }
}

impl Macd {
    pub fn new(params: MacdParams) -> (r: Self)
        ensures
            r.params == params,
    {
        Macd { params }
    }

    /// Short canonical name.
    pub fn name(&self) -> (r: &'static str)
        ensures
            r@ == "MACD"@,
    {
        "MACD"
    }

    /// Bars needed: the slow EMA's warm-up plus the signal line's.
    pub fn required_len(&self) -> (r: usize)
        requires
            self.params.slow_period + self.params.signal_period <= usize::MAX,
        ensures
            r == self.params.slow_period + self.params.signal_period,
    {
        self.params.slow_period + self.params.signal_period
    }

    /// Reads the parameters the registry factory accepts: `fast_period`
    /// (default 12), `slow_period` (26) and `signal_period` (9), in that
    /// order; the first malformed one is reported.
    pub fn from_params(params: &HashMap<String, String>) -> (r: Result<Self, IndicatorError>)
        ensures
            r is Ok <==> (usize_param_ok(*params, "fast_period"@) && usize_param_ok(
                *params,
                "slow_period"@,
            ) && usize_param_ok(*params, "signal_period"@)),
            r matches Ok(x) ==> x.params.fast_period == usize_param_value(
                *params,
                "fast_period"@,
                12,
            ) && x.params.slow_period == usize_param_value(*params, "slow_period"@, 26)
                && x.params.signal_period == usize_param_value(*params, "signal_period"@, 9)
                && x.params.column == PriceColumn::Close,
            r matches Err(e) ==> if !usize_param_ok(*params, "fast_period"@) {
                invalid_param_error(*params, "fast_period"@, e)
            } else if !usize_param_ok(*params, "slow_period"@) {
                invalid_param_error(*params, "slow_period"@, e)
            } else {
                invalid_param_error(*params, "signal_period"@, e)
            },
    {
        let fast_period = match param_usize(params, "fast_period", 12) {
            Ok(v) => v,
            Err(e) => return Err(e),
        };
        let slow_period = match param_usize(params, "slow_period", 26) {
            Ok(v) => v,
            Err(e) => return Err(e),
        };
        let signal_period = match param_usize(params, "signal_period", 9) {
            Ok(v) => v,
            Err(e) => return Err(e),
        };
        Ok(Self::new(MacdParams { fast_period, slow_period, signal_period, column: PriceColumn::Close }))
    }
}

} // verus!
