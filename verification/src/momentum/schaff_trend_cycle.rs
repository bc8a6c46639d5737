//! Schaff Trend Cycle: a doubly smoothed stochastic of the MACD line.
//!
//! Output column: `"STC"`.

use std::collections::HashMap;

use vstd::prelude::*;

use crate::error::IndicatorError;
use crate::registry::{invalid_param_error, param_usize, usize_param_ok, usize_param_value};

verus! {

/// Parameters of the Schaff Trend Cycle.
#[derive(Debug, Clone)]
pub struct StcParams {
    /// Short EMA period. Default: 12.
    pub short_ema: usize,
    /// Long EMA period. Default: 26.
    pub long_ema: usize,
    /// Stochastic window. Default: 10.
    pub stoch_period: usize,
    /// Final smoothing period. Default: 3.
    pub signal_period: usize,
}

impl Default for StcParams {
    fn default() -> (r: Self)
        ensures
            r.short_ema == 12,
            r.long_ema == 26,
            r.stoch_period == 10,
            r.signal_period == 3,
    {
        StcParams { short_ema: 12, long_ema: 26, stoch_period: 10, signal_period: 3 }
    }
}

/// The Schaff Trend Cycle oscillator.
#[derive(Debug, Clone)]
pub struct SchaffTrendCycle {
    pub params: StcParams,
}

impl Default for SchaffTrendCycle {
    fn default() -> (r: Self)
        ensures
            r.params.short_ema == 12,
            r.params.long_ema == 26,
            r.params.stoch_period == 10,
            r.params.signal_period == 3,
    {
        SchaffTrendCycle::new(StcParams::default())
    }
}

impl SchaffTrendCycle {
    pub fn new(params: StcParams) -> (r: Self)
        ensures
            r.params == params,
    {
        SchaffTrendCycle { params }
    }

    /// Short canonical name.
    pub fn name(&self) -> (r: &'static str)
        ensures
            r@ == "SchaffTrendCycle"@,
    {
        "SchaffTrendCycle"
    }

    /// Bars needed: the long EMA's window; later stages produce their own
    /// warm-up gaps.
    pub fn required_len(&self) -> (r: usize)
        ensures
            r == self.params.long_ema,
    {
        self.params.long_ema
    }

    /// Reads the parameters the registry factory accepts: `short_ema` (12), `long_ema` (26), `stoch_period` (10), `signal_period` (3), in that
    /// order; the first malformed one is reported.
    pub fn from_params(params: &HashMap<String, String>) -> (r: Result<Self, IndicatorError>)
        ensures
            r is Ok <==> (usize_param_ok(*params, "short_ema"@) && usize_param_ok(*params, "long_ema"@) && usize_param_ok(*params, "stoch_period"@) && usize_param_ok(*params, "signal_period"@)),
            r matches Ok(x) ==> x.params.short_ema == usize_param_value(*params, "short_ema"@, 12),
            r matches Ok(x) ==> x.params.long_ema == usize_param_value(*params, "long_ema"@, 26),
            r matches Ok(x) ==> x.params.stoch_period == usize_param_value(*params, "stoch_period"@, 10),
            r matches Ok(x) ==> x.params.signal_period == usize_param_value(*params, "signal_period"@, 3),
            r matches Err(e) ==> if !usize_param_ok(*params, "short_ema"@) {
                invalid_param_error(*params, "short_ema"@, e)
            } else if !usize_param_ok(*params, "long_ema"@) {
                invalid_param_error(*params, "long_ema"@, e)
            } else if !usize_param_ok(*params, "stoch_period"@) {
                invalid_param_error(*params, "stoch_period"@, e)
            } else {
                invalid_param_error(*params, "signal_period"@, e)
            },
    {
        let short_ema = match param_usize(params, "short_ema", 12) {
            Ok(v) => v,
            Err(e) => return Err(e),
        };
        let long_ema = match param_usize(params, "long_ema", 26) {
            Ok(v) => v,
            Err(e) => return Err(e),
        };
        let stoch_period = match param_usize(params, "stoch_period", 10) {
            Ok(v) => v,
            Err(e) => return Err(e),
        };
        let signal_period = match param_usize(params, "signal_period", 3) {
            Ok(v) => v,
            Err(e) => return Err(e),
        };
        Ok(Self::new(StcParams { short_ema, long_ema, stoch_period, signal_period }))
    }
}

} // verus!
