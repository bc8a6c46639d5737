//! Stochastic RSI: the stochastic formula applied to the RSI series.
//!
//! Output columns: `"StochRSI_K"`, `"StochRSI_D"`.

use std::collections::HashMap;

use vstd::prelude::*;

use crate::error::IndicatorError;
use crate::registry::{invalid_param_error, param_usize, usize_param_ok, usize_param_value};

verus! {

/// Parameters of the stochastic RSI.
#[derive(Debug, Clone)]
pub struct StochRsiParams {
    /// RSI period. Default: 14.
    pub rsi_period: usize,
    /// Window over the RSI values. Default: 14.
    pub stoch_period: usize,
    /// SMA smoothing of raw %K. Default: 3.
    pub k_smooth: usize,
    /// SMA period of %D. Default: 3.
    pub d_period: usize,
}

impl Default for StochRsiParams {
    fn default() -> (r: Self)
        ensures
            r.rsi_period == 14,
            r.stoch_period == 14,
            r.k_smooth == 3,
            r.d_period == 3,
    {
        StochRsiParams { rsi_period: 14, stoch_period: 14, k_smooth: 3, d_period: 3 }
    }
}

/// The stochastic RSI oscillator.
#[derive(Debug, Clone)]
pub struct StochasticRsi {
    pub params: StochRsiParams,
}

impl Default for StochasticRsi {
    fn default() -> (r: Self)
        ensures
            r.params.rsi_period == 14,
            r.params.stoch_period == 14,
            r.params.k_smooth == 3,
            r.params.d_period == 3,
    {
        StochasticRsi::new(StochRsiParams::default())
    }
}

impl StochasticRsi {
    pub fn new(params: StochRsiParams) -> (r: Self)
        ensures
            r.params == params,
    {
        StochasticRsi { params }
    }

    /// Short canonical name.
    pub fn name(&self) -> (r: &'static str)
        ensures
            r@ == "StochasticRSI"@,
    {
        "StochasticRSI"
    }

    /// Bars needed: RSI warm-up (`rsi_period + 1`), then the stochastic
    /// window and both smoothings: `rsi_period + 1 + stoch_period + k_smooth
    /// + d_period - 2`.
    pub fn required_len(&self) -> (r: usize)
        requires
            self.params.rsi_period + 1 + self.params.stoch_period + self.params.k_smooth
                + self.params.d_period <= usize::MAX,
            self.params.rsi_period + 1 + self.params.stoch_period + self.params.k_smooth
                + self.params.d_period >= 2,
        ensures
            r == self.params.rsi_period + 1 + self.params.stoch_period + self.params.k_smooth
                + self.params.d_period - 2,
    {
        self.params.rsi_period + 1 + self.params.stoch_period + self.params.k_smooth
            + self.params.d_period - 2
    }

    /// Reads the parameters the registry factory accepts: `rsi_period` (14), `stoch_period` (14), `k_smooth` (3), `d_period` (3), in that
    /// order; the first malformed one is reported.
    pub fn from_params(params: &HashMap<String, String>) -> (r: Result<Self, IndicatorError>)
        ensures
            r is Ok <==> (usize_param_ok(*params, "rsi_period"@) && usize_param_ok(*params, "stoch_period"@) && usize_param_ok(*params, "k_smooth"@) && usize_param_ok(*params, "d_period"@)),
            r matches Ok(x) ==> x.params.rsi_period == usize_param_value(*params, "rsi_period"@, 14),
            r matches Ok(x) ==> x.params.stoch_period == usize_param_value(*params, "stoch_period"@, 14),
            r matches Ok(x) ==> x.params.k_smooth == usize_param_value(*params, "k_smooth"@, 3),
            r matches Ok(x) ==> x.params.d_period == usize_param_value(*params, "d_period"@, 3),
            r matches Err(e) ==> if !usize_param_ok(*params, "rsi_period"@) {
                invalid_param_error(*params, "rsi_period"@, e)
            } else if !usize_param_ok(*params, "stoch_period"@) {
                invalid_param_error(*params, "stoch_period"@, e)
            } else if !usize_param_ok(*params, "k_smooth"@) {
                invalid_param_error(*params, "k_smooth"@, e)
            } else {
                invalid_param_error(*params, "d_period"@, e)
            },
    {
        let rsi_period = match param_usize(params, "rsi_period", 14) {
            Ok(v) => v,
            Err(e) => return Err(e),
        };
        let stoch_period = match param_usize(params, "stoch_period", 14) {
            Ok(v) => v,
            Err(e) => return Err(e),
        };
        let k_smooth = match param_usize(params, "k_smooth", 3) {
            Ok(v) => v,
            Err(e) => return Err(e),
        };
        let d_period = match param_usize(params, "d_period", 3) {
            Ok(v) => v,
            Err(e) => return Err(e),
        };
        Ok(Self::new(StochRsiParams { rsi_period, stoch_period, k_smooth, d_period }))
    }
}

} // verus!
