//! Stochastic oscillator (%K and %D).
//!
//! Output columns: `"Stoch_K"`, `"Stoch_D"`.

use std::collections::HashMap;

use vstd::prelude::*;

use crate::error::IndicatorError;
use crate::registry::{invalid_param_error, param_usize, usize_param_ok, usize_param_value};

verus! {

/// Parameters of the stochastic oscillator.
#[derive(Debug, Clone)]
pub struct StochParams {
    /// Look-back window of the high-low range. Default: 14.
    pub k_period: usize,
    /// Smoothing of raw %K; 1 means none. Default: 3.
    pub smooth_k: usize,
    /// SMA period of %D. Default: 3.
    pub d_period: usize,
}

impl Default for StochParams {
    fn default() -> (r: Self)
        ensures
            r.k_period == 14,
            r.smooth_k == 3,
            r.d_period == 3,
    {
        StochParams { k_period: 14, smooth_k: 3, d_period: 3 }
    }
}

/// The stochastic oscillator.
#[derive(Debug, Clone)]
pub struct Stochastic {
    pub params: StochParams,
}

impl Stochastic {
    pub fn new(params: StochParams) -> (r: Self)
        ensures
            r.params == params,
    {
        Stochastic { params }
    }

    /// The slow stochastic 14/3/3.
    pub fn default() -> (r: Self)
        ensures
            r.params.k_period == 14,
            r.params.smooth_k == 3,
            r.params.d_period == 3,
    {
        Self::new(StochParams::default())
    }

    /// Short canonical name.
    pub fn name(&self) -> (r: &'static str)
        ensures
            r@ == "Stochastic"@,
    {
        "Stochastic"
    }

    /// Bars needed before %D is defined: `k_period + smooth_k + d_period - 2`.
    pub fn required_len(&self) -> (r: usize)
        requires
            2 <= self.params.k_period + self.params.smooth_k + self.params.d_period <= usize::MAX,
        ensures
            r == self.params.k_period + self.params.smooth_k + self.params.d_period - 2,
    {
        self.params.k_period + self.params.smooth_k + self.params.d_period - 2
    }

    /// Reads the parameters the registry factory accepts: `k_period` (14), `smooth_k` (3), `d_period` (3), in that
    /// order; the first malformed one is reported.
    pub fn from_params(params: &HashMap<String, String>) -> (r: Result<Self, IndicatorError>)
        ensures
            r is Ok <==> (usize_param_ok(*params, "k_period"@) && usize_param_ok(*params, "smooth_k"@) && usize_param_ok(*params, "d_period"@)),
            r matches Ok(x) ==> x.params.k_period == usize_param_value(*params, "k_period"@, 14),
            r matches Ok(x) ==> x.params.smooth_k == usize_param_value(*params, "smooth_k"@, 3),
            r matches Ok(x) ==> x.params.d_period == usize_param_value(*params, "d_period"@, 3),
            r matches Err(e) ==> if !usize_param_ok(*params, "k_period"@) {
                invalid_param_error(*params, "k_period"@, e)
            } else if !usize_param_ok(*params, "smooth_k"@) {
                invalid_param_error(*params, "smooth_k"@, e)
            } else {
                invalid_param_error(*params, "d_period"@, e)
            },
    {
        let k_period = match param_usize(params, "k_period", 14) {
            Ok(v) => v,
            Err(e) => return Err(e),
        };
        let smooth_k = match param_usize(params, "smooth_k", 3) {
            Ok(v) => v,
            Err(e) => return Err(e),
        };
        let d_period = match param_usize(params, "d_period", 3) {
            Ok(v) => v,
            Err(e) => return Err(e),
        };
        Ok(Self::new(StochParams { k_period, smooth_k, d_period }))
    }
}

} // verus!
