//! Layer 5 parameters: the rolling volume profile.
//!
//! Output columns: `"liq_poc"`, `"liq_buy_pct"`, `"liq_imbalance"`,
//! `"liq_vah"`, `"liq_val"`.

use std::collections::HashMap;

use vstd::prelude::*;

use crate::error::IndicatorError;
use crate::registry::{invalid_param_error, param_usize, usize_param_ok, usize_param_value};

verus! {

/// Parameters of the liquidity profile.
#[derive(Debug, Clone)]
pub struct LiquidityParams {
    /// Candles in the rolling profile window. Default: 50.
    pub period: usize,
    /// Price bins of the profile. Default: 20.
    pub n_bins: usize,
}

impl Default for LiquidityParams {
    fn default() -> (r: Self)
        ensures
            r.period == 50,
            r.n_bins == 20,
    {
        LiquidityParams { period: 50, n_bins: 20 }
    }
}

/// Batch adapter of the liquidity profile.
#[derive(Debug, Clone)]
pub struct LiquidityIndicator {
    pub params: LiquidityParams,
}

impl LiquidityIndicator {
    pub fn new(params: LiquidityParams) -> (r: Self)
        ensures
            r.params == params,
    {
        LiquidityIndicator { params }
    }

    /// The indicator with default parameters.
    pub fn with_defaults() -> (r: Self)
        ensures
            r.params.period == 50,
            r.params.n_bins == 20,
    {
        Self::new(LiquidityParams::default())
    }

    /// Short canonical name.
    pub fn name(&self) -> (r: &'static str)
        ensures
            r@ == "Liquidity"@,
    {
        "Liquidity"
    }

    /// Bars needed: `period`.
    pub fn required_len(&self) -> (r: usize)
        ensures
            r == self.params.period,
    {
        self.params.period
    }

    /// Reads the parameters the registry factory accepts: `period` (50), `n_bins` (20), in that
    /// order; the first malformed one is reported.
    pub fn from_params(params: &HashMap<String, String>) -> (r: Result<Self, IndicatorError>)
        ensures
            r is Ok <==> (usize_param_ok(*params, "period"@) && usize_param_ok(*params, "n_bins"@)),
            r matches Ok(x) ==> x.params.period == usize_param_value(*params, "period"@, 50),
            r matches Ok(x) ==> x.params.n_bins == usize_param_value(*params, "n_bins"@, 20),
            r matches Err(e) ==> if !usize_param_ok(*params, "period"@) {
                invalid_param_error(*params, "period"@, e)
            } else {
                invalid_param_error(*params, "n_bins"@, e)
            },
    {
        let period = match param_usize(params, "period", 50) {
            Ok(v) => v,
            Err(e) => return Err(e),
        };
        let n_bins = match param_usize(params, "n_bins", 20) {
            Ok(v) => v,
            Err(e) => return Err(e),
        };
        Ok(Self::new(LiquidityParams { period, n_bins }))
    }
}

} // verus!
