//! Layer 8 parameters: cumulative volume delta, its slope and divergence.
//!
//! Output columns: `"cvd"`, `"cvd_slope"`, `"cvd_div"`.

use std::collections::HashMap;

use vstd::prelude::*;

use crate::error::IndicatorError;
use crate::registry::{invalid_param_error, param_usize, usize_param_ok, usize_param_value};

verus! {

/// Parameters of the CVD layer.
#[derive(Debug, Clone)]
pub struct CvdParams {
    /// Bars over which the CVD slope is measured. Default: 10.
    pub slope_bars: usize,
    /// Look-back of the price/CVD divergence test. Default: 20.
    pub div_lookback: usize,
}

impl Default for CvdParams {
    fn default() -> (r: Self)
        ensures
            r.slope_bars == 10,
            r.div_lookback == 20,
    {
        CvdParams { slope_bars: 10, div_lookback: 20 }
    }
}

/// Batch adapter of the CVD tracker.
#[derive(Debug, Clone)]
pub struct CvdIndicator {
    pub params: CvdParams,
}

impl CvdIndicator {
    pub fn new(params: CvdParams) -> (r: Self)
        ensures
            r.params == params,
    {
        CvdIndicator { params }
    }

    /// Short canonical name.
    pub fn name(&self) -> (r: &'static str)
        ensures
            r@ == "CVD"@,
    {
        "CVD"
    }

    /// Bars needed: `div_lookback + 1`.
    pub fn required_len(&self) -> (r: usize)
        requires
            self.params.div_lookback < usize::MAX,
        ensures
            r == self.params.div_lookback + 1,
    {
        self.params.div_lookback + 1
    }

    /// Reads the parameters the registry factory accepts: `slope_bars` (10), `div_lookback` (20), in that
    /// order; the first malformed one is reported.
    pub fn from_params(params: &HashMap<String, String>) -> (r: Result<Self, IndicatorError>)
        ensures
            r is Ok <==> (usize_param_ok(*params, "slope_bars"@) && usize_param_ok(*params, "div_lookback"@)),
            r matches Ok(x) ==> x.params.slope_bars == usize_param_value(*params, "slope_bars"@, 10),
            r matches Ok(x) ==> x.params.div_lookback == usize_param_value(*params, "div_lookback"@, 20),
            r matches Err(e) ==> if !usize_param_ok(*params, "slope_bars"@) {
                invalid_param_error(*params, "slope_bars"@, e)
            } else {
                invalid_param_error(*params, "div_lookback"@, e)
            },
    {
        let slope_bars = match param_usize(params, "slope_bars", 10) {
            Ok(v) => v,
            Err(e) => return Err(e),
        };
        let div_lookback = match param_usize(params, "div_lookback", 20) {
            Ok(v) => v,
            Err(e) => return Err(e),
        };
        Ok(Self::new(CvdParams { slope_bars, div_lookback }))
    }
}

} // verus!
