//! Elder-Ray Index: bull and bear power against an EMA.
//!
//! Output columns: `"ElderRay_bull"`, `"ElderRay_bear"`.

use std::collections::HashMap;

use vstd::prelude::*;

use crate::error::IndicatorError;
use crate::registry::{invalid_param_error, param_usize, usize_param_ok, usize_param_value};

verus! {

/// Parameters of the ElderRayIndex indicator.
#[derive(Debug, Clone)]
pub struct ElderRayParams {
    /// Look-back window in bars. Default: 14.
    pub fast_period: usize,
}

impl Default for ElderRayParams {
    fn default() -> (r: Self)
        ensures
            r.fast_period == 14,
    {
        ElderRayParams { fast_period: 14 }
    }
}

/// The ElderRayIndex indicator.
#[derive(Debug, Clone)]
pub struct ElderRayIndex {
    pub params: ElderRayParams,
}

impl ElderRayIndex {
    pub fn new(params: ElderRayParams) -> (r: Self)
        ensures
            r.params == params,
    {
        ElderRayIndex { params }
    }

    /// The indicator with the given period and default settings otherwise.
    pub fn with_period(period: usize) -> (r: Self)
        ensures
            r.params.fast_period == period,
    {
        Self::new(ElderRayParams { fast_period: period })
    }

    /// Short canonical name.
    pub fn name(&self) -> (r: &'static str)
        ensures
            r@ == "ElderRayIndex"@,
    {
        "ElderRayIndex"
    }

    /// Bars needed: one window.
    pub fn required_len(&self) -> (r: usize)
        ensures
            r == self.params.fast_period,
    {
        self.params.fast_period
    }

    /// Reads the parameters the registry factory accepts: `fast_period` (default 14).
    pub fn from_params(params: &HashMap<String, String>) -> (r: Result<Self, IndicatorError>)
        ensures
            r is Ok <==> usize_param_ok(*params, "fast_period"@),
            r matches Ok(x) ==> x.params.fast_period == usize_param_value(*params, "fast_period"@, 14),
            r matches Err(e) ==> invalid_param_error(*params, "fast_period"@, e),
    {
        let fast_period = match param_usize(params, "fast_period", 14) {
            Ok(v) => v,
            Err(e) => return Err(e),
        };
        Ok(Self::new(ElderRayParams { fast_period }))
    }
}

} // verus!
