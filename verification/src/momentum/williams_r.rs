//! Williams %R: where the close sits in the window's high-low range.
//!
//! Output column: `"WR_{period}"`.

use std::collections::HashMap;

use vstd::prelude::*;

use crate::error::IndicatorError;
use crate::registry::{invalid_param_error, param_usize, usize_param_ok, usize_param_value};
use crate::text::{decimal, tagged_number};

verus! {

/// Parameters of the WilliamsR indicator.
#[derive(Debug, Clone)]
pub struct WrParams {
    /// Look-back window in bars. Default: 14.
    pub period: usize,
}

impl Default for WrParams {
    fn default() -> (r: Self)
        ensures
            r.period == 14,
    {
        WrParams { period: 14 }
    }
}

/// The WilliamsR indicator.
#[derive(Debug, Clone)]
pub struct WilliamsR {
    pub params: WrParams,
}

impl WilliamsR {
    pub fn new(params: WrParams) -> (r: Self)
        ensures
            r.params == params,
    {
        WilliamsR { params }
    }

    /// The indicator with the given period and default settings otherwise.
    pub fn with_period(period: usize) -> (r: Self)
        ensures
            r.params.period == period,
    {
        Self::new(WrParams { period: period })
    }

    /// Output column label, `"WR_{period}"`.
    pub fn output_key(&self) -> (r: String)
        ensures
            r@ == "WR_"@ + decimal(self.params.period as nat),
    {
        tagged_number("WR_", self.params.period as u64)
    }

    /// Short canonical name.
    pub fn name(&self) -> (r: &'static str)
        ensures
            r@ == "WilliamsR"@,
    {
        "WilliamsR"
    }

    /// Bars needed: one window.
    pub fn required_len(&self) -> (r: usize)
        ensures
            r == self.params.period,
    {
        self.params.period
    }

    /// Reads the parameters the registry factory accepts: `period` (default 14).
    pub fn from_params(params: &HashMap<String, String>) -> (r: Result<Self, IndicatorError>)
        ensures
            r is Ok <==> usize_param_ok(*params, "period"@),
            r matches Ok(x) ==> x.params.period == usize_param_value(*params, "period"@, 14),
            r matches Err(e) ==> invalid_param_error(*params, "period"@, e),
    {
        let period = match param_usize(params, "period", 14) {
            Ok(v) => v,
            Err(e) => return Err(e),
        };
        Ok(Self::new(WrParams { period }))
    }
}

} // verus!
