//! Rolling least-squares slope of price against bar index.
//!
//! Output column: `"LR_slope_{period}"`.

use std::collections::HashMap;

use vstd::prelude::*;

use crate::error::IndicatorError;
use crate::indicator::PriceColumn;
use crate::registry::{invalid_param_error, param_usize, usize_param_ok, usize_param_value};
use crate::text::{decimal, tagged_number};

verus! {

/// Parameters of the LinearRegression indicator.
#[derive(Debug, Clone)]
pub struct LrParams {
    /// Look-back window in bars. Default: 14.
    pub period: usize,
    /// Price field read. Default: close.
    pub column: PriceColumn,
}

impl Default for LrParams {
    fn default() -> (r: Self)
        ensures
            r.period == 14,
            r.column == PriceColumn::Close,
    {
        LrParams { period: 14, column: PriceColumn::Close }
    }
}

/// The LinearRegression indicator.
#[derive(Debug, Clone)]
pub struct LinearRegression {
    pub params: LrParams,
}

impl LinearRegression {
    pub fn new(params: LrParams) -> (r: Self)
        ensures
            r.params == params,
    {
        LinearRegression { params }
    }

    /// The indicator with the given period and default settings otherwise.
    pub fn with_period(period: usize) -> (r: Self)
        ensures
            r.params.period == period,
            r.params.column == PriceColumn::Close,
    {
        Self::new(LrParams { period: period, column: PriceColumn::Close })
    }

    /// Output column label, `"LR_slope_{period}"`.
    pub fn output_key(&self) -> (r: String)
        ensures
            r@ == "LR_slope_"@ + decimal(self.params.period as nat),
    {
        tagged_number("LR_slope_", self.params.period as u64)
    }

    /// Short canonical name.
    pub fn name(&self) -> (r: &'static str)
        ensures
            r@ == "LinearRegression"@,
    {
        "LinearRegression"
    }

    /// Bars needed: one window.
    pub fn required_len(&self) -> (r: usize)
        ensures
            r == self.params.period,
    {
        self.params.period
    }

    /// Reads the parameters the registry factory accepts: `period` (default 14), and `column` (default `close`).
    pub fn from_params(params: &HashMap<String, String>) -> (r: Result<Self, IndicatorError>)
        ensures
            r is Ok <==> usize_param_ok(*params, "period"@),
            r matches Ok(x) ==> x.params.period == usize_param_value(*params, "period"@, 14),
            r matches Ok(x) ==> x.params.column == PriceColumn::Close,
            r matches Err(e) ==> invalid_param_error(*params, "period"@, e),
    {
        let period = match param_usize(params, "period", 14) {
            Ok(v) => v,
            Err(e) => return Err(e),
        };
        Ok(Self::new(LrParams { period, column: PriceColumn::Close }))
    }
}

} // verus!
