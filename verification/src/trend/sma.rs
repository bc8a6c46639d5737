//! Simple Moving Average: the arithmetic mean over a sliding window.
//!
//! Output column: `"SMA_{period}"`.

use std::collections::HashMap;

use vstd::prelude::*;

use crate::error::IndicatorError;
use crate::indicator::{column_for_param, PriceColumn};
use crate::registry::{invalid_param_error, param_str, param_usize, text_param_value, usize_param_ok, usize_param_value};
use crate::text::{decimal, tagged_number};

verus! {

/// Parameters of the SMA indicator.
#[derive(Debug, Clone)]
pub struct SmaParams {
    /// Look-back window in bars. Default: 20.
    pub period: usize,
    /// Price field read. Default: close.
    pub column: PriceColumn,
}

impl Default for SmaParams {
    fn default() -> (r: Self)
        ensures
            r.period == 20,
            r.column == PriceColumn::Close,
    {
        SmaParams { period: 20, column: PriceColumn::Close }
    }
}

/// The SMA indicator.
#[derive(Debug, Clone)]
pub struct Sma {
    pub params: SmaParams,
}

impl Sma {
    pub fn new(params: SmaParams) -> (r: Self)
        ensures
            r.params == params,
    {
        Sma { params }
    }

    /// The indicator with the given period and default settings otherwise.
    pub fn with_period(period: usize) -> (r: Self)
        ensures
            r.params.period == period,
            r.params.column == PriceColumn::Close,
    {
        Self::new(SmaParams { period: period, column: PriceColumn::Close })
    }

    /// Output column label, `"SMA_{period}"`.
    pub fn output_key(&self) -> (r: String)
        ensures
            r@ == "SMA_"@ + decimal(self.params.period as nat),
    {
        tagged_number("SMA_", self.params.period as u64)
    }

    /// Short canonical name.
    pub fn name(&self) -> (r: &'static str)
        ensures
            r@ == "SMA"@,
    {
        "SMA"
    }

    /// Bars needed: one window.
    pub fn required_len(&self) -> (r: usize)
        ensures
            r == self.params.period,
    {
        self.params.period
    }

    /// Reads the parameters the registry factory accepts: `period` (default 20), and `column` (default `close`).
    pub fn from_params(params: &HashMap<String, String>) -> (r: Result<Self, IndicatorError>)
        ensures
            r is Ok <==> usize_param_ok(*params, "period"@),
            r matches Ok(x) ==> x.params.period == usize_param_value(*params, "period"@, 20),
            r matches Ok(x) ==> x.params.column == column_for_param(text_param_value(*params, "column"@, "close"@), true),
            r matches Err(e) ==> invalid_param_error(*params, "period"@, e),
    {
        let period = match param_usize(params, "period", 20) {
            Ok(v) => v,
            Err(e) => return Err(e),
        };
        let column = PriceColumn::from_param(param_str(params, "column", "close"), true);
        Ok(Self::new(SmaParams { period, column }))
    }
}

} // verus!
