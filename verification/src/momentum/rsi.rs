//! Relative Strength Index with Wilder smoothing.
//!
//! Output column: `"RSI_{period}"`.

use std::collections::HashMap;

use vstd::prelude::*;

use crate::error::IndicatorError;
use crate::indicator::{column_for_param, PriceColumn};
use crate::registry::{invalid_param_error, param_str, param_usize, text_param_value, usize_param_ok, usize_param_value};
use crate::text::{decimal, tagged_number};

verus! {

/// Parameters of the RSI indicator.
#[derive(Debug, Clone)]
pub struct RsiParams {
    /// Look-back window in bars. Default: 14.
    pub period: usize,
    /// Price field read. Default: close.
    pub column: PriceColumn,
}

impl Default for RsiParams {
    fn default() -> (r: Self)
        ensures
            r.period == 14,
            r.column == PriceColumn::Close,
    {
        RsiParams { period: 14, column: PriceColumn::Close }
    }
}

/// The RSI indicator.
#[derive(Debug, Clone)]
pub struct Rsi {
    pub params: RsiParams,
}

impl Rsi {
    pub fn new(params: RsiParams) -> (r: Self)
        ensures
            r.params == params,
    {
        Rsi { params }
    }

    /// The indicator with the given period and default settings otherwise.
    pub fn with_period(period: usize) -> (r: Self)
        ensures
            r.params.period == period,
            r.params.column == PriceColumn::Close,
    {
        Self::new(RsiParams { period: period, column: PriceColumn::Close })
    }

    /// Output column label, `"RSI_{period}"`.
    pub fn output_key(&self) -> (r: String)
        ensures
            r@ == "RSI_"@ + decimal(self.params.period as nat),
    {
        tagged_number("RSI_", self.params.period as u64)
    }

    /// Short canonical name.
    pub fn name(&self) -> (r: &'static str)
        ensures
            r@ == "RSI"@,
    {
        "RSI"
    }

    /// Bars needed: the window plus one earlier bar.
    pub fn required_len(&self) -> (r: usize)
        requires
            self.params.period < usize::MAX,
        ensures
            r == self.params.period + 1,
    {
        self.params.period + 1
    }

    /// Reads the parameters the registry factory accepts: `period` (default 14), and `column` (default `close`).
    pub fn from_params(params: &HashMap<String, String>) -> (r: Result<Self, IndicatorError>)
        ensures
            r is Ok <==> usize_param_ok(*params, "period"@),
            r matches Ok(x) ==> x.params.period == usize_param_value(*params, "period"@, 14),
            r matches Ok(x) ==> x.params.column == column_for_param(text_param_value(*params, "column"@, "close"@), true),
            r matches Err(e) ==> invalid_param_error(*params, "period"@, e),
    {
        let period = match param_usize(params, "period", 14) {
            Ok(v) => v,
            Err(e) => return Err(e),
        };
        let column = PriceColumn::from_param(param_str(params, "column", "close"), true);
        Ok(Self::new(RsiParams { period, column }))
    }
}

} // verus!
