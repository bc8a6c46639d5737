//! Choppiness Index: how much of the window's range the bars retraced.
//!
//! Output column: `"CHOP_{period}"`.

use std::collections::HashMap;

use vstd::prelude::*;

use crate::error::IndicatorError;
use crate::registry::{invalid_param_error, param_usize, usize_param_ok, usize_param_value};
use crate::text::{decimal, tagged_number};

verus! {

/// Parameters of the ChoppinessIndex indicator.
#[derive(Debug, Clone)]
pub struct ChopParams {
    /// Look-back window in bars. Default: 14.
    pub period: usize,
}

impl Default for ChopParams {
    fn default() -> (r: Self)
        ensures
            r.period == 14,
    {
        ChopParams { period: 14 }
    }
}

/// The ChoppinessIndex indicator.
#[derive(Debug, Clone)]
pub struct ChoppinessIndex {
    pub params: ChopParams,
}

impl ChoppinessIndex {
    pub fn new(params: ChopParams) -> (r: Self)
        ensures
            r.params == params,
    {
        ChoppinessIndex { params }
    }

    /// The indicator with the given period and default settings otherwise.
    pub fn with_period(period: usize) -> (r: Self)
        ensures
            r.params.period == period,
    {
        Self::new(ChopParams { period: period })
    }

    /// Output column label, `"CHOP_{period}"`.
    pub fn output_key(&self) -> (r: String)
        ensures
            r@ == "CHOP_"@ + decimal(self.params.period as nat),
    {
        tagged_number("CHOP_", self.params.period as u64)
    }

    /// Short canonical name.
    pub fn name(&self) -> (r: &'static str)
        ensures
            r@ == "ChoppinessIndex"@,
    {
        "ChoppinessIndex"
    }

    /// Bars needed: one window.
    pub fn required_len(&self) -> (r: usize)
        ensures
            r == self.params.period,
    {
        self.params.period
    }

    /// Reads the parameters the registry factory accepts: `period` (default 14).
    pub fn from_params(params: &HashMap<String, String>) -> (r: Result<Self, IndicatorError>)
        ensures
            r is Ok <==> usize_param_ok(*params, "period"@),
            r matches Ok(x) ==> x.params.period == usize_param_value(*params, "period"@, 14),
            r matches Err(e) ==> invalid_param_error(*params, "period"@, e),
    {
        let period = match param_usize(params, "period", 14) {
            Ok(v) => v,
            Err(e) => return Err(e),
        };
        Ok(Self::new(ChopParams { period }))
    }
}

} // verus!
