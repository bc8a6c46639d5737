//! Chaikin Money Flow: volume-weighted close location over a window.
//!
//! Output column: `"CMF_{period}"`.

use std::collections::HashMap;

use vstd::prelude::*;

use crate::error::IndicatorError;
use crate::registry::{invalid_param_error, param_usize, usize_param_ok, usize_param_value};
use crate::text::{decimal, tagged_number};

verus! {

/// Parameters of the ChaikinMoneyFlow indicator.
#[derive(Debug, Clone)]
pub struct CmfParams {
    /// Look-back window in bars. Default: 20.
    pub period: usize,
}

impl Default for CmfParams {
    fn default() -> (r: Self)
        ensures
            r.period == 20,
    {
        CmfParams { period: 20 }
    }
}

/// The ChaikinMoneyFlow indicator.
#[derive(Debug, Clone)]
pub struct ChaikinMoneyFlow {
    pub params: CmfParams,
}

impl ChaikinMoneyFlow {
    pub fn new(params: CmfParams) -> (r: Self)
        ensures
            r.params == params,
    {
        ChaikinMoneyFlow { params }
    }

    /// The indicator with the given period and default settings otherwise.
    pub fn with_period(period: usize) -> (r: Self)
        ensures
            r.params.period == period,
    {
        Self::new(CmfParams { period: period })
    }

    /// Output column label, `"CMF_{period}"`.
    pub fn output_key(&self) -> (r: String)
        ensures
            r@ == "CMF_"@ + decimal(self.params.period as nat),
    {
        tagged_number("CMF_", self.params.period as u64)
    }

    /// Short canonical name.
    pub fn name(&self) -> (r: &'static str)
        ensures
            r@ == "ChaikinMoneyFlow"@,
    {
        "ChaikinMoneyFlow"
    }

    /// Bars needed: one window.
    pub fn required_len(&self) -> (r: usize)
        ensures
            r == self.params.period,
    {
        self.params.period
    }

    /// Reads the parameters the registry factory accepts: `period` (default 20).
    pub fn from_params(params: &HashMap<String, String>) -> (r: Result<Self, IndicatorError>)
        ensures
            r is Ok <==> usize_param_ok(*params, "period"@),
            r matches Ok(x) ==> x.params.period == usize_param_value(*params, "period"@, 20),
            r matches Err(e) ==> invalid_param_error(*params, "period"@, e),
    {
        let period = match param_usize(params, "period", 20) {
            Ok(v) => v,
            Err(e) => return Err(e),
        };
        Ok(Self::new(CmfParams { period }))
    }
}

} // verus!
