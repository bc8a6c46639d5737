//! Volume-Weighted Average Price, cumulative or over a rolling window.
//!
//! Output column: `"VWAP"` (cumulative) or `"VWAP_{period}"` (rolling).

use std::collections::HashMap;

use vstd::prelude::*;

use crate::error::IndicatorError;
use crate::registry::{
    invalid_param_error, param_entries, param_present, param_usize, usize_param_ok,
    usize_param_value,
};
use crate::text::{decimal, tagged_number};

verus! {

/// Parameters of the VWAP indicator.
#[derive(Debug, Clone)]
pub struct VwapParams {
    /// Rolling window; `None` means cumulative over all bars.
    pub period: Option<usize>,
}

impl Default for VwapParams {
    fn default() -> (r: Self)
        ensures
            r.period is None,
    {
        VwapParams { period: None }
    }
}

/// The VWAP indicator.
#[derive(Debug, Clone)]
pub struct Vwap {
    pub params: VwapParams,
}

impl Vwap {
    pub fn new(params: VwapParams) -> (r: Self)
        ensures
            r.params == params,
    {
        Vwap { params }
    }

    /// VWAP accumulated over all bars.
    pub fn cumulative() -> (r: Self)
        ensures
            r.params.period is None,
    {
        Self::new(VwapParams { period: None })
    }

    /// VWAP over the last `period` bars.
    pub fn rolling(period: usize) -> (r: Self)
        ensures
            r.params.period == Some(period),
    {
        Self::new(VwapParams { period: Some(period) })
    }

    /// Output column label: `"VWAP"`, or `"VWAP_{period}"` when rolling.
    pub fn output_key(&self) -> (r: String)
        ensures
            r@ == match self.params.period {
                None => "VWAP"@,
                Some(p) => "VWAP_"@ + decimal(p as nat),
            },
    {
        match self.params.period {
            None => String::from_str("VWAP"),
            Some(p) => tagged_number("VWAP_", p as u64),
        }
    }

    /// Short canonical name.
    pub fn name(&self) -> (r: &'static str)
        ensures
            r@ == "VWAP"@,
    {
        "VWAP"
    }

    /// Bars needed: the window, or one bar when cumulative.
    pub fn required_len(&self) -> (r: usize)
        ensures
            r == match self.params.period {
                None => 1,
                Some(p) => p,
            },
    {
        match self.params.period {
            None => 1,
            Some(p) => p,
        }
    }

    /// Reads the parameter the registry factory accepts: a present nonzero
    /// `period` makes the VWAP rolling over that many bars; an absent one, or
    /// `0`, makes it cumulative.
    pub fn from_params(params: &HashMap<String, String>) -> (r: Result<Self, IndicatorError>)
        ensures
            r is Ok <==> usize_param_ok(*params, "period"@),
            r matches Ok(x) ==> x.params.period == if param_entries(*params).dom().contains(
                "period"@,
            ) && usize_param_value(*params, "period"@, 0) != 0 {
                Some(usize_param_value(*params, "period"@, 0))
            } else {
                None::<usize>
            },
            r matches Err(e) ==> invalid_param_error(*params, "period"@, e),
    {
        let period = if param_present(params, "period") {
            match param_usize(params, "period", 0) {
                Ok(0) => None,
                Ok(v) => Some(v),
                Err(e) => return Err(e),
            }
        } else {
            None
        };
        Ok(Self::new(VwapParams { period }))
    }
}

} // verus!
