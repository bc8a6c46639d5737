//! Average True Range, smoothed by a simple or an exponential moving average.
//!
//! Output columns: `"ATR_{period}"` and `"ATR_{period}_normalized"`.

use std::collections::HashMap;

use vstd::prelude::*;

use crate::error::IndicatorError;
use crate::registry::{
    invalid_param_error, param_str, param_usize, text_param_value, usize_param_ok,
    usize_param_value,
};
use crate::text::{decimal, str_eq, tagged_number};

verus! {

/// How the true range is smoothed.
#[derive(Debug, Clone, Copy, PartialEq, Eq, Structural)]
pub enum AtrMethod {
    Sma,
    Ema,
}

/// The smoothing a `method` parameter selects: `"ema"`, else the SMA.
pub open spec fn method_for_param(name: Seq<char>) -> AtrMethod {
    if name == "ema"@ {
        AtrMethod::Ema
    } else {
        AtrMethod::Sma
    }
}

/// Parameters of the ATR indicator.
#[derive(Debug, Clone)]
pub struct AtrParams {
    /// Smoothing window. Default: 14.
    pub period: usize,
    /// Smoothing method. Default: SMA.
    pub method: AtrMethod,
}

impl Default for AtrParams {
    fn default() -> (r: Self)
        ensures
            r.period == 14,
            r.method == AtrMethod::Sma,
    {
        AtrParams { period: 14, method: AtrMethod::Sma }
    }
}

/// The ATR indicator.
#[derive(Debug, Clone)]
pub struct Atr {
    pub params: AtrParams,
}

impl Atr {
    pub fn new(params: AtrParams) -> (r: Self)
        ensures
            r.params == params,
    {
        Atr { params }
    }

    /// SMA-smoothed ATR over `period` bars.
    pub fn with_period(period: usize) -> (r: Self)
        ensures
            r.params.period == period,
            r.params.method == AtrMethod::Sma,
    {
        Self::new(AtrParams { period, method: AtrMethod::Sma })
    }

    /// Label of the ATR column, `"ATR_{period}"`.
    pub fn output_key(&self) -> (r: String)
        ensures
            r@ == "ATR_"@ + decimal(self.params.period as nat),
    {
        tagged_number("ATR_", self.params.period as u64)
    }

    /// Label of the percentage-of-close column, `"ATR_{period}_normalized"`.
    pub fn norm_key(&self) -> (r: String)
        ensures
            r@ == "ATR_"@ + decimal(self.params.period as nat) + "_normalized"@,
    {
        let mut r = tagged_number("ATR_", self.params.period as u64);
        r.append("_normalized");
        r
    }

    /// Short canonical name.
    pub fn name(&self) -> (r: &'static str)
        ensures
            r@ == "ATR"@,
    {
        "ATR"
    }

    /// Bars needed: the window plus the previous close.
    pub fn required_len(&self) -> (r: usize)
        requires
            self.params.period < usize::MAX,
        ensures
            r == self.params.period + 1,
    {
        self.params.period + 1
    }

    /// Reads the parameters the registry factory accepts: `period` (default
    /// 14) and `method` (`"ema"`, default `"sma"`).
    pub fn from_params(params: &HashMap<String, String>) -> (r: Result<Self, IndicatorError>)
        ensures
            r is Ok <==> usize_param_ok(*params, "period"@),
            r matches Ok(x) ==> x.params.period == usize_param_value(*params, "period"@, 14),
            r matches Ok(x) ==> x.params.method == method_for_param(
                text_param_value(*params, "method"@, "sma"@),
            ),
            r matches Err(e) ==> invalid_param_error(*params, "period"@, e),
    {
        let period = match param_usize(params, "period", 14) {
            Ok(v) => v,
            Err(e) => return Err(e),
        };
        let method = if str_eq(param_str(params, "method", "sma"), "ema") {
            AtrMethod::Ema
        } else {
            AtrMethod::Sma
        };
        Ok(Self::new(AtrParams { period, method }))
    }
}

} // verus!
