//! Batch wrappers around the incremental primitives of the regime
//! detectors (ADX, ATR, EMA, RSI).

use std::collections::HashMap;

use vstd::prelude::*;

use crate::error::IndicatorError;
use crate::registry::{invalid_param_error, param_usize, usize_param_ok, usize_param_value};

verus! {

/// Batch ADX: outputs `adx`, `di_plus` and `di_minus` per bar.
#[derive(Debug, Clone)]
pub struct AdxIndicator {
    pub period: usize,
}

impl AdxIndicator {
    pub fn new(period: usize) -> (r: Self)
        ensures
            r.period == period,
    {
        AdxIndicator { period }
    }

    /// Short canonical name.
    pub fn name(&self) -> (r: &'static str)
        ensures
            r@ == "ADX"@,
    {
        "ADX"
    }

    /// Bars needed: two periods (DI smoothing, then DX smoothing).
    pub fn required_len(&self) -> (r: usize)
        requires
            self.period * 2 <= usize::MAX,
        ensures
            r == self.period * 2,
    {
        self.period * 2
    }
}

impl AdxIndicator {
    /// Reads the parameter the `primitives` registry factory accepts:
    /// `period` (default 14).
    pub fn from_params(params: &HashMap<String, String>) -> (r: Result<Self, IndicatorError>)
        ensures
            r is Ok <==> usize_param_ok(*params, "period"@),
            r matches Ok(x) ==> x.period == usize_param_value(*params, "period"@, 14),
            r matches Err(e) ==> invalid_param_error(*params, "period"@, e),
    {
        let period = match param_usize(params, "period", 14) {
            Ok(v) => v,
            Err(e) => return Err(e),
        };
        Ok(Self::new(period))
    }
}

/// Batch Wilder ATR: outputs `atr_prim`.
#[derive(Debug, Clone)]
pub struct AtrPrimIndicator {
    pub period: usize,
}

impl AtrPrimIndicator {
    pub fn new(period: usize) -> (r: Self)
        ensures
            r.period == period,
    {
        AtrPrimIndicator { period }
    }

    /// Short canonical name.
    pub fn name(&self) -> (r: &'static str)
        ensures
            r@ == "AtrPrim"@,
    {
        "AtrPrim"
    }

    /// Bars needed: the period plus the close before it.
    pub fn required_len(&self) -> (r: usize)
        requires
            self.period < usize::MAX,
        ensures
            r == self.period + 1,
    {
        self.period + 1
    }
}

/// Batch EMA: outputs `ema_prim`.
#[derive(Debug, Clone)]
pub struct EmaPrimIndicator {
    pub period: usize,
}

impl EmaPrimIndicator {
    pub fn new(period: usize) -> (r: Self)
        ensures
            r.period == period,
    {
        EmaPrimIndicator { period }
    }

    /// Short canonical name.
    pub fn name(&self) -> (r: &'static str)
        ensures
            r@ == "EmaPrim"@,
    {
        "EmaPrim"
    }

    /// Bars needed: one period.
    pub fn required_len(&self) -> (r: usize)
        ensures
            r == self.period,
    {
        self.period
    }
}

/// Batch RSI: outputs `rsi_prim`.
#[derive(Debug, Clone)]
pub struct RsiPrimIndicator {
    pub period: usize,
}

impl RsiPrimIndicator {
    pub fn new(period: usize) -> (r: Self)
        ensures
            r.period == period,
    {
        RsiPrimIndicator { period }
    }

    /// Short canonical name.
    pub fn name(&self) -> (r: &'static str)
        ensures
            r@ == "RsiPrim"@,
    {
        "RsiPrim"
    }

    /// Bars needed: the period plus the close before it.
    pub fn required_len(&self) -> (r: usize)
        requires
            self.period < usize::MAX,
        ensures
            r == self.period + 1,
    {
        self.period + 1
    }
}

} // verus!
