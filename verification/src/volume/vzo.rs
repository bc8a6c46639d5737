//! Volume Zone Oscillator: signed volume share of rising against falling
//! closes over a window.
//!
//! Output column: `"vzo_{period}"`.

use std::collections::HashMap;

use vstd::prelude::*;

use crate::error::IndicatorError;
use crate::registry::{invalid_param_error, param_usize, usize_param_ok, usize_param_value};
use crate::text::{decimal, tagged_number};

verus! {

/// The Volume Zone Oscillator.
#[derive(Debug, Clone)]
pub struct VolumeZoneOscillator {
    /// Window in bars. Default: 14.
    pub period: usize,
}

impl VolumeZoneOscillator {
    pub fn new(period: usize) -> (r: Self)
        ensures
            r.period == period,
    {
        VolumeZoneOscillator { period }
    }

    /// Output column label, `"vzo_{period}"`.
    pub fn output_key(&self) -> (r: String)
        ensures
            r@ == "vzo_"@ + decimal(self.period as nat),
    {
        tagged_number("vzo_", self.period as u64)
    }

    /// Short canonical name.
    pub fn name(&self) -> (r: &'static str)
        ensures
            r@ == "VZO"@,
    {
        "VZO"
    }

    /// Bars needed: the window plus the close before it.
    pub fn required_len(&self) -> (r: usize)
        requires
            self.period < usize::MAX,
        ensures
            r == self.period + 1,
    {
        self.period + 1
    }

    /// Reads the parameter the registry factory accepts: `period` (default
    /// 14).
    pub fn from_params(params: &HashMap<String, String>) -> (r: Result<Self, IndicatorError>)
        ensures
            r is Ok <==> usize_param_ok(*params, "period"@),
            r matches Ok(x) ==> x.period == usize_param_value(*params, "period"@, 14),
            r matches Err(e) ==> invalid_param_error(*params, "period"@, e),
    {
        let period = match param_usize(params, "period", 14) {
            Ok(v) => v,
            Err(e) => return Err(e),
        };
        Ok(Self::new(period))
    }
}

} // verus!
