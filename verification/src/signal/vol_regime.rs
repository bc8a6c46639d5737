//! Volatility-regime parameters and the numeric codes of the regime labels.
//!
//! Output columns: `"vol_pct"`, `"vol_regime"`.

use std::collections::HashMap;

use vstd::prelude::*;

use crate::error::IndicatorError;
use crate::registry::{invalid_param_error, param_usize, usize_param_ok, usize_param_value};
use crate::text::str_eq;

verus! {

/// Parameters of the volatility-regime indicator.
#[derive(Debug, Clone)]
pub struct VolumeRegimeParams {
    /// ATR period feeding the percentile tracker. Default: 14.
    pub atr_period: usize,
    /// Rolling window of the percentile tracker. Default: 100.
    pub pct_window: usize,
}

impl Default for VolumeRegimeParams {
    fn default() -> (r: Self)
        ensures
            r.atr_period == 14,
            r.pct_window == 100,
    {
        VolumeRegimeParams { atr_period: 14, pct_window: 100 }
    }
}

/// Batch volatility-percentile regime indicator.
#[derive(Debug, Clone)]
pub struct VolumeRegime {
    pub params: VolumeRegimeParams,
}

impl VolumeRegime {
    pub fn new(params: VolumeRegimeParams) -> (r: Self)
        ensures
            r.params == params,
    {
        VolumeRegime { params }
    }

    /// The indicator with default parameters.
    pub fn with_defaults() -> (r: Self)
        ensures
            r.params.atr_period == 14,
            r.params.pct_window == 100,
    {
        Self::new(VolumeRegimeParams::default())
    }

    /// Short canonical name.
    pub fn name(&self) -> (r: &'static str)
        ensures
            r@ == "VolumeRegime"@,
    {
        "VolumeRegime"
    }

    /// Bars needed: `atr_period + 1`.
    pub fn required_len(&self) -> (r: usize)
        requires
            self.params.atr_period < usize::MAX,
        ensures
            r == self.params.atr_period + 1,
    {
        self.params.atr_period + 1
    }

    /// Reads the parameters the registry factory accepts: `atr_period` (14), `pct_window` (100), in that
    /// order; the first malformed one is reported.
    pub fn from_params(params: &HashMap<String, String>) -> (r: Result<Self, IndicatorError>)
        ensures
            r is Ok <==> (usize_param_ok(*params, "atr_period"@) && usize_param_ok(*params, "pct_window"@)),
            r matches Ok(x) ==> x.params.atr_period == usize_param_value(*params, "atr_period"@, 14),
            r matches Ok(x) ==> x.params.pct_window == usize_param_value(*params, "pct_window"@, 100),
            r matches Err(e) ==> if !usize_param_ok(*params, "atr_period"@) {
                invalid_param_error(*params, "atr_period"@, e)
            } else {
                invalid_param_error(*params, "pct_window"@, e)
            },
    {
        let atr_period = match param_usize(params, "atr_period", 14) {
            Ok(v) => v,
            Err(e) => return Err(e),
        };
        let pct_window = match param_usize(params, "pct_window", 100) {
            Ok(v) => v,
            Err(e) => return Err(e),
        };
        Ok(Self::new(VolumeRegimeParams { atr_period, pct_window }))
    }
}

/// The code of a volatility-regime label: `"VERY LOW"` 0, `"LOW"` 1,
/// `"HIGH"` 3, `"VERY HIGH"` 4, and 2 for anything else (`"MED"`).
pub open spec fn regime_code_of(label: Seq<char>) -> u8 {
    if label == "VERY LOW"@ {
        0
    } else if label == "LOW"@ {
        1
    } else if label == "HIGH"@ {
        3
    } else if label == "VERY HIGH"@ {
        4
    } else {
        2
    }
}

/// The numeric code emitted for a volatility-regime label.
pub fn regime_code(label: &str) -> (r: u8)
    ensures
        r == regime_code_of(label@),
{
    if str_eq(label, "VERY LOW") {
        0
    } else if str_eq(label, "LOW") {
        1
    } else if str_eq(label, "HIGH") {
        3
    } else if str_eq(label, "VERY HIGH") {
        4
    } else {
        2
    }
}

/// The volatility band of the latest ATR reading, by the share of the
/// tracked readings that lie strictly below it.
#[derive(Debug, Clone, Copy, PartialEq, Eq, Structural)]
pub enum VolBand {
    VeryLow,
    Low,
    Med,
    High,
    VeryHigh,
}

/// The band of a reading with `below` of the `total` tracked readings under
/// it: share at least 0.8 very high, at least 0.6 high, at most 0.2 very low,
/// at most 0.4 low, medium otherwise (the share compared as a fraction).
pub open spec fn band_of(below: int, total: int) -> VolBand {
    if 5 * below >= 4 * total {
        VolBand::VeryHigh
    } else if 5 * below >= 3 * total {
        VolBand::High
    } else if 5 * below <= total {
        VolBand::VeryLow
    } else if 5 * below <= 2 * total {
        VolBand::Low
    } else {
        VolBand::Med
    }
}

/// Classifies a reading by how many of the `total` tracked readings lie
/// below it.
pub fn volatility_band(below: usize, total: usize) -> (r: VolBand)
    requires
        0 < total,
        below <= total,
    ensures
        r == band_of(below as int, total as int),
{
    let b = below as u128 * 5;
    let t = total as u128;
    if b >= 4 * t {
        VolBand::VeryHigh
    } else if b >= 3 * t {
        VolBand::High
    } else if b <= t {
        VolBand::VeryLow
    } else if b <= 2 * t {
        VolBand::Low
    } else {
        VolBand::Med
    }
}

impl VolBand {
    /// The band's label: `"VERY LOW"`, `"LOW"`, `"MED"`, `"HIGH"` or
    /// `"VERY HIGH"`.
    pub fn label(&self) -> (r: &'static str)
        ensures
            r@ == band_label(*self),
    {
        match self {
            VolBand::VeryLow => "VERY LOW",
            VolBand::Low => "LOW",
            VolBand::Med => "MED",
            VolBand::High => "HIGH",
            VolBand::VeryHigh => "VERY HIGH",
        }
    }
}

/// A higher share of readings below never gives a lower band.
pub proof fn lemma_band_monotone(b1: int, b2: int, total: int)
    requires
        0 < total,
        0 <= b1 <= b2 <= total,
    ensures
        band_rank(band_of(b1, total)) <= band_rank(band_of(b2, total)),
{
}

/// The order of the bands, from very low (0) to very high (4).
pub open spec fn band_rank(b: VolBand) -> int {
    match b {
        VolBand::VeryLow => 0,
        VolBand::Low => 1,
        VolBand::Med => 2,
        VolBand::High => 3,
        VolBand::VeryHigh => 4,
    }
}

/// The code emitted for a band's label is the band's rank.
pub proof fn lemma_band_code_is_rank(b: VolBand)
    ensures
        regime_code_of(band_label(b)) == band_rank(b),
{
    reveal_strlit("VERY LOW");
    reveal_strlit("LOW");
    reveal_strlit("MED");
    reveal_strlit("HIGH");
    reveal_strlit("VERY HIGH");
    assert("LOW"@ != "VERY LOW"@) by { assert("LOW"@[0] != "VERY LOW"@[0]); }
    assert("MED"@ != "VERY LOW"@) by { assert("MED"@[0] != "VERY LOW"@[0]); }
    assert("MED"@ != "LOW"@) by { assert("MED"@[0] != "LOW"@[0]); }
    assert("MED"@ != "HIGH"@) by { assert("MED"@[0] != "HIGH"@[0]); }
    assert("MED"@ != "VERY HIGH"@) by { assert("MED"@[0] != "VERY HIGH"@[0]); }
    assert("HIGH"@ != "VERY LOW"@) by { assert("HIGH"@[0] != "VERY LOW"@[0]); }
    assert("HIGH"@ != "LOW"@) by { assert("HIGH"@[0] != "LOW"@[0]); }
    assert("VERY HIGH"@ != "VERY LOW"@) by { assert("VERY HIGH"@[5] != "VERY LOW"@[5]); }
    assert("VERY HIGH"@ != "LOW"@) by { assert("VERY HIGH"@[0] != "LOW"@[0]); }
    assert("VERY HIGH"@ != "HIGH"@) by { assert("VERY HIGH"@[0] != "HIGH"@[0]); }
}

/// The label of a band, as text.
pub open spec fn band_label(b: VolBand) -> Seq<char> {
    match b {
        VolBand::VeryLow => "VERY LOW"@,
        VolBand::Low => "LOW"@,
        VolBand::Med => "MED"@,
        VolBand::High => "HIGH"@,
        VolBand::VeryHigh => "VERY HIGH"@,
    }
}

} // verus!
