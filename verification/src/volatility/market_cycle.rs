//! Market-cycle phases from momentum: markup, markdown, plateau, and the
//! accumulation and distribution bars where a markdown or markup run ends.
//!
//! Output column: `"MarketCycle"`.

use std::collections::HashMap;

use vstd::prelude::*;

use crate::error::IndicatorError;
use crate::registry::{invalid_param_error, param_usize, usize_param_ok, usize_param_value};

verus! {

/// Phase of the market cycle at one bar.
#[derive(Debug, Clone, Copy, PartialEq, Eq, Structural)]
pub enum CyclePhase {
    Markup,
    Markdown,
    Plateau,
    Accumulation,
    Distribution,
}

/// The numeric code of a phase in half units (the output value is half the
/// code): markup 2 (1.0), markdown -2 (-1.0), plateau 0, accumulation 1
/// (0.5), distribution -1 (-0.5).
pub open spec fn phase_code(p: CyclePhase) -> i32 {
    match p {
        CyclePhase::Markup => 2i32,
        CyclePhase::Markdown => -2i32,
        CyclePhase::Plateau => 0i32,
        CyclePhase::Accumulation => 1i32,
        CyclePhase::Distribution => -1i32,
    }
}

impl CyclePhase {
    /// The numeric code of the phase, in half units.
    pub fn code(self) -> (r: i32)
        ensures
            r == phase_code(self),
    {
        match self {
            CyclePhase::Markup => 2,
            CyclePhase::Markdown => -2,
            CyclePhase::Plateau => 0,
            CyclePhase::Accumulation => 1,
            CyclePhase::Distribution => -1,
        }
    }
}

/// The momentum phase of bar `i`: plateau during the first `lag` bars, then
/// markup, markdown or plateau as the momentum sign is positive, negative or
/// zero.
pub open spec fn momentum_phase(signs: Seq<i8>, lag: nat, i: int) -> CyclePhase {
    if i < lag {
        CyclePhase::Plateau
    } else if signs[i] > 0 {
        CyclePhase::Markup
    } else if signs[i] < 0 {
        CyclePhase::Markdown
    } else {
        CyclePhase::Plateau
    }
}

/// The reported phase of bar `i`: the first bar after a markdown that is not
/// itself a markdown is accumulation, the first bar after a markup that is
/// not itself a markup is distribution; otherwise the momentum phase.
pub open spec fn cycle_phase(signs: Seq<i8>, lag: nat, i: int) -> CyclePhase {
    let prev = momentum_phase(signs, lag, i - 1);
    let cur = momentum_phase(signs, lag, i);
    if i >= 1 && prev == CyclePhase::Markdown && cur != CyclePhase::Markdown {
        CyclePhase::Accumulation
    } else if i >= 1 && prev == CyclePhase::Markup && cur != CyclePhase::Markup {
        CyclePhase::Distribution
    } else {
        cur
    }
}

fn momentum_phase_at(signs: &Vec<i8>, lag: usize, i: usize) -> (r: CyclePhase)
    requires
        i < signs@.len(),
    ensures
        r == momentum_phase(signs@, lag as nat, i as int),
{
    if i < lag {
        CyclePhase::Plateau
    } else if signs[i] > 0 {
        CyclePhase::Markup
    } else if signs[i] < 0 {
        CyclePhase::Markdown
    } else {
        CyclePhase::Plateau
    }
}

/// Classifies every bar. `signs[i]` is the sign of the momentum
/// `close[i] - close[i - lag]` (its value is ignored for the first `lag`
/// bars).
pub fn cycle_phases(signs: &Vec<i8>, lag: usize) -> (r: Vec<CyclePhase>)
    ensures
        r@.len() == signs@.len(),
        forall|i: int| 0 <= i < r@.len() ==> #[trigger] r@[i] == cycle_phase(signs@, lag as nat, i),
{
    let n = signs.len();
    let mut r: Vec<CyclePhase> = Vec::new();
    let mut i: usize = 0;
    while i < n
        invariant
            n == signs@.len(),
            i <= n,
            r@.len() == i,
            forall|j: int| 0 <= j < i ==> #[trigger] r@[j] == cycle_phase(signs@, lag as nat, j),
        decreases n - i,
    {
        let cur = momentum_phase_at(signs, lag, i);
        let phase = if i >= 1 {
            let prev = momentum_phase_at(signs, lag, i - 1);
            if prev == CyclePhase::Markdown && cur != CyclePhase::Markdown {
                CyclePhase::Accumulation
            } else if prev == CyclePhase::Markup && cur != CyclePhase::Markup {
                CyclePhase::Distribution
            } else {
                cur
            }
        } else {
            cur
        };
        r.push(phase);
        i += 1;
    }
    r
}

/// Parameters of the market-cycle indicator.
#[derive(Debug, Clone)]
pub struct MarketCycleParams {
    /// Momentum lag in bars. Default: 1.
    pub momentum_period: usize,
}

impl Default for MarketCycleParams {
    fn default() -> (r: Self)
        ensures
            r.momentum_period == 1,
    {
        MarketCycleParams { momentum_period: 1 }
    }
}

/// The market-cycle phase indicator.
#[derive(Debug, Clone)]
pub struct MarketCycle {
    pub params: MarketCycleParams,
}

impl MarketCycle {
    pub fn new(params: MarketCycleParams) -> (r: Self)
        ensures
            r.params == params,
    {
        MarketCycle { params }
    }

    /// One-bar momentum.
    pub fn default() -> (r: Self)
        ensures
            r.params.momentum_period == 1,
    {
        Self::new(MarketCycleParams::default())
    }

    /// Short canonical name.
    pub fn name(&self) -> (r: &'static str)
        ensures
            r@ == "MarketCycle"@,
    {
        "MarketCycle"
    }

    /// Bars needed: the momentum lag plus one.
    pub fn required_len(&self) -> (r: usize)
        requires
            self.params.momentum_period < usize::MAX,
        ensures
            r == self.params.momentum_period + 1,
    {
        self.params.momentum_period + 1
    }

    /// Reads the parameter the registry factory accepts: `momentum_period`
    /// (default 1).
    pub fn from_params(params: &HashMap<String, String>) -> (r: Result<Self, IndicatorError>)
        ensures
            r is Ok <==> usize_param_ok(*params, "momentum_period"@),
            r matches Ok(x) ==> x.params.momentum_period == usize_param_value(
                *params,
                "momentum_period"@,
                1,
            ),
            r matches Err(e) ==> invalid_param_error(*params, "momentum_period"@, e),
    {
        let momentum_period = match param_usize(params, "momentum_period", 1) {
            Ok(v) => v,
            Err(e) => return Err(e),
        };
        Ok(Self::new(MarketCycleParams { momentum_period }))
    }
}

} // verus!
