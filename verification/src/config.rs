//! Integer-valued configuration: the signal engine's recompute cadences and
//! the periods of the batch indicator calculator.

use vstd::prelude::*;

verus! {

/// Engine-internal recompute cadences and iteration caps.
#[derive(Debug, Clone)]
pub struct SignalEngineConfig {
    /// Recompute the k-means ATR centroids every this many bars.
    pub kmeans_recompute_bars: usize,
    /// Maximum Lloyd iterations per k-means fit.
    pub kmeans_max_iters: usize,
    /// Recompute the Hurst exponent every this many bars.
    pub hurst_recompute_bars: usize,
}

impl Default for SignalEngineConfig {
    fn default() -> (r: Self)
        ensures
            r.kmeans_recompute_bars == 10,
            r.kmeans_max_iters == 100,
            r.hurst_recompute_bars == 10,
    {
        SignalEngineConfig { kmeans_recompute_bars: 10, kmeans_max_iters: 100, hurst_recompute_bars: 10 }
    }
}

/// Periods of the multi-series batch calculator (fast EMA, slow EMA, ATR).
#[derive(Debug, Clone)]
pub struct IndicatorCalculator {
    pub fast_ema_period: usize,
    pub slow_ema_period: usize,
    pub atr_period: usize,
}

impl Default for IndicatorCalculator {
    fn default() -> (r: Self)
        ensures
            r.fast_ema_period == 8,
            r.slow_ema_period == 21,
            r.atr_period == 14,
    {
        IndicatorCalculator { fast_ema_period: 8, slow_ema_period: 21, atr_period: 14 }
    }
}

impl IndicatorCalculator {
    pub fn new(fast_ema: usize, slow_ema: usize, atr_period: usize) -> (r: Self)
        ensures
            r.fast_ema_period == fast_ema,
            r.slow_ema_period == slow_ema,
            r.atr_period == atr_period,
    {
        IndicatorCalculator { fast_ema_period: fast_ema, slow_ema_period: slow_ema, atr_period }
    }
}

} // verus!
