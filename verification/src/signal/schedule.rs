//! The indicator engine's bar-count decisions: when the SuperTrend layer is
//! ready, when the price-acceleration layer has enough closes, and when the
//! k-means centroids and the Hurst exponent are refitted.

use vstd::prelude::*;

verus! {

/// Bars between the two velocities the price-acceleration layer compares.
pub const ACCEL_LAG: usize = 3;

/// The SuperTrend layer (and so the engine) is ready once `training_period`
/// closes are held.
pub fn supertrend_ready(closes: usize, training_period: usize) -> (r: bool)
    ensures
        r == (closes >= training_period),
{
    closes >= training_period
}

/// The price-acceleration layer needs more than two lags of closes.
pub fn accel_ready(closes: usize) -> (r: bool)
    ensures
        r == (closes > 2 * ACCEL_LAG),
{
    closes > 2 * ACCEL_LAG
}

/// The k-means centroids are refitted when none have been fitted yet, or
/// when `every` bars have passed since the last fit.
pub fn centroids_due(fitted: bool, bar: usize, last_fit: usize, every: usize) -> (r: bool)
    requires
        fitted ==> last_fit <= bar,
    ensures
        r == (!fitted || bar - last_fit >= every),
{
    !fitted || bar - last_fit >= every
}

/// The Hurst exponent is refitted when `2 * lookback + 1` closes are held
/// and `every` bars have passed since the last fit.
pub fn hurst_due(closes: usize, lookback: usize, bar: usize, last_fit: usize, every: usize) -> (r:
    bool)
    requires
        2 * lookback + 1 <= usize::MAX,
        closes >= 2 * lookback + 1 ==> last_fit <= bar,
    ensures
        r == (closes >= 2 * lookback + 1 && bar - last_fit >= every),
{
    let min_bars = lookback * 2 + 1;
    if closes < min_bars {
        false
    } else {
        bar - last_fit >= every
    }
}

} // verus!
