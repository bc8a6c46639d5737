//! Market-regime classification and the strategy each regime recommends.

use vstd::prelude::*;

verus! {

/// Direction of a trending market.
#[derive(Debug, Clone, Copy, PartialEq, Eq, Hash, Structural)]
pub enum TrendDirection {
    Bullish,
    Bearish,
}

/// Regime classification produced by the regime detectors.
#[derive(Debug, Clone, Copy, PartialEq, Eq, Hash, Structural)]
pub enum MarketRegime {
    /// Strong directional move — use trend-following.
    Trending(TrendDirection),
    /// Price oscillating around a mean — use mean reversion.
    MeanReverting,
    /// High volatility, no clear direction — reduce exposure.
    Volatile,
    /// Insufficient data or unclear signals.
    Uncertain,
}

/// The trading approach suited to a regime.
#[derive(Debug, Clone, Copy, PartialEq, Eq, Hash, Structural)]
pub enum RecommendedStrategy {
    TrendFollowing,
    MeanReversion,
    ReducedExposure,
    StayCash,
}

/// Regimes in which the library recommends taking positions.
pub open spec fn tradeable(r: MarketRegime) -> bool {
    r is Trending || r is MeanReverting
}

/// The strategy table: Trending → trend following, MeanReverting → mean
/// reversion, Volatile → reduced exposure, Uncertain → stay in cash.
pub open spec fn strategy_for(r: MarketRegime) -> RecommendedStrategy {
    match r {
        MarketRegime::Trending(_) => RecommendedStrategy::TrendFollowing,
        MarketRegime::MeanReverting => RecommendedStrategy::MeanReversion,
        MarketRegime::Volatile => RecommendedStrategy::ReducedExposure,
        MarketRegime::Uncertain => RecommendedStrategy::StayCash,
    }
}

pub open spec fn regime_label(r: MarketRegime) -> Seq<char> {
    match r {
        MarketRegime::Trending(TrendDirection::Bullish) => "Trending (Bullish)"@,
        MarketRegime::Trending(TrendDirection::Bearish) => "Trending (Bearish)"@,
        MarketRegime::MeanReverting => "Mean-Reverting"@,
        MarketRegime::Volatile => "Volatile/Choppy"@,
        MarketRegime::Uncertain => "Uncertain"@,
    }
}

pub open spec fn direction_label(d: TrendDirection) -> Seq<char> {
    match d {
        TrendDirection::Bullish => "Bullish"@,
        TrendDirection::Bearish => "Bearish"@,
    }
}

pub open spec fn strategy_label(s: RecommendedStrategy) -> Seq<char> {
    match s {
        RecommendedStrategy::TrendFollowing => "Trend Following"@,
        RecommendedStrategy::MeanReversion => "Mean Reversion"@,
        RecommendedStrategy::ReducedExposure => "Reduced Exposure"@,
        RecommendedStrategy::StayCash => "Stay Cash"@,
    }
}

impl Default for MarketRegime {
    /// The regime before any evidence: `Uncertain`.
    fn default() -> (r: Self)
        ensures
            r == MarketRegime::Uncertain,
    {
        MarketRegime::Uncertain
    }
}

impl MarketRegime {
    /// Whether positions should be taken in this regime.
    pub fn is_tradeable(&self) -> (r: bool)
        ensures
            r == tradeable(*self),
    {
        matches!(self, MarketRegime::Trending(_) | MarketRegime::MeanReverting)
    }

    /// The strategy this regime recommends.
    pub fn recommended_strategy(&self) -> (r: RecommendedStrategy)
        ensures
            r == strategy_for(*self),
    {
        RecommendedStrategy::from_regime(self)
    }

    /// Display text of the regime, e.g. `"Trending (Bullish)"`.
    pub fn label(&self) -> (r: &'static str)
        ensures
            r@ == regime_label(*self),
    {
        match self {
            MarketRegime::Trending(TrendDirection::Bullish) => "Trending (Bullish)",
            MarketRegime::Trending(TrendDirection::Bearish) => "Trending (Bearish)",
            MarketRegime::MeanReverting => "Mean-Reverting",
            MarketRegime::Volatile => "Volatile/Choppy",
            MarketRegime::Uncertain => "Uncertain",
        }
    }
}

impl TrendDirection {
    /// Display text of the direction.
    pub fn label(&self) -> (r: &'static str)
        ensures
            r@ == direction_label(*self),
    {
        match self {
            TrendDirection::Bullish => "Bullish",
            TrendDirection::Bearish => "Bearish",
        }
    }
}

impl RecommendedStrategy {
    /// The strategy recommended for `regime`.
    pub fn from_regime(regime: &MarketRegime) -> (r: RecommendedStrategy)
        ensures
            r == strategy_for(*regime),
    {
        match regime {
            MarketRegime::Trending(_) => RecommendedStrategy::TrendFollowing,
            MarketRegime::MeanReverting => RecommendedStrategy::MeanReversion,
            MarketRegime::Volatile => RecommendedStrategy::ReducedExposure,
            MarketRegime::Uncertain => RecommendedStrategy::StayCash,
        }
    }

    /// Display text of the strategy, e.g. `"Trend Following"`.
    pub fn label(&self) -> (r: &'static str)
        ensures
            r@ == strategy_label(*self),
    {
        match self {
            RecommendedStrategy::TrendFollowing => "Trend Following",
            RecommendedStrategy::MeanReversion => "Mean Reversion",
            RecommendedStrategy::ReducedExposure => "Reduced Exposure",
            RecommendedStrategy::StayCash => "Stay Cash",
        }
    }
}

/// A trending market is traded by following the trend whichever way it
/// runs: the strategy of a trending regime does not depend on its direction,
/// and no other regime recommends trend following.
pub proof fn lemma_trend_following_iff_trending(r: MarketRegime, d: TrendDirection)
    ensures
        strategy_for(MarketRegime::Trending(d)) == RecommendedStrategy::TrendFollowing,
        strategy_for(MarketRegime::Trending(TrendDirection::Bullish)) == strategy_for(
            MarketRegime::Trending(TrendDirection::Bearish),
        ),
        (strategy_for(r) == RecommendedStrategy::TrendFollowing) <==> (r is Trending),
{
}

/// A regime is tradeable exactly when its recommended strategy takes
/// positions (trend following or mean reversion); the other two regimes
/// recommend reduced exposure or cash.
pub proof fn lemma_tradeable_iff_active_strategy(r: MarketRegime)
    ensures
        tradeable(r) <==> (strategy_for(r) == RecommendedStrategy::TrendFollowing
            || strategy_for(r) == RecommendedStrategy::MeanReversion),
        !tradeable(r) <==> (strategy_for(r) == RecommendedStrategy::ReducedExposure
            || strategy_for(r) == RecommendedStrategy::StayCash),
{
}

} // verus!
