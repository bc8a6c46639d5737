//! Volatility and cycle indicators.

pub mod choppiness_index;
pub mod elder_ray_index;
pub mod market_cycle;

pub use choppiness_index::{ChopParams, ChoppinessIndex};
pub use elder_ray_index::{ElderRayIndex, ElderRayParams};
pub use market_cycle::{CyclePhase, MarketCycle, MarketCycleParams};
