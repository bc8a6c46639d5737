//! Momentum indicators: RSI, stochastics, Williams %R and the Schaff Trend
//! Cycle.

pub mod rsi;
pub mod schaff_trend_cycle;
pub mod stochastic;
pub mod stochastic_rsi;
pub mod williams_r;

pub use rsi::{Rsi, RsiParams};
pub use schaff_trend_cycle::{SchaffTrendCycle, StcParams};
pub use stochastic::{StochParams, Stochastic};
pub use stochastic_rsi::{StochRsiParams, StochasticRsi};
pub use williams_r::{WilliamsR, WrParams};
