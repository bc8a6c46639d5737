//! The signal pipeline: per-layer votes, their combination, the streak
//! filter that confirms a combined signal, and the layers' parameters.

pub mod aggregator;
pub mod confluence;
pub mod cvd;
pub mod liquidity;
pub mod schedule;
pub mod structure;
pub mod vol_regime;

pub use aggregator::{LayerVotes, SignalMode, SignalStreak};
pub use cvd::{CvdIndicator, CvdParams};
pub use liquidity::{LiquidityIndicator, LiquidityParams};
pub use vol_regime::{VolumeRegime, VolumeRegimeParams};
