//! Technical-analysis indicator library: parameter handling, indicator
//! metadata, signal confirmation and aggregation, market-regime
//! classification and calendar arithmetic, each with a verified contract.

pub mod text;
pub mod error;
pub mod types;
pub mod indicator;
pub mod registry;
pub mod calendar;
pub mod signal;
pub mod trend;
pub mod momentum;
pub mod volatility;
pub mod volume;
pub mod regime;
pub mod lint;
pub mod config;
pub mod descriptor;
