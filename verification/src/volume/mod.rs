//! Volume indicators.

pub mod adl;
pub mod chaikin_money_flow;
pub mod vwap;
pub mod vzo;

pub use adl::Adl;
pub use chaikin_money_flow::{ChaikinMoneyFlow, CmfParams};
pub use vwap::{Vwap, VwapParams};
pub use vzo::VolumeZoneOscillator;
