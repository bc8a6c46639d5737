//! Market-regime detection: batch wrappers of the detectors' indicator
//! primitives. The regime classes themselves live in [`crate::types`].

pub mod primitives;

pub use primitives::{AdxIndicator, AtrPrimIndicator, EmaPrimIndicator, RsiPrimIndicator};
