//! Indicator metadata kinds used by the chart catalog.

use vstd::prelude::*;

verus! {

/// Where an indicator is drawn on a chart.
#[derive(Debug, Clone, Copy, PartialEq, Eq, Structural)]
pub enum IndicatorCategory {
    /// Drawn on the price pane, on the price scale.
    Overlay,
    /// Drawn in its own pane, on its own scale.
    Oscillator,
}

/// The numeric type of a tunable parameter.
#[derive(Debug, Clone, Copy, PartialEq, Eq, Structural)]
pub enum ParamKind {
    /// A whole-number parameter (a period, a smoothing length, ...).
    Integer,
    /// A real-valued parameter (a multiplier, a standard-deviation count, ...).
    Float,
}

} // verus!
