//! Trend indicators: moving averages, MACD, ATR and the regression slope.

pub mod atr;
pub mod linear_regression;
pub mod macd;
pub mod sma;
pub mod wma;

pub use atr::{Atr, AtrMethod, AtrParams};
pub use linear_regression::{LinearRegression, LrParams};
pub use macd::{Macd, MacdParams};
pub use sma::{Sma, SmaParams};
pub use wma::{Wma, WmaParams};
