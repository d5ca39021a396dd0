//! Quantitative core of a trading agent: indicators over candle series,
//! adaptive position risk, take-profit ladders with trailing stops,
//! performance statistics and the kill-switch policy.
use vstd::prelude::*;

pub mod fixed;
pub mod types;
pub mod risk;
pub mod take_profit;
pub mod metrics;
pub mod policy;
pub mod intelligence;
pub mod entry;
pub mod news;
pub mod health;
pub mod exchange;

verus! {

/// Errors raised by the calculators of this library.
#[derive(Debug, Clone, Copy, PartialEq, Eq, Structural)]
pub enum TradingError {
    /// An argument outside what the calculation accepts.
    InvalidInput,
    /// A configuration whose thresholds contradict each other.
    ConfigurationError,
}

} // verus!
