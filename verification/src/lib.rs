//! Discrete decision logic of a technical-analysis library: candle status codes,
//! EMA trend bookkeeping, trade actions, tick bucketing, bounded windows and
//! smart-money-concept structure tracking.

pub mod signals;
pub mod trend;
pub mod codes;
pub mod actions;
pub mod ticks;
pub mod window;
pub mod summary;
pub mod config;
pub mod smc;
pub mod phases;
