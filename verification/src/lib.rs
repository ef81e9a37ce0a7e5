//! Risk/return analytics core of an event-driven trading simulator.
//!
//! The library ingests market-price and portfolio-state observations,
//! maintains aligned, append-only time series, and derives the structural
//! parts of the usual risk statistics: input validation, running peaks,
//! drawdown episodes, downside detection, series alignment, the render
//! memoization policy, and the ingestion state machine.
//!
//! Numeric observations are carried as IEEE-754 binary64 bit patterns
//! (`u64`), which keeps every decision the library makes — validity of a
//! value, comparisons between positive values, episode boundaries — a pure
//! function of the bits. The host process performs the floating-point
//! arithmetic (returns, ratios, standardization) and the actual drawing,
//! and feeds plain values back in.

pub mod engine;
pub mod events;
pub mod fp;
pub mod history;
pub mod metrics;
pub mod render;
