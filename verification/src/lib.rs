//! Core of an arbitrage-opportunity detection and risk-scoring pipeline.
//!
//! The library ingests point-in-time market snapshots (price, volume and
//! liquidity per exchange and trading pair), detects cross-exchange price
//! discrepancies, scores each candidate with a deterministic rule-based
//! risk model, filters by configurable thresholds and assembles time-bounded
//! opportunity records. All monetary quantities and ratios are fixed-point
//! integers in micro-units (one unit equals 1,000,000 micro-units), so that
//! every arithmetic step is exact and verified.
//!
//! Fetching snapshots, persisting records and publishing them are I/O owned
//! by the surrounding application; the library receives plain values and
//! returns plain values.

pub mod config;
pub mod detector;
pub mod errors;
pub mod model;
pub mod pipeline;
pub mod risk;
