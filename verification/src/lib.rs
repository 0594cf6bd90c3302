//! Event-driven market-microstructure features: a sequenced limit order book,
//! book imbalance measures, information-driven imbalance bars with an adaptive
//! threshold, and the per-source merge step that turns each venue event into
//! one feature record. All quantities are fixed-point decimals with eight
//! fractional digits, held in integers.

pub mod arith;
pub mod bar;
pub mod bar_manager;
pub mod batch;
pub mod book;
pub mod config;
pub mod data;
pub mod decay;
pub mod fixed;
pub mod ladder;
pub mod market_state;
pub mod orderbook;
pub mod source;
pub mod stream;
pub mod trade;
