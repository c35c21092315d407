//! Stochastic generation and market-matching engine for an economic
//! simulation: weighted-random sampling primitives, per-entity attribute
//! generators for people and businesses, a per-product demand ledger, and
//! affordability and balance-transfer rules.
//!
//! Monetary quantities are fixed-point integers in thousandths of a currency
//! unit ("milli"); percentages are fixed-point integers whose scale each
//! function documents. All randomness flows through an explicitly passed
//! [`rng::RandomSource`], so a run is reproducible given a fixed seed and a
//! fixed draw order.

pub mod business;
pub mod config;
pub mod fixed;
pub mod person;
pub mod rng;
pub mod sampling;
