//! A leveled enhancement mechanic: an actor repeatedly attempts to raise an
//! integer level, and each attempt succeeds, fails silently, or regresses the
//! level (by one, by half, or to zero).
//!
//! The crate derives, from a small parameter record, the full outcome
//! distribution at every level; steps a population of independent actors
//! through that distribution until all reach the maximum level; and
//! aggregates the per-actor first-arrival histories into per-level
//! statistics. Probabilities are exact fixed-point fractions over
//! [`params::RATE_SCALE`], so every derivation is deterministic and verified.

pub mod aggregate;
pub mod params;
pub mod rates;
pub mod simulation;
pub mod transition;
