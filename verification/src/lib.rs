//! A micro-benchmark of JSON serialization strategies.
//!
//! The benchmark repeatedly serializes one fixed single-field record through
//! several serialization libraries, validates every produced buffer against
//! the canonical encoding, accumulates the byte totals over a wall-clock
//! budget, and formats the resulting throughput lines.

pub mod json;
pub mod record;
pub mod clock;
pub mod strategies;
pub mod harness;
pub mod report;
pub mod config;
