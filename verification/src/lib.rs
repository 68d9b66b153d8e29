//! A terminal-oriented cryptocurrency swap workflow: a static asset and
//! provider catalog, a fixed-point quote engine, a staged input state
//! machine, and a deterministic summary formatter. All amounts are
//! fixed-point decimals with eight fractional digits; no floating point
//! is used anywhere in the library.

pub mod catalog;
pub mod error;
pub mod fixed;
pub mod laws;
pub mod quote;
pub mod summary;
pub mod text;
pub mod workflow;
