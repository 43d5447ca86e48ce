//! A policy and authorization engine that gates privileged actions behind
//! role membership and oracle-supplied decision attestations (a confidence
//! score and a risk score), records a tamper-evident audit trail, and
//! enforces configurable numeric thresholds.

pub mod audit;
pub mod bytes;
pub mod engine;
pub mod laws;
pub mod params;
pub mod roles;
pub mod types;
