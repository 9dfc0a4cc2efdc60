//! Channel-aware app metadata resolution: per-channel session registry,
//! channel eligibility policy and multi-channel aggregation.
pub mod channel;
pub mod error;
pub mod resolve_error;
pub mod session;
pub mod registry;
pub mod resolve;
pub mod manager;
