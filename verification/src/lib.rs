//! Verified core of a marketplace for redeemable codes: the purchase and
//! escrow state machine, reputation scoring, rate limiting, duplicate
//! detection and access control for purchased secrets.

pub mod cache;
pub mod clock;
pub mod decimal;
pub mod duplicate_detector;
pub mod error;
pub mod ids;
pub mod model;
pub mod query;
pub mod rate_limiter;
pub mod reputation;
pub mod service;
pub mod text;
pub mod transaction;
pub mod vault;
