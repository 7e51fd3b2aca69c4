//! Bonding-curve token issuance: fixed-point prices, the constant-price
//! curve, and the market ledger with its trading state machine.

pub mod safe_number;
pub mod curve;
pub mod error;
pub mod validate;
pub mod params;
pub mod config;
pub mod bounding_curve;
pub mod methods;
pub mod mint;
pub mod position;
pub mod events;
pub mod laws;
