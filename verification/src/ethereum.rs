//! Signing of Ethereum transactions.

pub mod address;
pub mod amount;
pub mod bigint;
pub mod keypath;
pub mod laws;
pub mod params;
pub mod sign;
