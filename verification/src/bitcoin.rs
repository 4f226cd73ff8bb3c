//! The coins of the Bitcoin family.

pub mod params;
