//! Request handling for a hardware wallet: per-coin parameters and the
//! checks and confirmations that precede an Ethereum signature.
//!
//! The crate performs no I/O. Whatever needs the screen, the key store or
//! the host is handed to the caller as an [`ethereum::sign::Action`], and the
//! caller reports back with an [`ethereum::sign::Event`].

pub mod bip32;
pub mod bitcoin;
pub mod error;
pub mod ethereum;
pub mod pb;
pub mod text;
pub mod workflow;
