//! What the device knows of a network and of a token. The tables themselves
//! are kept by the caller, who looks a request's coin and recipient up in
//! them before the request is processed.

use vstd::prelude::*;

verus! {

/// Parameters of an Ethereum network.
#[derive(Clone, Copy, Debug)]
pub struct Params {
    /// The network's element in a keypath, hardened.
    pub bip44_coin: u32,
    pub chain_id: u8,
    /// The unit of the network's own coin.
    pub unit: &'static str,
    pub name: &'static str,
}

/// Parameters of a token contract.
#[derive(Clone, Copy, Debug)]
pub struct Erc20Params {
    pub unit: &'static str,
    /// How many decimal places of the smallest unit make one token.
    pub decimals: u8,
}

} // verus!
