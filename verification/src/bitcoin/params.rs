//! The constants that tell the coins of the Bitcoin family apart.

use vstd::prelude::*;

use crate::bip32::HARDENED;
use crate::pb::BtcCoin;

verus! {

/// Parameters of a coin of the Bitcoin family.
#[derive(Clone, Copy, Debug)]
pub struct Params {
    /// The coin's element in a keypath, hardened.
    pub bip44_coin: u32,
    /// The version byte of a pay-to-pubkey-hash address.
    pub base58_version_p2pkh: u8,
    /// The version byte of a pay-to-script-hash address.
    pub base58_version_p2sh: u8,
    /// The human-readable part of a bech32 address.
    pub bech32_hrp: &'static str,
    pub name: &'static str,
    pub unit: &'static str,
    /// Whether the user may mark a transaction as replaceable.
    pub rbf_support: bool,
}

/// The parameters of each coin.
pub open spec fn params_of(coin: BtcCoin) -> Params {
    match coin {
        BtcCoin::Btc => Params {
            bip44_coin: HARDENED,
            base58_version_p2pkh: 0x00,
            base58_version_p2sh: 0x05,
            bech32_hrp: "bc",
            name: "Bitcoin",
            unit: "BTC",
            rbf_support: true,
        },
        BtcCoin::Tbtc => Params {
            bip44_coin: (1 + HARDENED) as u32,
            base58_version_p2pkh: 0x6f,
            base58_version_p2sh: 0xc4,
            bech32_hrp: "tb",
            name: "BTC Testnet",
            unit: "TBTC",
            rbf_support: true,
        },
        BtcCoin::Ltc => Params {
            bip44_coin: (2 + HARDENED) as u32,
            base58_version_p2pkh: 0x30,
            base58_version_p2sh: 0x32,
            bech32_hrp: "ltc",
            name: "Litecoin",
            unit: "LTC",
            rbf_support: false,
        },
        BtcCoin::Tltc => Params {
            bip44_coin: (1 + HARDENED) as u32,
            base58_version_p2pkh: 0x6f,
            base58_version_p2sh: 0xc4,
            bech32_hrp: "tltc",
            name: "LTC Testnet",
            unit: "TLTC",
            rbf_support: false,
        },
    }
}

/// The parameters of `coin`.
pub fn get(coin: BtcCoin) -> (params: &'static Params)
    ensures
        *params == params_of(coin),
{
    match coin {
        BtcCoin::Btc => &Params {
            bip44_coin: HARDENED,
            base58_version_p2pkh: 0x00,
            base58_version_p2sh: 0x05,
            bech32_hrp: "bc",
            name: "Bitcoin",
            unit: "BTC",
            rbf_support: true,
        },
        BtcCoin::Tbtc => &Params {
            bip44_coin: 1 + HARDENED,
            base58_version_p2pkh: 0x6f,
            base58_version_p2sh: 0xc4,
            bech32_hrp: "tb",
            name: "BTC Testnet",
            unit: "TBTC",
            rbf_support: true,
        },
        BtcCoin::Ltc => &Params {
            bip44_coin: 2 + HARDENED,
            base58_version_p2pkh: 0x30,
            base58_version_p2sh: 0x32,
            bech32_hrp: "ltc",
            name: "Litecoin",
            unit: "LTC",
            rbf_support: false,
        },
        BtcCoin::Tltc => &Params {
            bip44_coin: 1 + HARDENED,
            base58_version_p2pkh: 0x6f,
            base58_version_p2sh: 0xc4,
            bech32_hrp: "tltc",
            name: "LTC Testnet",
            unit: "TLTC",
            rbf_support: false,
        },
    }
}

} // verus!
