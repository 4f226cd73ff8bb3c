//! The messages that the host and the device exchange.

use vstd::prelude::*;

verus! {

/// The coins of the Bitcoin family.
#[derive(Clone, Copy, Debug, PartialEq, Eq, Structural)]
pub enum BtcCoin {
    Btc,
    Tbtc,
    Ltc,
    Tltc,
}

/// The Ethereum networks. A request names one by its number, counted from
/// zero in the order written here.
#[derive(Clone, Copy, Debug, PartialEq, Eq, Structural)]
pub enum EthCoin {
    Eth,
    RopstenEth,
    RinkebyEth,
}

impl EthCoin {
    /// The number that stands for the network in a request.
    pub open spec fn number(self) -> int {
        match self {
            EthCoin::Eth => 0,
            EthCoin::RopstenEth => 1,
            EthCoin::RinkebyEth => 2,
        }
    }

    /// The network that `value` stands for, if there is one.
    pub fn from_i32(value: i32) -> (coin: Option<EthCoin>)
        ensures
            match coin {
                Some(c) => c.number() == value,
                None => value < 0 || value > 2,
            },
    {
        if value == 0 {
            Some(EthCoin::Eth)
        } else if value == 1 {
            Some(EthCoin::RopstenEth)
        } else if value == 2 {
            Some(EthCoin::RinkebyEth)
        } else {
            None
        }
    }
}

/// The host's commitment to its share of the signing nonce.
#[derive(Clone, Debug, Default, PartialEq, Eq)]
pub struct AntiKleptoHostNonceCommitment {
    pub commitment: Vec<u8>,
}

/// A request to sign a transaction. The numbers are big-endian and have no
/// leading zero byte; an empty `value` stands for zero.
#[derive(Clone, Debug, Default, PartialEq, Eq)]
pub struct EthSignRequest {
    pub coin: i32,
    pub keypath: Vec<u32>,
    pub nonce: Vec<u8>,
    pub gas_price: Vec<u8>,
    pub gas_limit: Vec<u8>,
    pub recipient: Vec<u8>,
    pub value: Vec<u8>,
    pub data: Vec<u8>,
    pub host_nonce_commitment: Option<AntiKleptoHostNonceCommitment>,
}

/// What a request holds, as mathematical values.
pub struct EthSignRequestView {
    pub coin: int,
    pub keypath: Seq<u32>,
    pub nonce: Seq<u8>,
    pub gas_price: Seq<u8>,
    pub gas_limit: Seq<u8>,
    pub recipient: Seq<u8>,
    pub value: Seq<u8>,
    pub data: Seq<u8>,
    pub host_nonce_commitment: Option<Seq<u8>>,
}

impl View for EthSignRequest {
    type V = EthSignRequestView;

    open spec fn view(&self) -> EthSignRequestView {
        EthSignRequestView {
            coin: self.coin as int,
            keypath: self.keypath@,
            nonce: self.nonce@,
            gas_price: self.gas_price@,
            gas_limit: self.gas_limit@,
            recipient: self.recipient@,
            value: self.value@,
            data: self.data@,
            host_nonce_commitment: match self.host_nonce_commitment {
                Some(c) => Some(c.commitment@),
                None => None,
            },
        }
    }
}

/// The signature of a transaction: 64 bytes, then the recovery identifier.
#[derive(Clone, Debug, PartialEq, Eq)]
pub struct EthSignResponse {
    pub signature: Vec<u8>,
}

/// What the device answers to a request.
#[derive(Clone, Debug, PartialEq, Eq)]
pub enum Response {
    Sign(EthSignResponse),
}

/// What a response holds, as mathematical values.
pub enum ResponseView {
    Sign { signature: Seq<u8> },
}

impl View for Response {
    type V = ResponseView;

    open spec fn view(&self) -> ResponseView {
        match self {
            Response::Sign(r) => ResponseView::Sign { signature: r.signature@ },
        }
    }
}

} // verus!
