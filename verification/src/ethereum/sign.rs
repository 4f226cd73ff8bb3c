//! Checking a request to sign a transaction, and what the user is asked to
//! confirm before it is signed.

use vstd::prelude::*;
use vstd::slice::slice_subrange;
use vstd::string::StringExecFns;

use num_bigint::BigUint;

use crate::error::Error;
use crate::ethereum::address::{address_text, from_pubkey_hash};
use crate::ethereum::amount::{format_amount, Amount};
use crate::ethereum::bigint::{be_value, biguint_add, biguint_mul, biguint_value};
use crate::ethereum::keypath::{
    is_valid_keypath_address, unusual_keypath, unusual_keypath_warning, valid_keypath_address,
    warn_unusual_keypath,
};
use crate::ethereum::params::{Erc20Params, Params};
use crate::pb::{EthSignRequest, EthSignRequestView, EthSignResponse, Response, ResponseView};
use crate::text::{hex_encode, hex_string};
use crate::workflow::{prompt_views, ConfirmParams, ConfirmParamsView, Prompt, PromptView};

verus! {

/// One coin of a network is `10^18` of its smallest unit.
pub const WEI_DECIMALS: usize = 18;

/// Whether every byte is zero.
pub open spec fn all_zero(bytes: Seq<u8>) -> bool {
    forall|i: int| 0 <= i < bytes.len() ==> bytes[i] == 0
}

/// A big-endian number is canonical if it does not begin with a zero byte.
pub open spec fn canonical(number: Seq<u8>) -> bool {
    number.len() == 0 || number[0] != 0
}

/// What a request must meet before the user is asked anything: the network
/// is known, the keypath is that of an address, no field is longer than it
/// may be, the numbers are canonical, and the recipient is an address other
/// than zero.
pub open spec fn valid_request(request: EthSignRequestView, params: Option<Params>) -> bool {
    &&& params is Some
    &&& valid_keypath_address(request.keypath)
    &&& request.nonce.len() <= 16
    &&& request.gas_price.len() <= 16
    &&& request.gas_limit.len() <= 16
    &&& request.value.len() <= 32
    &&& request.data.len() <= 1024
    &&& canonical(request.nonce)
    &&& canonical(request.gas_price)
    &&& canonical(request.gas_limit)
    &&& canonical(request.value)
    &&& request.recipient.len() == 20
    &&& !all_zero(request.recipient)
}

/// The first four bytes of a call of a token contract's transfer method.
pub open spec fn erc20_transfer_selector() -> Seq<u8> {
    seq![0xa9u8, 0x05u8, 0x9cu8, 0xbbu8]
}

/// Whether a request is a transfer of tokens: it sends no coins, and its
/// data is a call of the transfer method with a recipient of 20 bytes,
/// padded with zeros to 32, and a value of 32 bytes that is not zero.
pub open spec fn is_erc20_transfer(request: EthSignRequestView) -> bool {
    &&& request.value.len() == 0
    &&& request.data.len() == 68
    &&& request.data.subrange(0, 4) == erc20_transfer_selector()
    &&& all_zero(request.data.subrange(4, 16))
    &&& !all_zero(request.data.subrange(36, 68))
}

/// What kind of transaction a request asks for.
pub enum Classification {
    /// A transfer of coins, with or without data for a contract.
    StandardTransfer,
    /// A transfer of `value` smallest units of a token to `recipient`.
    TokenTransfer { recipient: Seq<u8>, value: nat },
}

/// The kind of a request. Data that is not exactly a token transfer is not
/// interpreted: the transaction is then a standard one.
pub open spec fn classify(request: EthSignRequestView) -> Classification {
    if is_erc20_transfer(request) {
        Classification::TokenTransfer {
            recipient: request.data.subrange(16, 36),
            value: be_value(request.data.subrange(36, 68)),
        }
    } else {
        Classification::StandardTransfer
    }
}

/// The fee in the smallest unit: gas limit times gas price.
pub open spec fn fee_value(request: EthSignRequestView) -> nat {
    be_value(request.gas_price) * be_value(request.gas_limit)
}

/// The fee as shown to the user, in the network's own coin.
pub open spec fn fee_text(request: EthSignRequestView, params: Params) -> Seq<char> {
    format_amount(fee_value(request), WEI_DECIMALS as nat, params.unit@)
}

/// A warning that the user accepts by going on to the next screen.
pub open spec fn warning(title: Seq<char>, body: Seq<char>) -> PromptView {
    PromptView::Confirm(
        ConfirmParamsView {
            title,
            body,
            scrollable: false,
            accept_is_nextarrow: true,
            display_size: 0,
        },
    )
}

/// What is shown for data that is not a token transfer: two warnings, then
/// the data in hexadecimal notation. Nothing is shown for empty data.
pub open spec fn data_prompts(data: Seq<u8>) -> Seq<PromptView> {
    if data.len() == 0 {
        Seq::empty()
    } else {
        seq![
            warning("Unknown\ncontract"@, "You will be shown\nthe raw\ntransaction data."@),
            warning(
                "Unknown\ncontract"@,
                "Only proceed if you\nunderstand exactly\nwhat the data means."@,
            ),
            PromptView::Confirm(
                ConfirmParamsView {
                    title: "Transaction\ndata"@,
                    body: hex_string(data),
                    scrollable: true,
                    accept_is_nextarrow: true,
                    display_size: data.len(),
                },
            ),
        ]
    }
}

/// The confirmations of a standard transaction: what `data_prompts` gives,
/// then the recipient with the value sent, then the total of value and fee
/// with the fee. A transaction that sends nothing and calls nothing is
/// refused, and so is one whose recipient is not an address.
pub open spec fn standard_prompts(request: EthSignRequestView, params: Params) -> Result<
    Seq<PromptView>,
    Error,
> {
    if request.data.len() == 0 && request.value.len() == 0 {
        Err(Error::InvalidInput)
    } else if request.recipient.len() != 20 {
        Err(Error::InvalidInput)
    } else {
        let value = be_value(request.value);
        Ok(
            data_prompts(request.data) + seq![
                PromptView::Recipient {
                    address: address_text(request.recipient),
                    amount: format_amount(value, WEI_DECIMALS as nat, params.unit@),
                },
                PromptView::TotalFee {
                    total: format_amount(
                        value + fee_value(request),
                        WEI_DECIMALS as nat,
                        params.unit@,
                    ),
                    fee: fee_text(request, params),
                },
            ],
        )
    }
}

/// The confirmations of a token transfer: the recipient with the amount of
/// tokens, then the total with the fee. The fee is in the network's coin and
/// not in tokens, so the total is the amount of tokens again. Of a token
/// that is not known neither unit nor decimal places are known: fixed texts
/// take the place of amount and total.
pub open spec fn erc20_prompts(
    request: EthSignRequestView,
    params: Params,
    erc20_params: Option<Erc20Params>,
    erc20_recipient: Seq<u8>,
    erc20_value: nat,
) -> Result<Seq<PromptView>, Error> {
    if request.recipient.len() != 20 {
        Err(Error::InvalidInput)
    } else {
        let (amount, total) = match erc20_params {
            Some(token) => {
                let text = format_amount(erc20_value, token.decimals as nat, token.unit@);
                (text, text)
            },
            None => ("Unknown token"@, "Unknown amount"@),
        };
        Ok(
            seq![
                PromptView::Recipient { address: address_text(erc20_recipient), amount },
                PromptView::TotalFee { total, fee: fee_text(request, params) },
            ],
        )
    }
}

/// Whether every byte of `bytes` is zero.
fn is_all_zero(bytes: &[u8]) -> (zero: bool)
    ensures
        zero == all_zero(bytes@),
{
    let mut i: usize = 0;
    while i < bytes.len()
        invariant
            i <= bytes@.len(),
            forall|j: int| 0 <= j < i ==> bytes@[j] == 0,
        decreases bytes@.len() - i,
    {
        if bytes[i] != 0 {
            return false;
        }
        i += 1;
    }
    true
}

/// Whether a big-endian number begins with a zero byte.
fn has_zero_prefix(number: &Vec<u8>) -> (prefixed: bool)
    ensures
        prefixed == !canonical(number@),
{
    number.len() > 0 && number[0] == 0
}

/// Converts `recipient` to an array of 20 bytes, or fails with
/// `InvalidInput` if it does not hold exactly 20.
pub fn parse_recipient(recipient: &[u8]) -> (r: Result<[u8; 20], Error>)
    ensures
        match r {
            Ok(address) => recipient@.len() == 20 && address@ == recipient@,
            Err(e) => recipient@.len() != 20 && e == Error::InvalidInput,
        },
{
    if recipient.len() != 20 {
        return Err(Error::InvalidInput);
    }
    let mut address = [0u8; 20];
    let mut i: usize = 0;
    while i < 20
        invariant
            i <= 20,
            recipient@.len() == 20,
            forall|j: int| 0 <= j < i ==> address@[j] == recipient@[j],
        decreases 20 - i,
    {
        address[i] = recipient[i];
        i += 1;
    }
    assert(address@ =~= recipient@);
    Ok(address)
}

/// Checks a request before the user is asked anything, and returns its
/// recipient. `params` are the parameters of the request's network, `None`
/// if the network is not known.
pub fn validate(request: &EthSignRequest, params: Option<Params>) -> (r: Result<[u8; 20], Error>)
    ensures
        match r {
            Ok(recipient) => valid_request(request@, params) && recipient@ == request.recipient@,
            Err(e) => !valid_request(request@, params) && e == Error::InvalidInput,
        },
{
    if params.is_none() {
        return Err(Error::InvalidInput);
    }
    if !is_valid_keypath_address(request.keypath.as_slice()) {
        return Err(Error::InvalidInput);
    }
    // Size limits.
    if request.nonce.len() > 16 || request.gas_price.len() > 16 || request.gas_limit.len() > 16
        || request.value.len() > 32 || request.data.len() > 1024 {
        return Err(Error::InvalidInput);
    }
    // No zero prefix in the big-endian numbers.
    if has_zero_prefix(&request.nonce) || has_zero_prefix(&request.gas_price) || has_zero_prefix(
        &request.gas_limit,
    ) || has_zero_prefix(&request.value) {
        return Err(Error::InvalidInput);
    }
    let recipient = match parse_recipient(request.recipient.as_slice()) {
        Ok(recipient) => recipient,
        Err(e) => {
            return Err(e);
        },
    };
    if is_all_zero(recipient.as_slice()) {
        // Reserved for the creation of a contract.
        return Err(Error::InvalidInput);
    }
    Ok(recipient)
}

/// Checks whether the transaction is a transfer of tokens: one that sends no
/// coins and whose data is
/// `<0xa9059cbb><32 bytes recipient><32 bytes value>`,
/// the recipient 20 bytes padded with zeros in front, the value a big-endian
/// number other than zero. Returns the recipient and the value of a transfer
/// of tokens, and `None` for every other transaction.
pub fn parse_erc20(request: &EthSignRequest) -> (r: Option<([u8; 20], BigUint)>)
    ensures
        match r {
            Some((recipient, value)) => classify(request@) == (Classification::TokenTransfer {
                recipient: recipient@,
                value: biguint_value(value),
            }),
            None => classify(request@) == Classification::StandardTransfer,
        },
{
    if request.value.len() != 0 || request.data.len() != 68 {
        return None;
    }
    let data = request.data.as_slice();
    let method = slice_subrange(data, 0, 4);
    let recipient = slice_subrange(data, 4, 36);
    let value = slice_subrange(data, 36, 68);
    if method[0] != 0xa9 || method[1] != 0x05 || method[2] != 0x9c || method[3] != 0xbb {
        assert(erc20_transfer_selector()[0] == 0xa9 && erc20_transfer_selector()[1] == 0x05
            && erc20_transfer_selector()[2] == 0x9c && erc20_transfer_selector()[3] == 0xbb);
        return None;
    }
    assert(method@ =~= erc20_transfer_selector());
    // The recipient must be padded with zeros.
    let padding = slice_subrange(recipient, 0, 12);
    assert(padding@ =~= data@.subrange(4, 16));
    if !is_all_zero(padding) {
        return None;
    }
    // The value sent can't be zero.
    if is_all_zero(value) {
        return None;
    }
    let address = slice_subrange(recipient, 12, 32);
    assert(address@ =~= data@.subrange(16, 36));
    match parse_recipient(address) {
        Ok(address) => Some((address, BigUint::from_bytes_be(value))),
        Err(_) => None,
    }
}

/// The fee: gas limit times gas price, in the network's own coin.
pub fn parse_fee<'a>(request: &EthSignRequest, params: &'a Params) -> (fee: Amount<'a>)
    ensures
        fee.unit@ == params.unit@,
        fee.decimals == WEI_DECIMALS,
        biguint_value(fee.value) == fee_value(request@),
        fee.text() == fee_text(request@, *params),
{
    let gas_price = BigUint::from_bytes_be(request.gas_price.as_slice());
    let gas_limit = BigUint::from_bytes_be(request.gas_limit.as_slice());
    Amount { unit: params.unit, decimals: WEI_DECIMALS, value: biguint_mul(gas_price, gas_limit) }
}

/// A warning that the user accepts by going on to the next screen.
fn warning_prompt(title: &str, body: &str) -> (prompt: Prompt)
    ensures
        prompt@ == warning(title@, body@),
{
    Prompt::Confirm(
        ConfirmParams {
            title: String::from_str(title),
            body: String::from_str(body),
            scrollable: false,
            accept_is_nextarrow: true,
            display_size: 0,
        },
    )
}

/// Lists what the user has to confirm of a transfer of tokens.
///
/// If the token is known, `erc20_params` holds its parameters, and the
/// amount is shown in tokens. If it is not, the recipient and the fee can
/// still be shown, but the amount cannot: how many decimal places it has is
/// a matter of the token's contract.
pub fn verify_erc20_transaction(
    request: &EthSignRequest,
    params: &Params,
    erc20_params: Option<Erc20Params>,
    erc20_recipient: [u8; 20],
    erc20_value: BigUint,
) -> (r: Result<Vec<Prompt>, Error>)
    ensures
        match r {
            Ok(prompts) => erc20_prompts(
                request@,
                *params,
                erc20_params,
                erc20_recipient@,
                biguint_value(erc20_value),
            ) == Ok::<Seq<PromptView>, Error>(prompt_views(prompts@)),
            Err(e) => erc20_prompts(
                request@,
                *params,
                erc20_params,
                erc20_recipient@,
                biguint_value(erc20_value),
            ) == Err::<Seq<PromptView>, Error>(e),
        },
{
    if let Err(e) = parse_recipient(request.recipient.as_slice()) {
        return Err(e);
    }
    let formatted_fee = parse_fee(request, params).format();
    let recipient_address = from_pubkey_hash(&erc20_recipient);
    let (formatted_value, formatted_total) = match erc20_params {
        Some(token) => {
            let value = Amount {
                unit: token.unit,
                decimals: token.decimals as usize,
                value: erc20_value,
            }.format();
            // The fee has another unit, so the total is the value again.
            let total = value.clone();
            (value, total)
        },
        None => (String::from_str("Unknown token"), String::from_str("Unknown amount")),
    };
    let mut prompts = Vec::new();
    prompts.push(Prompt::Recipient { address: recipient_address, amount: formatted_value });
    prompts.push(Prompt::TotalFee { total: formatted_total, fee: formatted_fee });
    proof {
        let spec = erc20_prompts(
            request@,
            *params,
            erc20_params,
            erc20_recipient@,
            biguint_value(erc20_value),
        );
        assert(spec is Ok);
        assert(prompt_views(prompts@) =~= spec->Ok_0);
    }
    Ok(prompts)
}

/// Lists what the user has to confirm of a standard transaction, one whose
/// data is empty or not understood.
///
/// Data that is not empty is shown in hexadecimal notation, after two
/// warnings: this is for those who know what a contract expects. Then come
/// recipient and value, and total and fee.
pub fn verify_standard_transaction(request: &EthSignRequest, params: &Params) -> (r: Result<
    Vec<Prompt>,
    Error,
>)
    ensures
        match r {
            Ok(prompts) => standard_prompts(request@, *params) == Ok::<Seq<PromptView>, Error>(
                prompt_views(prompts@),
            ),
            Err(e) => standard_prompts(request@, *params) == Err::<Seq<PromptView>, Error>(e),
        },
{
    if request.data.len() == 0 && request.value.len() == 0 {
        // Must send a value, unless there is data for a contract.
        return Err(Error::InvalidInput);
    }
    let recipient = match parse_recipient(request.recipient.as_slice()) {
        Ok(recipient) => recipient,
        Err(e) => {
            return Err(e);
        },
    };
    let mut prompts = Vec::new();
    if request.data.len() != 0 {
        prompts.push(
            warning_prompt("Unknown\ncontract", "You will be shown\nthe raw\ntransaction data."),
        );
        prompts.push(
            warning_prompt(
                "Unknown\ncontract",
                "Only proceed if you\nunderstand exactly\nwhat the data means.",
            ),
        );
        prompts.push(
            Prompt::Confirm(
                ConfirmParams {
                    title: String::from_str("Transaction\ndata"),
                    body: hex_encode(request.data.as_slice()),
                    scrollable: true,
                    accept_is_nextarrow: true,
                    display_size: request.data.len(),
                },
            ),
        );
    }
    assert(prompt_views(prompts@) =~= data_prompts(request@.data));
    let address = from_pubkey_hash(&recipient);
    let amount = Amount {
        unit: params.unit,
        decimals: WEI_DECIMALS,
        value: BigUint::from_bytes_be(request.value.as_slice()),
    };
    prompts.push(Prompt::Recipient { address, amount: amount.format() });
    let fee = parse_fee(request, params);
    let total = Amount {
        unit: params.unit,
        decimals: WEI_DECIMALS,
        value: biguint_add(amount.value, &fee.value),
    };
    prompts.push(Prompt::TotalFee { total: total.format(), fee: fee.format() });
    proof {
        let spec = standard_prompts(request@, *params);
        assert(spec is Ok);
        assert(prompt_views(prompts@) =~= spec->Ok_0);
    }
    Ok(prompts)
}

/// What the hash of a transaction is computed from.
#[derive(Clone, Copy, Debug, PartialEq, Eq)]
pub struct SighashParams<'a> {
    pub nonce: &'a [u8],
    pub gas_price: &'a [u8],
    pub gas_limit: &'a [u8],
    pub recipient: [u8; 20],
    pub value: &'a [u8],
    pub data: &'a [u8],
    pub chain_id: u8,
}

/// What `SighashParams` holds, as mathematical values.
pub struct SighashParamsView {
    pub nonce: Seq<u8>,
    pub gas_price: Seq<u8>,
    pub gas_limit: Seq<u8>,
    pub recipient: Seq<u8>,
    pub value: Seq<u8>,
    pub data: Seq<u8>,
    pub chain_id: u8,
}

impl<'a> View for SighashParams<'a> {
    type V = SighashParamsView;

    open spec fn view(&self) -> SighashParamsView {
        SighashParamsView {
            nonce: self.nonce@,
            gas_price: self.gas_price@,
            gas_limit: self.gas_limit@,
            recipient: self.recipient@,
            value: self.value@,
            data: self.data@,
            chain_id: self.chain_id,
        }
    }
}

/// A signature as the key store returns it.
#[derive(Clone, Copy, Debug, PartialEq, Eq)]
pub struct SignResult {
    pub signature: [u8; 64],
    /// The recovery identifier.
    pub recid: u8,
}

/// Why the key store or the host did not answer as asked.
#[derive(Clone, Copy, Debug, PartialEq, Eq, Structural)]
pub enum Fault {
    /// The key store is locked or could not do its work.
    Keystore,
    /// The host did not keep to the nonce exchange: it sent something else
    /// than the nonce, or a nonce that does not match its commitment.
    Protocol,
}

/// The error that a fault ends the request with.
pub open spec fn fault_error(fault: Fault) -> Error {
    match fault {
        Fault::Keystore => Error::Generic,
        Fault::Protocol => Error::ProtocolFault,
    }
}

/// What the caller is to do next. Each action is answered by the event of
/// the same kind.
#[derive(Clone, Debug, PartialEq, Eq)]
pub enum Action<'a> {
    /// Ask the user for a confirmation. Answered by `Event::Confirmed`.
    Prompt(Prompt),
    /// Compute the hash that is signed. Answered by `Event::Hashed`.
    Sighash(SighashParams<'a>),
    /// Have the key store commit to its nonce for this hash and this
    /// commitment of the host. Answered by `Event::Committed`.
    NonceCommit { keypath: &'a [u32], hash: [u8; 32], host_commitment: [u8; 32] },
    /// Send the signer's commitment to the host and wait for the host's
    /// nonce. Answered by `Event::HostNonce`.
    GetHostNonce { signer_commitment: [u8; 33] },
    /// Have the key store sign the hash. Answered by `Event::Signed`.
    Sign { keypath: &'a [u32], hash: [u8; 32], host_nonce: [u8; 32] },
}

/// What an action holds, as mathematical values.
pub enum ActionView {
    Prompt(PromptView),
    Sighash(SighashParamsView),
    NonceCommit { keypath: Seq<u32>, hash: Seq<u8>, host_commitment: Seq<u8> },
    GetHostNonce { signer_commitment: Seq<u8> },
    Sign { keypath: Seq<u32>, hash: Seq<u8>, host_nonce: Seq<u8> },
}

impl<'a> View for Action<'a> {
    type V = ActionView;

    open spec fn view(&self) -> ActionView {
        match self {
            Action::Prompt(prompt) => ActionView::Prompt(prompt@),
            Action::Sighash(params) => ActionView::Sighash(params@),
            Action::NonceCommit { keypath, hash, host_commitment } => ActionView::NonceCommit {
                keypath: keypath@,
                hash: hash@,
                host_commitment: host_commitment@,
            },
            Action::GetHostNonce { signer_commitment } => ActionView::GetHostNonce {
                signer_commitment: signer_commitment@,
            },
            Action::Sign { keypath, hash, host_nonce } => ActionView::Sign {
                keypath: keypath@,
                hash: hash@,
                host_nonce: host_nonce@,
            },
        }
    }
}

/// How an action ended.
#[derive(Debug, PartialEq, Eq)]
pub enum Event {
    /// The user accepted (`true`) or rejected (`false`) what was shown.
    Confirmed(bool),
    /// The hash, or `None` if the transaction could not be hashed.
    Hashed(Option<[u8; 32]>),
    /// The signer's commitment to its nonce.
    Committed(Result<[u8; 33], Fault>),
    /// The nonce that the host revealed.
    HostNonce(Result<Vec<u8>, Fault>),
    /// The signature.
    Signed(Result<SignResult, Fault>),
}

/// Which answer a session waits for.
#[derive(Clone, Copy, Debug, PartialEq, Eq)]
pub enum Stage {
    /// A prompt is before the user.
    Confirming,
    /// The hash is being computed.
    Hashing,
    /// The key store is committing to its nonce.
    Committing { hash: [u8; 32] },
    /// The host has the signer's commitment and owes its nonce.
    AwaitingHostNonce { hash: [u8; 32] },
    /// The key store is signing.
    Signing,
}

/// A request in progress: what is left to do once the pending action has
/// been answered.
#[derive(Debug)]
pub struct Session<'a> {
    request: &'a EthSignRequest,
    recipient: [u8; 20],
    chain_id: u8,
    prompts: Vec<Prompt>,
    stage: Stage,
}

/// What a session holds, as mathematical values.
pub struct SessionView {
    pub request: EthSignRequestView,
    /// The recipient of the transaction.
    pub recipient: Seq<u8>,
    /// The chain identifier of the request's network.
    pub chain_id: u8,
    /// The prompts that follow the one before the user, in order.
    pub prompts: Seq<PromptView>,
    pub stage: Stage,
}

impl<'a> View for Session<'a> {
    type V = SessionView;

    closed spec fn view(&self) -> SessionView {
        SessionView {
            request: self.request@,
            recipient: self.recipient@,
            chain_id: self.chain_id,
            prompts: prompt_views(self.prompts@),
            stage: self.stage,
        }
    }
}

/// Where a request stands: an action is to be performed and its answer
/// handed to the session, or the request has ended.
#[derive(Debug)]
pub enum Step<'a> {
    Next { session: Session<'a>, action: Action<'a> },
    Done(Result<Response, Error>),
}

/// What a step holds, as mathematical values.
pub enum StepView {
    Next { session: SessionView, action: ActionView },
    Done(Result<ResponseView, Error>),
}

impl<'a> View for Step<'a> {
    type V = StepView;

    open spec fn view(&self) -> StepView {
        match self {
            Step::Next { session, action } => StepView::Next {
                session: session@,
                action: action@,
            },
            Step::Done(Ok(response)) => StepView::Done(Ok(response@)),
            Step::Done(Err(e)) => StepView::Done(Err(*e)),
        }
    }
}

/// The prompts of the transaction itself, by its kind.
pub open spec fn transaction_prompts(
    request: EthSignRequestView,
    params: Params,
    erc20_params: Option<Erc20Params>,
) -> Result<Seq<PromptView>, Error> {
    match classify(request) {
        Classification::TokenTransfer { recipient, value } => erc20_prompts(
            request,
            params,
            erc20_params,
            recipient,
            value,
        ),
        Classification::StandardTransfer => standard_prompts(request, params),
    }
}

/// The warning that comes before everything else if the keypath is unusual
/// for the network. Its title is the network's name.
pub open spec fn keypath_prompts(params: Params, keypath: Seq<u32>) -> Seq<PromptView> {
    if unusual_keypath(params, keypath) {
        seq![PromptView::Confirm(unusual_keypath_warning(params.name@, keypath))]
    } else {
        Seq::empty()
    }
}

/// Everything that the user has to confirm before a valid request is
/// signed, in the order in which it is shown.
pub open spec fn confirmations(
    request: EthSignRequestView,
    params: Params,
    erc20_params: Option<Erc20Params>,
) -> Result<Seq<PromptView>, Error> {
    match transaction_prompts(request, params, erc20_params) {
        Ok(prompts) => Ok(keypath_prompts(params, request.keypath) + prompts),
        Err(e) => Err(e),
    }
}

/// How the processing of a request begins. A request that is not valid, or
/// whose transaction is refused, ends at once with `InvalidInput`, before
/// anything is shown. Every other request begins with its first
/// confirmation.
pub open spec fn process_spec(
    request: EthSignRequestView,
    params: Option<Params>,
    erc20_params: Option<Erc20Params>,
) -> StepView {
    if !valid_request(request, params) {
        StepView::Done(Err(Error::InvalidInput))
    } else {
        match confirmations(request, params->0, erc20_params) {
            Err(e) => StepView::Done(Err(e)),
            Ok(prompts) => StepView::Next {
                session: SessionView {
                    request,
                    recipient: request.recipient,
                    chain_id: params->0.chain_id,
                    prompts: prompts.drop_first(),
                    stage: Stage::Confirming,
                },
                action: ActionView::Prompt(prompts[0]),
            },
        }
    }
}

/// What is hashed: the fields of the request, and the chain identifier of
/// its network.
pub open spec fn sighash_params(session: SessionView) -> SighashParamsView {
    SighashParamsView {
        nonce: session.request.nonce,
        gas_price: session.request.gas_price,
        gas_limit: session.request.gas_limit,
        recipient: session.recipient,
        value: session.request.value,
        data: session.request.data,
        chain_id: session.chain_id,
    }
}

/// The nonce of the host where the host takes no part: 32 zero bytes.
pub open spec fn no_host_nonce() -> Seq<u8> {
    Seq::new(32, |i: int| 0u8)
}

/// The response that carries a signature: its 64 bytes, then the recovery
/// identifier.
pub open spec fn sign_response(result: SignResult) -> ResponseView {
    ResponseView::Sign { signature: result.signature@.push(result.recid) }
}

/// How a session goes on when the user has answered a prompt. Acceptance
/// leads to the next prompt, and after the last one to the hash. Rejection
/// ends the request with `UserAbort`.
pub open spec fn confirmed_spec(session: SessionView, accepted: bool) -> StepView {
    if !accepted {
        StepView::Done(Err(Error::UserAbort))
    } else if session.prompts.len() > 0 {
        StepView::Next {
            session: SessionView { prompts: session.prompts.drop_first(), ..session },
            action: ActionView::Prompt(session.prompts[0]),
        }
    } else {
        StepView::Next {
            session: SessionView { stage: Stage::Hashing, ..session },
            action: ActionView::Sighash(sighash_params(session)),
        }
    }
}

/// How a session goes on when the hash is there. With a commitment of the
/// host, which must have 32 bytes, the key store is asked to commit to its
/// nonce. Without one it is asked to sign at once.
pub open spec fn hashed_spec(session: SessionView, hash: Option<[u8; 32]>) -> StepView {
    match hash {
        None => StepView::Done(Err(Error::InvalidInput)),
        Some(hash) => match session.request.host_nonce_commitment {
            Some(commitment) => if commitment.len() == 32 {
                StepView::Next {
                    session: SessionView { stage: Stage::Committing { hash }, ..session },
                    action: ActionView::NonceCommit {
                        keypath: session.request.keypath,
                        hash: hash@,
                        host_commitment: commitment,
                    },
                }
            } else {
                StepView::Done(Err(Error::InvalidInput))
            },
            None => StepView::Next {
                session: SessionView { stage: Stage::Signing, ..session },
                action: ActionView::Sign {
                    keypath: session.request.keypath,
                    hash: hash@,
                    host_nonce: no_host_nonce(),
                },
            },
        },
    }
}

/// How a session goes on when the host has answered the signer's
/// commitment. A nonce of 32 bytes is signed with. Any other answer ends
/// the request.
pub open spec fn host_nonce_spec(
    session: SessionView,
    hash: [u8; 32],
    nonce: Result<Vec<u8>, Fault>,
) -> StepView {
    match nonce {
        Ok(nonce) => if nonce@.len() == 32 {
            StepView::Next {
                session: SessionView { stage: Stage::Signing, ..session },
                action: ActionView::Sign {
                    keypath: session.request.keypath,
                    hash: hash@,
                    host_nonce: nonce@,
                },
            }
        } else {
            StepView::Done(Err(Error::ProtocolFault))
        },
        Err(fault) => StepView::Done(Err(fault_error(fault))),
    }
}

/// How a session goes on with an event. An event of another kind than the
/// session waits for ends the request with `Generic`.
pub open spec fn resume_spec(session: SessionView, event: Event) -> StepView {
    match (session.stage, event) {
        (Stage::Confirming, Event::Confirmed(accepted)) => confirmed_spec(session, accepted),
        (Stage::Hashing, Event::Hashed(hash)) => hashed_spec(session, hash),
        (Stage::Committing { hash }, Event::Committed(Ok(signer_commitment))) => StepView::Next {
            session: SessionView { stage: Stage::AwaitingHostNonce { hash }, ..session },
            action: ActionView::GetHostNonce { signer_commitment: signer_commitment@ },
        },
        (Stage::Committing { hash }, Event::Committed(Err(fault))) => StepView::Done(
            Err(fault_error(fault)),
        ),
        (Stage::AwaitingHostNonce { hash }, Event::HostNonce(nonce)) => host_nonce_spec(
            session,
            hash,
            nonce,
        ),
        (Stage::Signing, Event::Signed(Ok(result))) => StepView::Done(Ok(sign_response(result))),
        (Stage::Signing, Event::Signed(Err(fault))) => StepView::Done(Err(fault_error(fault))),
        _ => StepView::Done(Err(Error::Generic)),
    }
}

/// Converts `bytes` to an array of 32 bytes, if it holds exactly 32.
fn parse_bytes32(bytes: &[u8]) -> (r: Option<[u8; 32]>)
    ensures
        match r {
            Some(array) => bytes@.len() == 32 && array@ == bytes@,
            None => bytes@.len() != 32,
        },
{
    if bytes.len() != 32 {
        return None;
    }
    let mut array = [0u8; 32];
    let mut i: usize = 0;
    while i < 32
        invariant
            i <= 32,
            bytes@.len() == 32,
            forall|j: int| 0 <= j < i ==> array@[j] == bytes@[j],
        decreases 32 - i,
    {
        array[i] = bytes[i];
        i += 1;
    }
    assert(array@ =~= bytes@);
    Some(array)
}

/// The error that a fault ends the request with.
fn error_of_fault(fault: Fault) -> (e: Error)
    ensures
        e == fault_error(fault),
{
    match fault {
        Fault::Keystore => Error::Generic,
        Fault::Protocol => Error::ProtocolFault,
    }
}

/// Puts the signature and the recovery identifier into a response.
fn assemble(result: &SignResult) -> (response: Response)
    ensures
        response@ == sign_response(*result),
{
    let mut signature = vstd::slice::slice_to_vec(result.signature.as_slice());
    signature.push(result.recid);
    Response::Sign(EthSignResponse { signature })
}

/// Begins to check and sign a transaction.
///
/// `params` are the parameters of the request's network, `None` if the
/// network is not known. `erc20_params` are those of the token contract
/// that the transaction is sent to, `None` if there is no such token on
/// that network.
///
/// Nothing is shown to the user unless the request is valid. The step
/// returned is the end, for a request that is refused, or the first
/// confirmation with the session that takes its answer.
pub fn process<'a>(
    request: &'a EthSignRequest,
    params: Option<Params>,
    erc20_params: Option<Erc20Params>,
) -> (step: Step<'a>)
    ensures
        step@ == process_spec(request@, params, erc20_params),
{
    let recipient = match validate(request, params) {
        Ok(recipient) => recipient,
        Err(e) => {
            return Step::Done(Err(e));
        },
    };
    let params = match params {
        Some(params) => params,
        None => {
            return Step::Done(Err(Error::InvalidInput));
        },
    };
    let verified = match parse_erc20(request) {
        Some((erc20_recipient, erc20_value)) => verify_erc20_transaction(
            request,
            &params,
            erc20_params,
            erc20_recipient,
            erc20_value,
        ),
        None => verify_standard_transaction(request, &params),
    };
    let mut prompts = match verified {
        Ok(prompts) => prompts,
        Err(e) => {
            return Step::Done(Err(e));
        },
    };
    let ghost of_transaction = prompt_views(prompts@);
    assert(transaction_prompts(request@, params, erc20_params) == Ok::<Seq<PromptView>, Error>(
        of_transaction,
    ));
    assert(of_transaction.len() >= 2);
    if let Some(warning) = warn_unusual_keypath(&params, params.name, request.keypath.as_slice()) {
        prompts.insert(0, Prompt::Confirm(warning));
    }
    let ghost all = prompt_views(prompts@);
    assert(all =~= keypath_prompts(params, request@.keypath) + of_transaction);
    let first = prompts.remove(0);
    assert(prompt_views(prompts@) =~= all.drop_first());
    Step::Next {
        session: Session {
            request,
            recipient,
            chain_id: params.chain_id,
            prompts,
            stage: Stage::Confirming,
        },
        action: Action::Prompt(first),
    }
}

impl<'a> Session<'a> {
    /// Goes on with the answer to the action that was handed out with this
    /// session.
    ///
    /// A rejected confirmation, a fault of the key store or the host, or an
    /// event that does not answer the pending action ends the request, and
    /// with the session gone nothing more can be done for it.
    pub fn resume(self, event: Event) -> (step: Step<'a>)
        ensures
            step@ == resume_spec(self@, event),
    {
        let mut session = self;
        match (session.stage, event) {
            (Stage::Confirming, Event::Confirmed(accepted)) => {
                if !accepted {
                    Step::Done(Err(Error::UserAbort))
                } else if session.prompts.len() > 0 {
                    let ghost before = prompt_views(session.prompts@);
                    let next = session.prompts.remove(0);
                    assert(prompt_views(session.prompts@) =~= before.drop_first());
                    Step::Next { session, action: Action::Prompt(next) }
                } else {
                    let request = session.request;
                    let action = Action::Sighash(
                        SighashParams {
                            nonce: request.nonce.as_slice(),
                            gas_price: request.gas_price.as_slice(),
                            gas_limit: request.gas_limit.as_slice(),
                            recipient: session.recipient,
                            value: request.value.as_slice(),
                            data: request.data.as_slice(),
                            chain_id: session.chain_id,
                        },
                    );
                    session.stage = Stage::Hashing;
                    Step::Next { session, action }
                }
            },
            (Stage::Hashing, Event::Hashed(hash)) => {
                let hash = match hash {
                    Some(hash) => hash,
                    None => {
                        return Step::Done(Err(Error::InvalidInput));
                    },
                };
                let request = session.request;
                match &request.host_nonce_commitment {
                    // Engage in the nonce exchange if the host sent a
                    // commitment.
                    Some(commitment) => {
                        match parse_bytes32(commitment.commitment.as_slice()) {
                            Some(host_commitment) => {
                                session.stage = Stage::Committing { hash };
                                Step::Next {
                                    session,
                                    action: Action::NonceCommit {
                                        keypath: request.keypath.as_slice(),
                                        hash,
                                        host_commitment,
                                    },
                                }
                            },
                            None => Step::Done(Err(Error::InvalidInput)),
                        }
                    },
                    // Sign at once otherwise, as hosts that know of no
                    // exchange expect.
                    None => {
                        session.stage = Stage::Signing;
                        let host_nonce = [0u8; 32];
                        assert(host_nonce@ =~= no_host_nonce());
                        Step::Next {
                            session,
                            action: Action::Sign {
                                keypath: request.keypath.as_slice(),
                                hash,
                                host_nonce,
                            },
                        }
                    },
                }
            },
            (Stage::Committing { hash }, Event::Committed(Ok(signer_commitment))) => {
                session.stage = Stage::AwaitingHostNonce { hash };
                Step::Next { session, action: Action::GetHostNonce { signer_commitment } }
            },
            (Stage::Committing { hash }, Event::Committed(Err(fault))) => Step::Done(
                Err(error_of_fault(fault)),
            ),
            (Stage::AwaitingHostNonce { hash }, Event::HostNonce(Ok(nonce))) => {
                match parse_bytes32(nonce.as_slice()) {
                    Some(host_nonce) => {
                        let request = session.request;
                        session.stage = Stage::Signing;
                        Step::Next {
                            session,
                            action: Action::Sign {
                                keypath: request.keypath.as_slice(),
                                hash,
                                host_nonce,
                            },
                        }
                    },
                    None => Step::Done(Err(Error::ProtocolFault)),
                }
            },
            (Stage::AwaitingHostNonce { hash }, Event::HostNonce(Err(fault))) => Step::Done(
                Err(error_of_fault(fault)),
            ),
            (Stage::Signing, Event::Signed(Ok(result))) => Step::Done(Ok(assemble(&result))),
            (Stage::Signing, Event::Signed(Err(fault))) => Step::Done(Err(error_of_fault(fault))),
            _ => Step::Done(Err(Error::Generic)),
        }
    }
}

} // verus!
