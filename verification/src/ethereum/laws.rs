//! What holds of every request, proved from the definitions in `sign`.

use vstd::prelude::*;

use crate::error::Error;
use crate::ethereum::bigint::be_value;
use crate::ethereum::params::{Erc20Params, Params};
use crate::ethereum::sign::{
    all_zero, canonical, classify, confirmations, erc20_transfer_selector, process_spec,
    resume_spec, standard_prompts, transaction_prompts, valid_request, ActionView,
    Classification, Event, SessionView, Stage, StepView,
};
use crate::pb::EthSignRequestView;

verus! {

/// Where a request stands once `events` have been handed in, one after
/// another, beginning at `step`. Events that come after the end are not
/// looked at.
pub open spec fn after(step: StepView, events: Seq<Event>) -> StepView
    decreases events.len(),
{
    match step {
        StepView::Done(_) => step,
        StepView::Next { session, action } => if events.len() == 0 {
            step
        } else {
            after(resume_spec(session, events[0]), events.drop_first())
        },
    }
}

/// A request whose recipient does not have exactly 20 bytes ends with
/// `InvalidInput`, whatever else it holds.
pub proof fn lemma_recipient_must_have_20_bytes(
    request: EthSignRequestView,
    params: Option<Params>,
    erc20_params: Option<Erc20Params>,
)
    requires
        request.recipient.len() != 20,
    ensures
        process_spec(request, params, erc20_params) == StepView::Done(Err(Error::InvalidInput)),
{
}

/// A request in which nonce, gas price, gas limit or value begins with a
/// zero byte ends with `InvalidInput`.
pub proof fn lemma_numbers_must_be_canonical(
    request: EthSignRequestView,
    params: Option<Params>,
    erc20_params: Option<Erc20Params>,
)
    requires
        !canonical(request.nonce) || !canonical(request.gas_price) || !canonical(
            request.gas_limit,
        ) || !canonical(request.value),
    ensures
        process_spec(request, params, erc20_params) == StepView::Done(Err(Error::InvalidInput)),
{
}

/// A request with more than 1024 bytes of data ends with `InvalidInput`.
pub proof fn lemma_data_is_bounded(
    request: EthSignRequestView,
    params: Option<Params>,
    erc20_params: Option<Erc20Params>,
)
    requires
        request.data.len() > 1024,
    ensures
        process_spec(request, params, erc20_params) == StepView::Done(Err(Error::InvalidInput)),
{
}

/// A request whose recipient holds zero bytes only ends with
/// `InvalidInput`, whatever else it holds.
pub proof fn lemma_zero_recipient_is_refused(
    request: EthSignRequestView,
    params: Option<Params>,
    erc20_params: Option<Erc20Params>,
)
    requires
        all_zero(request.recipient),
    ensures
        process_spec(request, params, erc20_params) == StepView::Done(Err(Error::InvalidInput)),
{
}

/// The data of a transfer of `value` to `recipient`: the selector, twelve
/// zero bytes, the recipient, the value.
pub open spec fn erc20_transfer_data(recipient: Seq<u8>, value: Seq<u8>) -> Seq<u8> {
    erc20_transfer_selector() + Seq::new(12, |i: int| 0u8) + recipient + value
}

/// A request that sends no coins and whose data is a transfer of a value
/// other than zero is a token transfer of that value to that recipient.
pub proof fn lemma_token_transfer_is_recognized(
    request: EthSignRequestView,
    recipient: Seq<u8>,
    value: Seq<u8>,
)
    requires
        request.value.len() == 0,
        recipient.len() == 20,
        value.len() == 32,
        !all_zero(value),
        request.data == erc20_transfer_data(recipient, value),
    ensures
        classify(request) == (Classification::TokenTransfer {
            recipient,
            value: be_value(value),
        }),
{
    let data = request.data;
    assert(data.subrange(0, 4) =~= erc20_transfer_selector());
    assert(data.subrange(16, 36) =~= recipient);
    assert(data.subrange(36, 68) =~= value);
}

/// Changing one of the first 16 bytes of a transfer's data, those of the
/// selector and of the padding, makes the transaction a standard one: its
/// confirmations are those of a standard transaction, which show the data.
pub proof fn lemma_changed_token_transfer_is_standard(
    request: EthSignRequestView,
    params: Params,
    erc20_params: Option<Erc20Params>,
    recipient: Seq<u8>,
    value: Seq<u8>,
    i: int,
)
    requires
        recipient.len() == 20,
        value.len() == 32,
        0 <= i < 16,
        request.data.len() == 68,
        request.data[i] != erc20_transfer_data(recipient, value)[i],
    ensures
        classify(request) == Classification::StandardTransfer,
        transaction_prompts(request, params, erc20_params) == standard_prompts(request, params),
{
    let data = request.data;
    if i < 4 {
        assert(data.subrange(0, 4)[i] == data[i]);
        assert(erc20_transfer_data(recipient, value)[i] == erc20_transfer_selector()[i]);
    } else {
        assert(data.subrange(4, 16)[i - 4] == data[i]);
        assert(erc20_transfer_data(recipient, value)[i] == 0);
    }
}

/// A transfer of the value zero is no token transfer, and neither is one
/// in a transaction that sends coins.
pub proof fn lemma_token_transfer_needs_value_and_no_coins(request: EthSignRequestView)
    requires
        request.value.len() > 0 || request.data.len() != 68 || all_zero(
            request.data.subrange(36, 68),
        ),
    ensures
        classify(request) == Classification::StandardTransfer,
{
}

/// Rejecting a confirmation ends the request with `UserAbort`, whichever
/// confirmation it is.
pub proof fn lemma_rejection_aborts(session: SessionView)
    requires
        session.stage == Stage::Confirming,
    ensures
        resume_spec(session, Event::Confirmed(false)) == StepView::Done(Err(Error::UserAbort)),
{
}

/// A request that has ended stays as it ended.
pub proof fn lemma_end_is_final(result: StepView, events: Seq<Event>)
    requires
        result is Done,
    ensures
        after(result, events) == result,
{
}

/// While confirmations are pending, a signature comes only after each of
/// them was accepted.
proof fn lemma_confirming(session: SessionView, action: ActionView, events: Seq<Event>)
    requires
        session.stage == Stage::Confirming,
        after(StepView::Next { session, action }, events) matches StepView::Done(Ok(_)),
    ensures
        events.len() > session.prompts.len(),
        forall|i: int| 0 <= i <= session.prompts.len() ==> events[i] == Event::Confirmed(true),
    decreases session.prompts.len(),
{
    assert(events.len() > 0);
    let next = resume_spec(session, events[0]);
    let rest = events.drop_first();
    assert(after(next, rest) matches StepView::Done(Ok(_)));
    assert(events[0] == Event::Confirmed(true));
    if session.prompts.len() > 0 {
        lemma_confirming(next->session, next->action, rest);
        assert forall|i: int| 0 <= i <= session.prompts.len() implies events[i]
            == Event::Confirmed(true) by {
            if i > 0 {
                assert(events[i] == rest[i - 1]);
            }
        }
    }
}

/// A request is signed only after the user has accepted every one of its
/// confirmations: if a request ends with a response, then it was valid, and
/// the events began with one acceptance for each confirmation.
pub proof fn lemma_signature_needs_every_confirmation(
    request: EthSignRequestView,
    params: Option<Params>,
    erc20_params: Option<Erc20Params>,
    events: Seq<Event>,
)
    requires
        after(process_spec(request, params, erc20_params), events) matches StepView::Done(Ok(_)),
    ensures
        valid_request(request, params),
        confirmations(request, params->0, erc20_params) matches Ok(prompts) && events.len()
            >= prompts.len() && forall|i: int|
            0 <= i < prompts.len() ==> events[i] == Event::Confirmed(true),
{
    let first = process_spec(request, params, erc20_params);
    assert(first is Next);
    let prompts = confirmations(request, params->0, erc20_params)->Ok_0;
    assert(prompts.len() >= 2);
    lemma_confirming(first->session, first->action, events);
}

/// If the user accepts the prompt before them and the `k - 1` that follow,
/// and rejects the next, the request ends with `UserAbort`, whatever events
/// follow.
pub proof fn lemma_first_rejection_aborts(
    session: SessionView,
    action: ActionView,
    events: Seq<Event>,
    k: int,
)
    requires
        session.stage == Stage::Confirming,
        0 <= k <= session.prompts.len(),
        k < events.len(),
        forall|i: int| 0 <= i < k ==> events[i] == Event::Confirmed(true),
        events[k] == Event::Confirmed(false),
    ensures
        after(StepView::Next { session, action }, events) == StepView::Done(
            Err(Error::UserAbort),
        ),
    decreases k,
{
    let next = resume_spec(session, events[0]);
    let rest = events.drop_first();
    assert(after(StepView::Next { session, action }, events) == after(next, rest));
    if k > 0 {
        assert(events[0] == Event::Confirmed(true));
        assert(next == StepView::Next { session: next->session, action: next->action });
        assert(rest[k - 1] == events[k]);
        assert forall|i: int| 0 <= i < k - 1 implies rest[i] == Event::Confirmed(true) by {
            assert(rest[i] == events[i + 1]);
        }
        lemma_first_rejection_aborts(next->session, next->action, rest, k - 1);
    } else {
        assert(next == StepView::Done(Err(Error::UserAbort)));
    }
}

/// The first rejection ends a request with `UserAbort`: if the user accepts
/// the first `k` confirmations of a valid request and rejects the next,
/// that is how the request ends, whatever events follow.
pub proof fn lemma_rejection_ends_request(
    request: EthSignRequestView,
    params: Option<Params>,
    erc20_params: Option<Erc20Params>,
    events: Seq<Event>,
    k: int,
)
    requires
        valid_request(request, params),
        confirmations(request, params->0, erc20_params) matches Ok(prompts) && 0 <= k
            < prompts.len(),
        k < events.len(),
        forall|i: int| 0 <= i < k ==> events[i] == Event::Confirmed(true),
        events[k] == Event::Confirmed(false),
    ensures
        after(process_spec(request, params, erc20_params), events) == StepView::Done(
            Err(Error::UserAbort),
        ),
{
    let first = process_spec(request, params, erc20_params);
    lemma_first_rejection_aborts(first->session, first->action, events, k);
}

/// A commitment of the host that does not have 32 bytes ends the request
/// with `InvalidInput` when the hash is there, before the key store is
/// asked for anything.
pub proof fn lemma_commitment_must_have_32_bytes(session: SessionView, hash: [u8; 32])
    requires
        session.stage == Stage::Hashing,
        session.request.host_nonce_commitment matches Some(c) && c.len() != 32,
    ensures
        resume_spec(session, Event::Hashed(Some(hash))) == StepView::Done(
            Err(Error::InvalidInput),
        ),
{
}

/// Whether a step asks nothing of the key store and the host: the request
/// has failed, or it waits for a confirmation or for the hash.
pub open spec fn before_key_store(step: StepView) -> bool {
    match step {
        StepView::Done(result) => result is Err,
        StepView::Next { session, action } => (session.stage == Stage::Confirming
            || session.stage == Stage::Hashing) && (action is Prompt || action is Sighash),
    }
}

/// With a commitment that does not have 32 bytes, a session that asks
/// nothing of the key store never will.
proof fn lemma_bad_commitment_stays_before_key_store(step: StepView, events: Seq<Event>)
    requires
        before_key_store(step),
        step matches StepView::Next { session, .. }
            ==> session.request.host_nonce_commitment matches Some(c) && c.len() != 32,
    ensures
        before_key_store(after(step, events)),
    decreases events.len(),
{
    if step is Next && events.len() > 0 {
        lemma_bad_commitment_stays_before_key_store(
            resume_spec(step->session, events[0]),
            events.drop_first(),
        );
    }
}

/// A request whose commitment of the host does not have 32 bytes never
/// reaches the key store or the host, and is never signed, whatever events
/// are handed in.
pub proof fn lemma_bad_commitment_never_reaches_key_store(
    request: EthSignRequestView,
    params: Option<Params>,
    erc20_params: Option<Erc20Params>,
    events: Seq<Event>,
)
    requires
        request.host_nonce_commitment matches Some(c) && c.len() != 32,
    ensures
        before_key_store(after(process_spec(request, params, erc20_params), events)),
{
    lemma_bad_commitment_stays_before_key_store(
        process_spec(request, params, erc20_params),
        events,
    );
}

} // verus!
