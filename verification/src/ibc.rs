//! Channel lifecycle and acknowledgment handling.
//!
//! `ibc_channel_open` is the pure handshake gate; `ibc_channel_connect` and
//! `ibc_channel_close` create and delete the channel's account. An
//! acknowledgment, once decoded against the schema its original envelope's
//! discriminator implies, is applied by `ibc_packet_ack`: a successful
//! result overwrites the channel's account with the fresh timestamp and
//! value, a remote error is recorded and leaves the account untouched, and
//! a timeout only records an attribute. Inbound requests are never
//! accepted: this side of the protocol only asks.

use crate::digits::{dec_str, u128_to_dec_string};
use crate::error::Error;
use crate::ibc_msg::{DecodedAck, EstimateSwapAck, SpotPriceAck};
use crate::lex::str_eq;
use crate::response::{attr_is, Response};
use crate::state::{zero_account, AccountData, AccountDataV, AccountStore};
use vstd::prelude::*;

verus! {

/// The version string both channel ends must agree on during the handshake.
pub const GAMM_VERSION: &'static str = "cw-query-1";

/// Channel ordering modes the transport offers.
#[derive(Clone, Copy, Debug, PartialEq, Eq, Structural)]
pub enum IbcOrder {
    Ordered,
    Unordered,
}

/// The single ordering mode this module accepts.
pub const GAMM_ORDERING: IbcOrder = IbcOrder::Unordered;

/// Default packet lifetime in seconds (one hour), used when the caller
/// supplies no timeout.
pub const DEFAULT_PACKET_LIFETIME: u64 = 60 * 60;

/// The agreed version string, as a specification value.
pub open spec fn gamm_version() -> Seq<char> {
    "cw-query-1"@
}

/// Whether a counterparty version, when supplied, matches the configured
/// version.
pub open spec fn counterparty_ok(counterparty_version: Option<&str>) -> bool {
    match counterparty_version {
        Some(cv) => cv@ == gamm_version(),
        None => true,
    }
}

/// The handshake gate: accepts exactly the configured ordering mode and
/// version string, on both the proposal and, when present, the counterparty
/// version. Pure validation; no state is touched.
pub fn ibc_channel_open(order: IbcOrder, version: &str, counterparty_version: Option<&str>) -> (r:
    Result<(), Error>)
    ensures
        r is Ok <==> (order == IbcOrder::Unordered && version@ == gamm_version()
            && counterparty_ok(counterparty_version)),
        (r == Err::<(), Error>(Error::OrderMismatch)) <==> order != IbcOrder::Unordered,
        (r == Err::<(), Error>(Error::VersionMismatch)) <==> (order == IbcOrder::Unordered && !(
        version@ == gamm_version() && counterparty_ok(counterparty_version))),
{
    if order != IbcOrder::Unordered {
        return Err(Error::OrderMismatch);
    }
    if !str_eq(version, "cw-query-1") {
        return Err(Error::VersionMismatch);
    }
    match counterparty_version {
        Some(cv) => {
            if !str_eq(cv, "cw-query-1") {
                return Err(Error::VersionMismatch);
            }
        },
        None => {},
    }
    Ok(())
}

/// Once the handshake has completed, creates (or resets) the channel's
/// account with zero timestamp and empty remote value. Idempotent; always
/// succeeds.
pub fn ibc_channel_connect(store: &mut AccountStore, channel_id: String) -> (r: Response)
    requires
        old(store).wf(),
    ensures
        final(store).wf(),
        final(store)@ == old(store)@.insert(channel_id@, zero_account()),
        final(store)@.contains_key(channel_id@),
        final(store)@[channel_id@] == zero_account(),
        r.messages@.len() == 0,
        r.attributes@.len() == 2,
        attr_is(r.attributes@[0], "action"@, "ibc_connect"@),
        attr_is(r.attributes@[1], "channel_id"@, channel_id@),
{
    store.save(channel_id.clone(), AccountData::default());
    Response::new().add_attribute("action", String::from_str("ibc_connect")).add_attribute(
        "channel_id",
        channel_id,
    )
}

/// On channel close, deletes the channel's account from the store. Succeeds
/// whether or not an account exists.
pub fn ibc_channel_close(store: &mut AccountStore, channel_id: String) -> (r: Response)
    requires
        old(store).wf(),
    ensures
        final(store).wf(),
        final(store)@ == old(store)@.remove(channel_id@),
        !final(store)@.contains_key(channel_id@),
        r.messages@.len() == 0,
        r.attributes@.len() == 2,
        attr_is(r.attributes@[0], "action"@, "ibc_close"@),
        attr_is(r.attributes@[1], "channel_id"@, channel_id@),
{
    store.delete(channel_id.as_str());
    Response::new().add_attribute("action", String::from_str("ibc_close")).add_attribute(
        "channel_id",
        channel_id,
    )
}

/// The counterparty never sends requests; receiving one violates the
/// protocol's asymmetry and is surfaced as a fatal error.
pub fn ibc_packet_receive() -> (r: Result<Response, Error>)
    ensures
        r matches Err(e) && e == Error::UnsupportedInboundPacket,
{
    Err(Error::UnsupportedInboundPacket)
}

/// Whether `post` is `pre` with the account at `caller` overwritten by a
/// successfully applied acknowledgment: timestamp set to the delivery time,
/// the remote value replaced, and every other account untouched.
pub open spec fn result_ack_applied(
    pre: Map<Seq<char>, AccountDataV>,
    post: Map<Seq<char>, AccountDataV>,
    now: u64,
    caller: Seq<char>,
    value: Seq<char>,
) -> bool {
    post == pre.insert(caller, (AccountDataV { last_update_time: now, remote_spot_price: value }))
}

/// A successfully applied acknowledgment sets the caller channel's
/// `last_update_time` to the delivery time and overwrites its remote value,
/// and changes nothing else: every other channel's account — present or
/// absent — is exactly as before.
pub proof fn lemma_applied_ack_changes_only_caller(
    pre: Map<Seq<char>, AccountDataV>,
    post: Map<Seq<char>, AccountDataV>,
    now: u64,
    caller: Seq<char>,
    value: Seq<char>,
)
    requires
        result_ack_applied(pre, post, now, caller, value),
    ensures
        post.contains_key(caller),
        post[caller].last_update_time == now,
        post[caller].remote_spot_price == value,
        forall|other: Seq<char>|
            other != caller ==> (#[trigger] post.contains_key(other)) == pre.contains_key(other),
        forall|other: Seq<char>|
            other != caller && pre.contains_key(other) ==> (#[trigger] post[other]) == pre[other],
{
}

/// The response recorded for a remote-error acknowledgment: the operation's
/// audit attribute plus the error message, and no outbound effect.
pub open spec fn error_ack_response(
    r: Result<Response, Error>,
    op: Seq<char>,
    message: Seq<char>,
) -> bool {
    r matches Ok(resp) && resp.messages@.len() == 0 && resp.attributes@.len() == 2 && attr_is(
        resp.attributes@[0],
        "action"@,
        op,
    ) && attr_is(resp.attributes@[1], "error"@, message)
}

/// The response recorded for a successfully applied acknowledgment.
pub open spec fn applied_ack_response(
    r: Result<Response, Error>,
    op: Seq<char>,
    amount: Seq<char>,
) -> bool {
    r matches Ok(resp) && resp.messages@.len() == 0 && resp.attributes@.len() == 2 && attr_is(
        resp.attributes@[0],
        "action"@,
        op,
    ) && attr_is(resp.attributes@[1], "amount"@, amount)
}

/// The outcome `acknowledge_spot_price_result` promises: a remote error is
/// absorbed with the store left exactly as it was; a successful result
/// overwrites the caller's account, or is fatal when no account exists.
pub open spec fn spot_ack_outcome(
    pre: AccountStore,
    post: AccountStore,
    now: u64,
    caller: Seq<char>,
    ack: Result<SpotPriceAck, String>,
    r: Result<Response, Error>,
) -> bool {
    match ack {
        Err(e) => post == pre && error_ack_response(r, "receive_spot_price"@, e@),
        Ok(a) => if pre@.contains_key(caller) {
            result_ack_applied(pre@, post@, now, caller, a.price@) && applied_ack_response(
                r,
                "receive_spot_price"@,
                a.price@,
            )
        } else {
            r == Err::<Response, Error>(Error::NoAccountToUpdate) && post == pre
        },
    }
}

/// The outcome `acknowledge_estimate_swap_result` promises; the estimated
/// output amount is cached in its decimal text form.
pub open spec fn swap_ack_outcome(
    pre: AccountStore,
    post: AccountStore,
    now: u64,
    caller: Seq<char>,
    ack: Result<EstimateSwapAck, String>,
    r: Result<Response, Error>,
) -> bool {
    match ack {
        Err(e) => post == pre && error_ack_response(r, "receive_estimate_swap"@, e@),
        Ok(a) => if pre@.contains_key(caller) {
            result_ack_applied(pre@, post@, now, caller, dec_str(a.amount as nat))
                && applied_ack_response(r, "receive_estimate_swap"@, dec_str(a.amount as nat))
        } else {
            r == Err::<Response, Error>(Error::NoAccountToUpdate) && post == pre
        },
    }
}

/// Applies a spot-price acknowledgment to the caller channel's account.
///
/// A remote `Err` is recorded and absorbed: the store is left exactly as it
/// was, so a failed query cannot corrupt previously known-good state. A
/// successful result overwrites the account; if no account exists the
/// invariant is violated and `NoAccountToUpdate` is surfaced, with the
/// store untouched.
pub fn acknowledge_spot_price_result(
    store: &mut AccountStore,
    now: u64,
    caller: &str,
    ack: Result<SpotPriceAck, String>,
) -> (r: Result<Response, Error>)
    requires
        old(store).wf(),
    ensures
        final(store).wf(),
        spot_ack_outcome(*old(store), *final(store), now, caller@, ack, r),
{
    match ack {
        Err(e) => Ok(
            Response::new().add_attribute(
                "action",
                String::from_str("receive_spot_price"),
            ).add_attribute("error", e),
        ),
        Ok(a) => {
            let price_text = a.price;
            match store.update(caller, now, price_text.clone()) {
                None => Err(Error::NoAccountToUpdate),
                Some(_account) => Ok(
                    Response::new().add_attribute(
                        "action",
                        String::from_str("receive_spot_price"),
                    ).add_attribute("amount", price_text),
                ),
            }
        },
    }
}

/// Applies a swap-estimate acknowledgment to the caller channel's account.
/// Error and missing-account handling are as for the spot-price case.
pub fn acknowledge_estimate_swap_result(
    store: &mut AccountStore,
    now: u64,
    caller: &str,
    ack: Result<EstimateSwapAck, String>,
) -> (r: Result<Response, Error>)
    requires
        old(store).wf(),
    ensures
        final(store).wf(),
        swap_ack_outcome(*old(store), *final(store), now, caller@, ack, r),
{
    match ack {
        Err(e) => Ok(
            Response::new().add_attribute(
                "action",
                String::from_str("receive_estimate_swap"),
            ).add_attribute("error", e),
        ),
        Ok(a) => {
            let amount_text = u128_to_dec_string(a.amount);
            match store.update(caller, now, amount_text.clone()) {
                None => Err(Error::NoAccountToUpdate),
                Some(_account) => Ok(
                    Response::new().add_attribute(
                        "action",
                        String::from_str("receive_estimate_swap"),
                    ).add_attribute("amount", amount_text),
                ),
            }
        },
    }
}

/// Correlates a decoded acknowledgment back to per-channel state. The
/// discriminator recovered from the echoed original envelope has already
/// picked the payload schema; this dispatches to the matching handler.
pub fn ibc_packet_ack(store: &mut AccountStore, now: u64, caller: &str, ack: DecodedAck) -> (r:
    Result<Response, Error>)
    requires
        old(store).wf(),
    ensures
        final(store).wf(),
        (match ack {
            DecodedAck::SpotPrice(sp) => spot_ack_outcome(
                *old(store),
                *final(store),
                now,
                caller@,
                sp,
                r,
            ),
            DecodedAck::EstimateSwap(es) => swap_ack_outcome(
                *old(store),
                *final(store),
                now,
                caller@,
                es,
                r,
            ),
        }),
{
    match ack {
        DecodedAck::SpotPrice(sp) => acknowledge_spot_price_result(store, now, caller, sp),
        DecodedAck::EstimateSwap(es) => acknowledge_estimate_swap_result(store, now, caller, es),
    }
}

/// A timed-out packet is only recorded: the dispatched queries are
/// fire-and-forget, so there is nothing to retry or compensate.
pub fn ibc_packet_timeout() -> (r: Response)
    ensures
        r.messages@.len() == 0,
        r.attributes@.len() == 1,
        attr_is(r.attributes@[0], "action"@, "ibc_packet_timeout"@),
{
    Response::new().add_attribute("action", String::from_str("ibc_packet_timeout"))
}

} // verus!
