//! Entry points driven by the caller: packet dispatch and store queries.
//!
//! A dispatch is gated on the target channel's account existing — the proof
//! that it has completed its handshake — and otherwise emits exactly one
//! outbound send effect carrying the query and its absolute deadline.
//! Dispatch never touches account state. The queries are read-only views of
//! the store.

use crate::error::Error;
use crate::ibc::DEFAULT_PACKET_LIFETIME;
use crate::ibc_msg::{
    EstimateSwapPacket, EstimateSwapPacketV, GammPacket, GammPacketV, PacketMsg, PacketMsgV,
    SpotPricePacket, SpotPricePacketV,
};
use crate::lex::lex_lt;
use crate::msg::{
    account_response_matches, AccountInfo, AccountResponse, EstimateSwapMsg, ExecuteMsg,
    ListAccountsResponse, QueryMsg, SpotPriceMsg,
};
use crate::response::{attr_is, IbcSendPacket, IbcSendPacketV, Response};
use crate::state::{AccountDataV, AccountStore};
use vstd::prelude::*;

verus! {

/// Records that the module came up, with no other effect.
pub fn instantiate() -> (r: Response)
    ensures
        r.messages@.len() == 0,
        r.attributes@.len() == 1,
        attr_is(r.attributes@[0], "action"@, "instantiate"@),
{
    Response::new().add_attribute("action", String::from_str("instantiate"))
}

/// Seconds a dispatched packet lives: the caller's delta, or the configured
/// default when none was supplied.
pub open spec fn packet_lifetime(timeout: Option<u64>) -> u64 {
    match timeout {
        Some(t) => t,
        None => DEFAULT_PACKET_LIFETIME,
    }
}

/// The absolute deadline, in the transport's nanosecond unit, of a packet
/// dispatched at `now`.
pub open spec fn packet_deadline(now: u64, timeout: Option<u64>) -> int {
    now + packet_lifetime(timeout) * 1_000_000_000
}

/// Whether `resp` is exactly the effect of dispatching the spot-price query
/// `msg` at time `now`: one outbound envelope, and the audit attribute.
pub open spec fn spot_price_packet_sent(resp: Response, now: u64, msg: SpotPriceMsg) -> bool {
    resp.attributes@.len() == 1 && attr_is(resp.attributes@[0], "action"@, "spot_price"@)
        && resp.messages@.len() == 1 && resp.messages@[0]@ == (IbcSendPacketV {
        channel_id: msg.channel@,
        packet: PacketMsgV {
            client_id: None,
            query: GammPacketV::SpotPrice(
                SpotPricePacketV {
                    pool: msg.pool,
                    token_in: msg.token_in@,
                    token_out: msg.token_out@,
                },
            ),
        },
        timeout_nanos: packet_deadline(now, msg.timeout) as u64,
    })
}

/// Whether `resp` is exactly the effect of dispatching the swap-estimate
/// query `msg` at time `now`.
pub open spec fn estimate_swap_packet_sent(resp: Response, now: u64, msg: EstimateSwapMsg) -> bool {
    resp.attributes@.len() == 1 && attr_is(resp.attributes@[0], "action"@, "estimate_swap"@)
        && resp.messages@.len() == 1 && resp.messages@[0]@ == (IbcSendPacketV {
        channel_id: msg.channel@,
        packet: PacketMsgV {
            client_id: None,
            query: GammPacketV::EstimateSwap(
                EstimateSwapPacketV {
                    pool: msg.pool,
                    sender: msg.sender@,
                    amount: msg.amount,
                    token_in: msg.token_in@,
                    token_out: msg.token_out@,
                },
            ),
        },
        timeout_nanos: packet_deadline(now, msg.timeout) as u64,
    })
}

/// Dispatches a spot-price query: fails with `ChannelNotFound` — and emits
/// nothing — unless the channel has an account; otherwise emits the packet.
/// The store is read-only here: dispatch never changes account state.
pub fn handle_spot_price(store: &AccountStore, now: u64, msg: SpotPriceMsg) -> (r: Result<
    Response,
    Error,
>)
    requires
        store.wf(),
        packet_deadline(now, msg.timeout) <= u64::MAX,
    ensures
        r is Ok <==> store@.contains_key(msg.channel@),
        !store@.contains_key(msg.channel@) ==> r == Err::<Response, Error>(Error::ChannelNotFound),
        (r matches Ok(resp) ==> spot_price_packet_sent(resp, now, msg)),
{
    if !store.has(msg.channel.as_str()) {
        return Err(Error::ChannelNotFound);
    }
    let timeout_delta = match msg.timeout {
        Some(t) => t,
        None => DEFAULT_PACKET_LIFETIME,
    };
    let timeout_nanos = now + timeout_delta * 1_000_000_000;
    let packet = PacketMsg {
        client_id: None,
        query: GammPacket::SpotPrice(
            SpotPricePacket { pool: msg.pool, token_in: msg.token_in, token_out: msg.token_out },
        ),
    };
    let send = IbcSendPacket { channel_id: msg.channel, packet, timeout_nanos };
    Ok(Response::new().add_message(send).add_attribute("action", String::from_str("spot_price")))
}

/// Dispatches a swap-estimate query, gated and shaped like the spot-price
/// dispatch.
pub fn handle_estimate_swap(store: &AccountStore, now: u64, msg: EstimateSwapMsg) -> (r: Result<
    Response,
    Error,
>)
    requires
        store.wf(),
        packet_deadline(now, msg.timeout) <= u64::MAX,
    ensures
        r is Ok <==> store@.contains_key(msg.channel@),
        !store@.contains_key(msg.channel@) ==> r == Err::<Response, Error>(Error::ChannelNotFound),
        (r matches Ok(resp) ==> estimate_swap_packet_sent(resp, now, msg)),
{
    if !store.has(msg.channel.as_str()) {
        return Err(Error::ChannelNotFound);
    }
    let timeout_delta = match msg.timeout {
        Some(t) => t,
        None => DEFAULT_PACKET_LIFETIME,
    };
    let timeout_nanos = now + timeout_delta * 1_000_000_000;
    let packet = PacketMsg {
        client_id: None,
        query: GammPacket::EstimateSwap(
            EstimateSwapPacket {
                pool: msg.pool,
                sender: msg.sender,
                amount: msg.amount,
                token_in: msg.token_in,
                token_out: msg.token_out,
            },
        ),
    };
    let send = IbcSendPacket { channel_id: msg.channel, packet, timeout_nanos };
    Ok(Response::new().add_message(send).add_attribute("action", String::from_str("estimate_swap")))
}

/// Routes a caller request to the matching dispatch handler.
pub fn execute(store: &AccountStore, now: u64, msg: ExecuteMsg) -> (r: Result<Response, Error>)
    requires
        store.wf(),
        (match msg {
            ExecuteMsg::SpotPrice(m) => packet_deadline(now, m.timeout),
            ExecuteMsg::EstimateSwap(m) => packet_deadline(now, m.timeout),
        }) <= u64::MAX,
    ensures
        (match msg {
            ExecuteMsg::SpotPrice(m) => (r is Ok <==> store@.contains_key(m.channel@)) && (
            !store@.contains_key(m.channel@) ==> r == Err::<Response, Error>(
                Error::ChannelNotFound,
            )) && (r matches Ok(resp) ==> spot_price_packet_sent(resp, now, m)),
            ExecuteMsg::EstimateSwap(m) => (r is Ok <==> store@.contains_key(m.channel@)) && (
            !store@.contains_key(m.channel@) ==> r == Err::<Response, Error>(
                Error::ChannelNotFound,
            )) && (r matches Ok(resp) ==> estimate_swap_packet_sent(resp, now, m)),
        }),
{
    match msg {
        ExecuteMsg::SpotPrice(m) => handle_spot_price(store, now, m),
        ExecuteMsg::EstimateSwap(m) => handle_estimate_swap(store, now, m),
    }
}

/// The account of one channel, or `NotFound` when the channel has none.
pub fn query_account(store: &AccountStore, channel_id: String) -> (r: Result<
    AccountResponse,
    Error,
>)
    requires
        store.wf(),
    ensures
        r is Ok <==> store@.contains_key(channel_id@),
        !store@.contains_key(channel_id@) ==> r == Err::<AccountResponse, Error>(Error::NotFound),
        (r matches Ok(a) ==> account_response_matches(a, store@[channel_id@])),
{
    match store.load(channel_id.as_str()) {
        None => Err(Error::NotFound),
        Some(account) => Ok(AccountResponse::from(account)),
    }
}

/// Whether `l` lists exactly the accounts of `m`, ascending by channel id.
pub open spec fn list_reports_store(l: ListAccountsResponse, m: Map<Seq<char>, AccountDataV>) -> bool {
    &&& forall|i: int|
        0 <= i < l.accounts@.len() ==> m.contains_key(#[trigger] l.accounts@[i].channel_id@)
            && m[l.accounts@[i].channel_id@].last_update_time == l.accounts@[i].last_update_time
            && m[l.accounts@[i].channel_id@].remote_spot_price == l.accounts@[i].remote_spot_price@
    &&& forall|i: int, j: int|
        0 <= i < j < l.accounts@.len() ==> lex_lt(
            l.accounts@[i].channel_id@,
            l.accounts@[j].channel_id@,
        )
    &&& forall|k: Seq<char>|
        #[trigger] m.contains_key(k) ==> exists|i: int|
            0 <= i < l.accounts@.len() && l.accounts@[i].channel_id@ == k
}

/// Lists every account, in ascending channel-id order.
pub fn query_list_accounts(store: &AccountStore) -> (r: ListAccountsResponse)
    requires
        store.wf(),
    ensures
        list_reports_store(r, store@),
{
    let entries = store.scan_ascending();
    let mut accounts: Vec<AccountInfo> = Vec::new();
    let n = entries.len();
    let mut i: usize = 0;
    while i < n
        invariant
            n == entries@.len(),
            i <= n,
            accounts@.len() == i,
            forall|j: int|
                0 <= j < i ==> (#[trigger] accounts@[j].channel_id@) == entries@[j].0@
                    && accounts@[j].last_update_time == entries@[j].1@.last_update_time
                    && accounts@[j].remote_spot_price@ == entries@[j].1@.remote_spot_price,
        decreases n - i,
    {
        let entry = &entries[i];
        accounts.push(AccountInfo::convert(entry.0.clone(), entry.1.clone()));
        i = i + 1;
    }
    let resp = ListAccountsResponse { accounts };
    proof {
        assert forall|k: Seq<char>| #[trigger] store@.contains_key(k) implies exists|i2: int|
            0 <= i2 < resp.accounts@.len() && resp.accounts@[i2].channel_id@ == k by {
            let j = choose|j: int| 0 <= j < entries@.len() && entries@[j].0@ == k;
            assert(resp.accounts@[j].channel_id@ == k);
        }
    }
    resp
}

/// Answer to a `QueryMsg`.
#[derive(Debug)]
pub enum QueryAnswer {
    Account(AccountResponse),
    ListAccounts(ListAccountsResponse),
}

/// Routes a read-only query to the matching view of the store.
pub fn query(store: &AccountStore, msg: QueryMsg) -> (r: Result<QueryAnswer, Error>)
    requires
        store.wf(),
    ensures
        (match msg {
            QueryMsg::Account { channel_id } => (r is Ok <==> store@.contains_key(channel_id@)) && (
            !store@.contains_key(channel_id@) ==> r == Err::<QueryAnswer, Error>(Error::NotFound))
                && (r matches Ok(ans) ==> ans matches QueryAnswer::Account(a)
                && account_response_matches(a, store@[channel_id@])),
            QueryMsg::ListAccounts {  } => r is Ok && (r matches Ok(ans) ==> ans matches QueryAnswer::ListAccounts(l)
                && list_reports_store(l, store@)),
        }),
{
    match msg {
        QueryMsg::Account { channel_id } => match query_account(store, channel_id) {
            Ok(a) => Ok(QueryAnswer::Account(a)),
            Err(e) => Err(e),
        },
        QueryMsg::ListAccounts {  } => Ok(QueryAnswer::ListAccounts(query_list_accounts(store))),
    }
}

} // verus!
