//! Caller-facing request and response types.

use crate::state::{AccountData, AccountDataV};
use vstd::prelude::*;

verus! {

/// Instantiation needs no configuration.
#[derive(Debug)]
pub struct InstantiateMsg {}

/// A caller-issued dispatch request: which remote query to send.
#[derive(Debug)]
pub enum ExecuteMsg {
    SpotPrice(SpotPriceMsg),
    EstimateSwap(EstimateSwapMsg),
}

/// Request to dispatch a spot-price query on `channel`.
#[derive(Debug)]
pub struct SpotPriceMsg {
    pub channel: String,
    pub pool: u64,
    pub token_in: String,
    pub token_out: String,
    /// How long the packet lives, in seconds. The configured default
    /// applies when absent.
    pub timeout: Option<u64>,
}

/// Request to dispatch a swap-amount estimate query on `channel`.
#[derive(Debug)]
pub struct EstimateSwapMsg {
    pub channel: String,
    pub pool: u64,
    pub sender: String,
    pub amount: u128,
    pub token_in: String,
    pub token_out: String,
    /// How long the packet lives, in seconds. The configured default
    /// applies when absent.
    pub timeout: Option<u64>,
}

/// A read-only query against the account store.
#[derive(Debug)]
pub enum QueryMsg {
    /// All open accounts, in ascending channel-id order.
    ListAccounts {},
    /// The account of one channel.
    Account { channel_id: String },
}

/// Answer to `QueryMsg::ListAccounts`.
#[derive(Debug)]
pub struct ListAccountsResponse {
    pub accounts: Vec<AccountInfo>,
}

/// One listed account, together with its channel id.
#[derive(Debug)]
pub struct AccountInfo {
    pub channel_id: String,
    pub last_update_time: u64,
    pub remote_spot_price: String,
}

impl AccountInfo {
    /// Pairs a store entry with its channel id.
    pub fn convert(channel_id: String, input: AccountData) -> (r: Self)
        ensures
            r.channel_id@ == channel_id@,
            r.last_update_time == input.last_update_time,
            r.remote_spot_price@ == input.remote_spot_price@,
    {
        AccountInfo {
            channel_id,
            last_update_time: input.last_update_time,
            remote_spot_price: input.remote_spot_price,
        }
    }
}

/// Answer to `QueryMsg::Account`.
#[derive(Debug)]
pub struct AccountResponse {
    pub last_update_time: u64,
    pub remote_spot_price: String,
}

impl From<AccountData> for AccountResponse {
    fn from(input: AccountData) -> (r: Self) {
        AccountResponse {
            last_update_time: input.last_update_time,
            remote_spot_price: input.remote_spot_price,
        }
    }
}

impl vstd::std_specs::convert::FromSpecImpl<AccountData> for AccountResponse {
    open spec fn obeys_from_spec() -> bool {
        true
    }

    open spec fn from_spec(input: AccountData) -> Self {
        AccountResponse {
            last_update_time: input.last_update_time,
            remote_spot_price: input.remote_spot_price,
        }
    }
}

/// Whether an account response reports exactly the given account state.
pub open spec fn account_response_matches(a: AccountResponse, v: AccountDataV) -> bool {
    a.last_update_time == v.last_update_time && a.remote_spot_price@ == v.remote_spot_price
}

} // verus!
