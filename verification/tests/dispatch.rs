use ibc_gamm::contract::{execute, handle_estimate_swap, handle_spot_price};
use ibc_gamm::error::Error;
use ibc_gamm::ibc::ibc_channel_connect;
use ibc_gamm::ibc_msg::GammPacket;
use ibc_gamm::msg::{EstimateSwapMsg, ExecuteMsg, SpotPriceMsg};
use ibc_gamm::state::AccountStore;

fn connected_store(channel: &str) -> AccountStore {
    let mut store = AccountStore::new();
    ibc_channel_connect(&mut store, channel.to_string());
    store
}

#[test]
fn spot_price_dispatch_builds_the_packet() {
    let store = connected_store("channel-2");
    let msg = SpotPriceMsg {
        channel: "channel-2".to_string(),
        pool: 5,
        token_in: "uosmo".to_string(),
        token_out: "uion".to_string(),
        timeout: Some(120),
    };
    let now: u64 = 1_000_000_000;
    let res = handle_spot_price(&store, now, msg).unwrap();

    assert_eq!(1, res.attributes.len());
    assert_eq!("action", res.attributes[0].key);
    assert_eq!("spot_price", res.attributes[0].value);

    assert_eq!(1, res.messages.len());
    let send = &res.messages[0];
    assert_eq!("channel-2", send.channel_id);
    assert_eq!(now + 120 * 1_000_000_000, send.timeout_nanos);
    assert!(send.packet.client_id.is_none());
    match &send.packet.query {
        GammPacket::SpotPrice(p) => {
            assert_eq!(5, p.pool);
            assert_eq!("uosmo", p.token_in);
            assert_eq!("uion", p.token_out);
        }
        GammPacket::EstimateSwap(_) => panic!("wrong discriminator"),
    }
}

#[test]
fn spot_price_dispatch_uses_the_default_lifetime() {
    let store = connected_store("channel-2");
    let msg = SpotPriceMsg {
        channel: "channel-2".to_string(),
        pool: 5,
        token_in: "uosmo".to_string(),
        token_out: "uion".to_string(),
        timeout: None,
    };
    let now: u64 = 7;
    let res = handle_spot_price(&store, now, msg).unwrap();
    // one hour, in nanoseconds
    assert_eq!(now + 3600 * 1_000_000_000, res.messages[0].timeout_nanos);
}

#[test]
fn estimate_swap_dispatch_builds_the_packet() {
    let store = connected_store("channel-2");
    let msg = EstimateSwapMsg {
        channel: "channel-2".to_string(),
        pool: 9,
        sender: "osmo1sender".to_string(),
        amount: 123_456,
        token_in: "uatom".to_string(),
        token_out: "uosmo".to_string(),
        timeout: Some(60),
    };
    let now: u64 = 50;
    let res = handle_estimate_swap(&store, now, msg).unwrap();

    assert_eq!("estimate_swap", res.attributes[0].value);
    let send = &res.messages[0];
    assert_eq!("channel-2", send.channel_id);
    assert_eq!(now + 60 * 1_000_000_000, send.timeout_nanos);
    match &send.packet.query {
        GammPacket::EstimateSwap(p) => {
            assert_eq!(9, p.pool);
            assert_eq!("osmo1sender", p.sender);
            assert_eq!(123_456, p.amount);
            assert_eq!("uatom", p.token_in);
            assert_eq!("uosmo", p.token_out);
        }
        GammPacket::SpotPrice(_) => panic!("wrong discriminator"),
    }
}

#[test]
fn dispatch_requires_an_account() {
    let store = connected_store("channel-2");
    let msg = EstimateSwapMsg {
        channel: "channel-3".to_string(),
        pool: 9,
        sender: "osmo1sender".to_string(),
        amount: 1,
        token_in: "uatom".to_string(),
        token_out: "uosmo".to_string(),
        timeout: None,
    };
    let err = handle_estimate_swap(&store, 0, msg).unwrap_err();
    assert_eq!(Error::ChannelNotFound, err);
}

#[test]
fn execute_routes_by_operation() {
    let store = connected_store("channel-2");
    let msg = ExecuteMsg::SpotPrice(SpotPriceMsg {
        channel: "channel-2".to_string(),
        pool: 5,
        token_in: "uosmo".to_string(),
        token_out: "uion".to_string(),
        timeout: Some(1),
    });
    let res = execute(&store, 0, msg).unwrap();
    assert_eq!("spot_price", res.attributes[0].value);

    let msg = ExecuteMsg::EstimateSwap(EstimateSwapMsg {
        channel: "channel-2".to_string(),
        pool: 5,
        sender: "osmo1sender".to_string(),
        amount: 10,
        token_in: "uosmo".to_string(),
        token_out: "uion".to_string(),
        timeout: Some(1),
    });
    let res = execute(&store, 0, msg).unwrap();
    assert_eq!("estimate_swap", res.attributes[0].value);
}
