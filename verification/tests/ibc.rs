use ibc_gamm::contract::query_account;
use ibc_gamm::ibc::{ibc_channel_connect, ibc_channel_open, IbcOrder, GAMM_VERSION};
use ibc_gamm::state::AccountStore;

#[test]
fn enforce_version_in_handshake() {
    // the proposed channel id plays no part in open-stage validation
    let _channel_id = "channel-12";

    let wrong_order = ibc_channel_open(IbcOrder::Ordered, GAMM_VERSION, Some(GAMM_VERSION));
    wrong_order.unwrap_err();

    let wrong_version = ibc_channel_open(IbcOrder::Unordered, "reflect", Some("reflect"));
    wrong_version.unwrap_err();

    let valid_handshake = ibc_channel_open(IbcOrder::Unordered, GAMM_VERSION, Some(GAMM_VERSION));
    valid_handshake.unwrap();
}

#[test]
fn proper_handshake_flow() {
    // setup and connect handshake
    let mut store = AccountStore::new();
    let channel_id = "channel-1234";

    // first we try to open with a valid handshake
    ibc_channel_open(IbcOrder::Unordered, GAMM_VERSION, None).unwrap();

    // then we connect (with counter-party version set)
    ibc_channel_open(IbcOrder::Unordered, GAMM_VERSION, Some(GAMM_VERSION)).unwrap();
    let res = ibc_channel_connect(&mut store, channel_id.to_string());
    assert_eq!(0, res.messages.len());

    // check for empty account
    let acct = query_account(&store, channel_id.to_string()).unwrap();
    assert!(acct.remote_spot_price.is_empty());
    assert_eq!(0, acct.last_update_time);

    // account should be set up
    let acct = query_account(&store, channel_id.to_string()).unwrap();
    assert!(acct.remote_spot_price.is_empty());
    assert_eq!(0, acct.last_update_time);
}
