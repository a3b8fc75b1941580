//! End-to-end walk of one channel's life: connect, query, failed dispatch
//! on an unknown channel, a successful price acknowledgment, an absorbed
//! remote error, and close.

use ibc_gamm::contract::{handle_spot_price, query_account};
use ibc_gamm::error::Error;
use ibc_gamm::ibc::{acknowledge_spot_price_result, ibc_channel_close, ibc_channel_connect};
use ibc_gamm::ibc_msg::SpotPriceAck;
use ibc_gamm::msg::SpotPriceMsg;
use ibc_gamm::state::AccountStore;

#[test]
fn price_query_lifecycle() {
    let mut store = AccountStore::new();

    // connect: the account exists, zeroed
    ibc_channel_connect(&mut store, "channel-1234".to_string());
    let acct = query_account(&store, "channel-1234".to_string()).unwrap();
    assert_eq!(0, acct.last_update_time);
    assert_eq!("", acct.remote_spot_price);

    // dispatching on an unregistered channel fails with no outbound effect
    let msg = SpotPriceMsg {
        channel: "channel-xyz".to_string(),
        pool: 1,
        token_in: "uosmo".to_string(),
        token_out: "uion".to_string(),
        timeout: None,
    };
    let err = handle_spot_price(&store, 5, msg).unwrap_err();
    assert_eq!(Error::ChannelNotFound, err);

    // a successful result acknowledgment overwrites the account
    let t: u64 = 1_600_000_000_000_000_000;
    let ack = Ok(SpotPriceAck { price: "1.50".to_string() });
    let res = acknowledge_spot_price_result(&mut store, t, "channel-1234", ack).unwrap();
    assert_eq!("amount", res.attributes[1].key);
    assert_eq!("1.50", res.attributes[1].value);
    let acct = query_account(&store, "channel-1234".to_string()).unwrap();
    assert_eq!(t, acct.last_update_time);
    assert_eq!("1.50", acct.remote_spot_price);

    // a remote error is recorded but absorbed: the account is unchanged
    let res = acknowledge_spot_price_result(
        &mut store,
        t + 5,
        "channel-1234",
        Err("timeout".to_string()),
    )
    .unwrap();
    assert_eq!("error", res.attributes[1].key);
    assert_eq!("timeout", res.attributes[1].value);
    let acct = query_account(&store, "channel-1234".to_string()).unwrap();
    assert_eq!(t, acct.last_update_time);
    assert_eq!("1.50", acct.remote_spot_price);

    // closing the channel deletes the account
    ibc_channel_close(&mut store, "channel-1234".to_string());
    let err = query_account(&store, "channel-1234".to_string()).unwrap_err();
    assert_eq!(Error::NotFound, err);
}
