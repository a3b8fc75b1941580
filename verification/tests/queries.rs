use ibc_gamm::contract::{query, query_list_accounts, QueryAnswer};
use ibc_gamm::error::Error;
use ibc_gamm::ibc::{ibc_channel_connect, ibc_packet_ack};
use ibc_gamm::ibc_msg::{DecodedAck, SpotPriceAck};
use ibc_gamm::msg::QueryMsg;
use ibc_gamm::state::AccountStore;

#[test]
fn list_accounts_reports_every_channel_in_order() {
    let mut store = AccountStore::new();
    ibc_channel_connect(&mut store, "channel-9".to_string());
    ibc_channel_connect(&mut store, "channel-2".to_string());
    ibc_channel_connect(&mut store, "channel-4".to_string());
    let ack = DecodedAck::SpotPrice(Ok(SpotPriceAck { price: "8.5".to_string() }));
    ibc_packet_ack(&mut store, 77, "channel-4", ack).unwrap();

    let listed = query_list_accounts(&store);
    assert_eq!(3, listed.accounts.len());
    assert_eq!("channel-2", listed.accounts[0].channel_id);
    assert_eq!("channel-4", listed.accounts[1].channel_id);
    assert_eq!("channel-9", listed.accounts[2].channel_id);
    assert_eq!(0, listed.accounts[0].last_update_time);
    assert_eq!(77, listed.accounts[1].last_update_time);
    assert_eq!("8.5", listed.accounts[1].remote_spot_price);
    assert_eq!("", listed.accounts[2].remote_spot_price);
}

#[test]
fn query_routes_account_and_list() {
    let mut store = AccountStore::new();
    ibc_channel_connect(&mut store, "channel-2".to_string());

    let ans = query(&store, QueryMsg::Account { channel_id: "channel-2".to_string() }).unwrap();
    match ans {
        QueryAnswer::Account(a) => {
            assert_eq!(0, a.last_update_time);
            assert_eq!("", a.remote_spot_price);
        }
        QueryAnswer::ListAccounts(_) => panic!("wrong answer variant"),
    }

    let err = query(&store, QueryMsg::Account { channel_id: "channel-8".to_string() })
        .unwrap_err();
    assert_eq!(Error::NotFound, err);

    let ans = query(&store, QueryMsg::ListAccounts {}).unwrap();
    match ans {
        QueryAnswer::ListAccounts(l) => assert_eq!(1, l.accounts.len()),
        QueryAnswer::Account(_) => panic!("wrong answer variant"),
    }
}
