use ibc_gamm::state::{AccountData, AccountStore};

fn account(time: u64, price: &str) -> AccountData {
    AccountData { last_update_time: time, remote_spot_price: price.to_string() }
}

#[test]
fn empty_store_has_nothing() {
    let store = AccountStore::new();
    assert!(!store.has("channel-1"));
    assert!(store.load("channel-1").is_none());
    assert!(store.scan_ascending().is_empty());
}

#[test]
fn save_then_load_round_trips() {
    let mut store = AccountStore::new();
    store.save("channel-7".to_string(), account(42, "0.25"));
    assert!(store.has("channel-7"));
    let loaded = store.load("channel-7").unwrap();
    assert_eq!(42, loaded.last_update_time);
    assert_eq!("0.25", loaded.remote_spot_price);
}

#[test]
fn save_overwrites_in_place() {
    let mut store = AccountStore::new();
    store.save("channel-7".to_string(), account(1, "1"));
    store.save("channel-7".to_string(), account(2, "2"));
    let loaded = store.load("channel-7").unwrap();
    assert_eq!(2, loaded.last_update_time);
    assert_eq!("2", loaded.remote_spot_price);
    assert_eq!(1, store.scan_ascending().len());
}

#[test]
fn update_requires_an_account() {
    let mut store = AccountStore::new();
    assert!(store.update("channel-7", 9, "3.5".to_string()).is_none());
    store.save("channel-7".to_string(), account(0, ""));
    let updated = store.update("channel-7", 9, "3.5".to_string()).unwrap();
    assert_eq!(9, updated.last_update_time);
    assert_eq!("3.5", updated.remote_spot_price);
    let loaded = store.load("channel-7").unwrap();
    assert_eq!(9, loaded.last_update_time);
    assert_eq!("3.5", loaded.remote_spot_price);
}

#[test]
fn delete_is_a_no_op_when_absent() {
    let mut store = AccountStore::new();
    store.delete("channel-7");
    store.save("channel-7".to_string(), account(1, "1"));
    store.delete("channel-7");
    assert!(!store.has("channel-7"));
    store.delete("channel-7");
    assert!(!store.has("channel-7"));
}

#[test]
fn scan_lists_ascending_by_channel_id() {
    let mut store = AccountStore::new();
    store.save("channel-20".to_string(), account(2, "b"));
    store.save("channel-3".to_string(), account(3, "c"));
    store.save("channel-11".to_string(), account(1, "a"));
    let listed = store.scan_ascending();
    let ids: Vec<&str> = listed.iter().map(|e| e.0.as_str()).collect();
    // byte-lexicographic order, as a raw key scan would give
    assert_eq!(vec!["channel-11", "channel-20", "channel-3"], ids);
    assert_eq!("a", listed[0].1.remote_spot_price);
    assert_eq!("b", listed[1].1.remote_spot_price);
    assert_eq!("c", listed[2].1.remote_spot_price);
}
