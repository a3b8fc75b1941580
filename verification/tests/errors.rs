use ibc_gamm::error::Error;
use ibc_gamm::ibc::{ibc_channel_open, IbcOrder, GAMM_VERSION};

#[test]
fn handshake_error_kinds_are_precise() {
    // wrong ordering wins over everything else
    let err = ibc_channel_open(IbcOrder::Ordered, "reflect", None).unwrap_err();
    assert_eq!(Error::OrderMismatch, err);

    // wrong proposed version
    let err = ibc_channel_open(IbcOrder::Unordered, "reflect", None).unwrap_err();
    assert_eq!(Error::VersionMismatch, err);

    // counterparty version must match as well
    let err = ibc_channel_open(IbcOrder::Unordered, GAMM_VERSION, Some("reflect")).unwrap_err();
    assert_eq!(Error::VersionMismatch, err);

    // absent counterparty version is acceptable
    ibc_channel_open(IbcOrder::Unordered, GAMM_VERSION, None).unwrap();
}

#[test]
fn messages_name_the_failure() {
    assert_eq!("Must set version to `cw-query-1`", Error::VersionMismatch.message());
    assert_eq!("Only supports unordered channels", Error::OrderMismatch.message());
    assert_eq!("Channel not found", Error::ChannelNotFound.message());
    assert_eq!("Account not found", Error::NotFound.message());
    assert_eq!("Cannot decode packet or acknowledgment", Error::DecodeError.message());
    assert_eq!("no account to update", Error::NoAccountToUpdate.message());
    assert_eq!("Inbound packets are not supported", Error::UnsupportedInboundPacket.message());
}
