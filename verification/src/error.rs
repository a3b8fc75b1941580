//! The module's failure taxonomy.

use vstd::prelude::*;

verus! {

/// Everything that can go wrong while handling one event.
///
/// Handshake failures (`OrderMismatch`, `VersionMismatch`) abort channel
/// establishment; `ChannelNotFound` aborts a dispatch request before any
/// outbound effect; `NotFound` is a query for a channel with no account;
/// `DecodeError` is a malformed envelope or acknowledgment payload;
/// `NoAccountToUpdate` is the fatal arrival of a successful acknowledgment
/// on a channel that has no account; `UnsupportedInboundPacket` marks the
/// protocol asymmetry: this side never receives requests.
#[derive(Clone, Copy, Debug, PartialEq, Eq, Structural)]
pub enum Error {
    VersionMismatch,
    OrderMismatch,
    ChannelNotFound,
    NotFound,
    DecodeError,
    NoAccountToUpdate,
    UnsupportedInboundPacket,
}

impl Error {
    /// Human-readable description of the failure.
    pub fn message(&self) -> (m: String)
        ensures
            *self == Error::VersionMismatch ==> m@ == "Must set version to `cw-query-1`"@,
            *self == Error::OrderMismatch ==> m@ == "Only supports unordered channels"@,
            *self == Error::ChannelNotFound ==> m@ == "Channel not found"@,
            *self == Error::NotFound ==> m@ == "Account not found"@,
            *self == Error::DecodeError ==> m@ == "Cannot decode packet or acknowledgment"@,
            *self == Error::NoAccountToUpdate ==> m@ == "no account to update"@,
            *self == Error::UnsupportedInboundPacket ==> m@ == "Inbound packets are not supported"@,
    {
        match self {
            Error::VersionMismatch => String::from_str("Must set version to `cw-query-1`"),
            Error::OrderMismatch => String::from_str("Only supports unordered channels"),
            Error::ChannelNotFound => String::from_str("Channel not found"),
            Error::NotFound => String::from_str("Account not found"),
            Error::DecodeError => String::from_str("Cannot decode packet or acknowledgment"),
            Error::NoAccountToUpdate => String::from_str("no account to update"),
            Error::UnsupportedInboundPacket => String::from_str("Inbound packets are not supported"),
        }
    }
}

} // verus!
