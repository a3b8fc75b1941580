//! An IBC-style remote-query module: channel lifecycle, per-channel account
//! store, outbound packet dispatch and acknowledgment correlation.
//!
//! The module sends price and swap-estimate queries over a channel to a
//! counterparty and caches the last successfully observed answer per channel.
//! Wire (de)serialization and the host runtime live outside this crate; the
//! functions here work on plain values and carry the protocol's contracts.

pub mod lex;
pub mod digits;
pub mod state;
pub mod error;
pub mod ibc_msg;
pub mod response;
pub mod ibc;
pub mod msg;
pub mod contract;
