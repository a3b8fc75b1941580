//! The messages exchanged over a channel.
//!
//! A `PacketMsg` is the outbound envelope; its `GammPacket` discriminates
//! which query it carries. Acknowledgments come back as a `PacketAck` — a
//! closed result/error union — whose success payload is decoded against the
//! schema the original envelope's discriminator implies. Wire
//! (de)serialization of these values happens outside the library; here they
//! are plain data with specification-level views.

use vstd::prelude::*;

verus! {

/// Parameters of a spot-price query.
#[derive(Debug)]
pub struct SpotPricePacket {
    pub pool: u64,
    pub token_in: String,
    pub token_out: String,
}

pub struct SpotPricePacketV {
    pub pool: u64,
    pub token_in: Seq<char>,
    pub token_out: Seq<char>,
}

impl View for SpotPricePacket {
    type V = SpotPricePacketV;

    open spec fn view(&self) -> SpotPricePacketV {
        SpotPricePacketV {
            pool: self.pool,
            token_in: self.token_in@,
            token_out: self.token_out@,
        }
    }
}

/// Parameters of a swap-amount estimate query.
#[derive(Debug)]
pub struct EstimateSwapPacket {
    pub pool: u64,
    pub sender: String,
    pub amount: u128,
    pub token_in: String,
    pub token_out: String,
}

pub struct EstimateSwapPacketV {
    pub pool: u64,
    pub sender: Seq<char>,
    pub amount: u128,
    pub token_in: Seq<char>,
    pub token_out: Seq<char>,
}

impl View for EstimateSwapPacket {
    type V = EstimateSwapPacketV;

    open spec fn view(&self) -> EstimateSwapPacketV {
        EstimateSwapPacketV {
            pool: self.pool,
            sender: self.sender@,
            amount: self.amount,
            token_in: self.token_in@,
            token_out: self.token_out@,
        }
    }
}

/// The operation discriminator: which remote query an envelope carries.
#[derive(Debug)]
pub enum GammPacket {
    SpotPrice(SpotPricePacket),
    EstimateSwap(EstimateSwapPacket),
}

pub enum GammPacketV {
    SpotPrice(SpotPricePacketV),
    EstimateSwap(EstimateSwapPacketV),
}

impl View for GammPacket {
    type V = GammPacketV;

    open spec fn view(&self) -> GammPacketV {
        match self {
            GammPacket::SpotPrice(p) => GammPacketV::SpotPrice(p@),
            GammPacket::EstimateSwap(p) => GammPacketV::EstimateSwap(p@),
        }
    }
}

/// The outbound envelope. Immutable once sent; the transport echoes it back
/// verbatim alongside the acknowledgment, which is how the original
/// operation is recovered.
#[derive(Debug)]
pub struct PacketMsg {
    /// Caller-supplied correlation id, if any.
    pub client_id: Option<String>,
    pub query: GammPacket,
}

pub struct PacketMsgV {
    pub client_id: Option<Seq<char>>,
    pub query: GammPacketV,
}

impl View for PacketMsg {
    type V = PacketMsgV;

    open spec fn view(&self) -> PacketMsgV {
        PacketMsgV {
            client_id: match self.client_id {
                Some(ref s) => Some(s@),
                None => None,
            },
            query: self.query@,
        }
    }
}

/// A successful spot-price answer: the price in its decimal text form.
#[derive(Debug)]
pub struct SpotPriceAck {
    pub price: String,
}

/// A successful swap-estimate answer: the output token amount.
#[derive(Debug)]
pub struct EstimateSwapAck {
    pub amount: u128,
}

/// The wire-level acknowledgment union: an opaque success payload, or a
/// human-readable remote failure. No other variants exist.
#[derive(Debug)]
pub enum PacketAck {
    Result(Vec<u8>),
    Error(String),
}

/// An acknowledgment after its success payload has been decoded against the
/// schema implied by the original envelope's discriminator.
#[derive(Debug)]
pub enum DecodedAck {
    SpotPrice(Result<SpotPriceAck, String>),
    EstimateSwap(Result<EstimateSwapAck, String>),
}

} // verus!
