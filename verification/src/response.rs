//! The effects an event handler hands back to the host runtime: at most one
//! outbound packet-send, plus audit attributes.

use crate::ibc_msg::{PacketMsg, PacketMsgV};
use vstd::prelude::*;

verus! {

/// One audit attribute.
#[derive(Debug)]
pub struct Attribute {
    pub key: String,
    pub value: String,
}

/// Whether an attribute has the given key and value.
pub open spec fn attr_is(a: Attribute, key: Seq<char>, value: Seq<char>) -> bool {
    a.key@ == key && a.value@ == value
}

/// An outbound send effect: the envelope, the channel to send it on, and the
/// absolute deadline (in nanoseconds) after which it times out.
#[derive(Debug)]
pub struct IbcSendPacket {
    pub channel_id: String,
    pub packet: PacketMsg,
    pub timeout_nanos: u64,
}

pub struct IbcSendPacketV {
    pub channel_id: Seq<char>,
    pub packet: PacketMsgV,
    pub timeout_nanos: u64,
}

impl View for IbcSendPacket {
    type V = IbcSendPacketV;

    open spec fn view(&self) -> IbcSendPacketV {
        IbcSendPacketV {
            channel_id: self.channel_id@,
            packet: self.packet@,
            timeout_nanos: self.timeout_nanos,
        }
    }
}

/// What handling one event asks the host to do.
#[derive(Debug)]
pub struct Response {
    pub messages: Vec<IbcSendPacket>,
    pub attributes: Vec<Attribute>,
}

impl Response {
    /// A response with no effects.
    pub fn new() -> (r: Self)
        ensures
            r.messages@.len() == 0,
            r.attributes@.len() == 0,
    {
        Response { messages: Vec::new(), attributes: Vec::new() }
    }

    /// Appends an outbound send effect.
    pub fn add_message(self, msg: IbcSendPacket) -> (r: Self)
        ensures
            r.messages@ == self.messages@.push(msg),
            r.attributes@ == self.attributes@,
    {
        let mut messages = self.messages;
        messages.push(msg);
        Response { messages, attributes: self.attributes }
    }

    /// Appends an audit attribute.
    pub fn add_attribute(self, key: &str, value: String) -> (r: Self)
        ensures
            r.messages@ == self.messages@,
            r.attributes@.len() == self.attributes@.len() + 1,
            forall|j: int| 0 <= j < self.attributes@.len() ==> r.attributes@[j] == self.attributes@[j],
            attr_is(r.attributes@[r.attributes@.len() - 1], key@, value@),
    {
        let mut attributes = self.attributes;
        attributes.push(Attribute { key: String::from_str(key), value });
        Response { messages: self.messages, attributes }
    }
}

} // verus!
