use vstd::prelude::*;

use crate::net::packet::from_client::FromClientPacketId;
use crate::net::packet::{GPacket, PacketId};
use crate::net::serialization::serialize::{Serializer, str_bytes};

verus! {

/// The remote-control chat packet.
#[derive(Debug)]
pub struct RcChat {
    /// Message
    pub message: String,
}

impl RcChat {
    /// Create a new chat packet.
    pub fn new(message: String) -> (p: Self)
        ensures
            p.message == message,
    {
        Self { message }
    }
}

impl GPacket for RcChat {
    open spec fn wire_ready(&self) -> bool {
        true
    }

    fn id(&self) -> (r: PacketId)
        ensures
            r == PacketId::FromClient(FromClientPacketId::RcChat),
    {
        PacketId::FromClient(FromClientPacketId::RcChat)
    }

    fn data(&self) -> (r: Vec<u8>)
        ensures
            r@ == str_bytes(self.message@),
    {
        let mut ser = Serializer::new();
        let _ = ser.serialize_str(self.message.as_str());
        ser.into_bytes()
    }
}

} // verus!
