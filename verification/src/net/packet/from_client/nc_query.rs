use vstd::prelude::*;

use crate::io::{GUINT16_MAX, gu_encoding};
use crate::net::packet::from_client::FromClientPacketId;
use crate::net::packet::{GPacket, PacketId};
use crate::net::serialization::serialize::{Serializer, str_bytes};

verus! {

/// The packet that queries the NPC server.
#[derive(Debug)]
pub struct RcNcQuery {
    /// Unknown u16 field
    pub unknown: u16,
    /// Message
    pub message: String,
}

impl RcNcQuery {
    /// Create a new query packet; its unknown field is 2.
    pub fn new(message: String) -> (p: Self)
        ensures
            p.unknown == 2,
            p.message == message,
    {
        Self { unknown: 2, message }
    }
}

impl GPacket for RcNcQuery {
    open spec fn wire_ready(&self) -> bool {
        self.unknown <= GUINT16_MAX
    }

    fn id(&self) -> (r: PacketId)
        ensures
            r == PacketId::FromClient(FromClientPacketId::NpcServerQuery),
    {
        PacketId::FromClient(FromClientPacketId::NpcServerQuery)
    }

    fn data(&self) -> (r: Vec<u8>)
        ensures
            r@ == gu_encoding(self.unknown as u64, 2) + str_bytes(self.message@),
    {
        let mut ser = Serializer::new();
        let _ = ser.serialize_u16(self.unknown);
        let _ = ser.serialize_str(self.message.as_str());
        ser.into_bytes()
    }
}

} // verus!
