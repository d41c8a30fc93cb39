use vstd::prelude::*;

use crate::net::packet::from_client::FromClientPacketId;
use crate::net::packet::{GPacket, PacketId};
use crate::net::serialization::serialize::{Serializer, str_bytes};

verus! {

/// The packet that asks for a weapon.
#[derive(Debug)]
pub struct NcWeaponGet {
    /// The name of the weapon
    pub weapon: String,
}

impl NcWeaponGet {
    /// Create a new packet that asks for a weapon.
    pub fn new(weapon: String) -> (p: Self)
        ensures
            p.weapon == weapon,
    {
        Self { weapon }
    }
}

impl GPacket for NcWeaponGet {
    open spec fn wire_ready(&self) -> bool {
        true
    }

    fn id(&self) -> (r: PacketId)
        ensures
            r == PacketId::FromClient(FromClientPacketId::NcWeaponGet),
    {
        PacketId::FromClient(FromClientPacketId::NcWeaponGet)
    }

    fn data(&self) -> (r: Vec<u8>)
        ensures
            r@ == str_bytes(self.weapon@),
    {
        let mut ser = Serializer::new();
        let _ = ser.serialize_str(self.weapon.as_str());
        ser.into_bytes()
    }
}

} // verus!
