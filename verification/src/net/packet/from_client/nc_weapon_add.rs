use vstd::prelude::*;

use crate::io::GUINT8_MAX;
use crate::net::packet::from_client::FromClientPacketId;
use crate::net::packet::{GPacket, PacketId};
use crate::net::serialization::serialize::{Serializer, gscript_bytes, gstring_bytes, str_bytes};
use crate::net::serialization::{GScript, GString};

verus! {

/// The packet that adds a weapon.
#[derive(Debug)]
pub struct NcWeaponAdd {
    /// The name of the weapon
    pub weapon: GString,
    /// The image of the weapon
    pub image: GString,
    /// The script of the weapon
    pub script: GScript,
}

impl NcWeaponAdd {
    /// Create a new packet that adds a weapon.
    pub fn new(weapon: String, image: String, script: String) -> (p: Self)
        ensures
            p.weapon.0 == weapon,
            p.image.0 == image,
            p.script.0 == script,
    {
        Self { weapon: GString(weapon), image: GString(image), script: GScript(script) }
    }
}

impl GPacket for NcWeaponAdd {
    open spec fn wire_ready(&self) -> bool {
        &&& str_bytes(self.weapon.0@).len() <= GUINT8_MAX
        &&& str_bytes(self.image.0@).len() <= GUINT8_MAX
    }

    fn id(&self) -> (r: PacketId)
        ensures
            r == PacketId::FromClient(FromClientPacketId::NcWeaponAdd),
    {
        PacketId::FromClient(FromClientPacketId::NcWeaponAdd)
    }

    fn data(&self) -> (r: Vec<u8>)
        ensures
            r@ == gstring_bytes(self.weapon.0@) + gstring_bytes(self.image.0@) + gscript_bytes(
                self.script.0@,
            ),
    {
        let mut ser = Serializer::new();
        let _ = ser.serialize_gstring(&self.weapon);
        let _ = ser.serialize_gstring(&self.image);
        let _ = ser.serialize_gscript(&self.script);
        ser.into_bytes()
    }
}

} // verus!
