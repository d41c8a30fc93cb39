use vstd::prelude::*;

use crate::io::GUINT8_MAX;
use crate::net::packet::from_client::FromClientPacketId;
use crate::net::packet::{GPacket, PacketId};
use crate::net::serialization::GString;
use crate::net::serialization::serialize::{Serializer, gstring_bytes, str_bytes};

verus! {

/// The NPC-control login packet, sent as a v4 login.
#[derive(Debug)]
pub struct NcLogin {
    /// Version.
    pub version: String,
    /// Account.
    pub account: GString,
    /// Password.
    pub password: GString,
}

/// The bytes of an NPC-control login packet: the version as it is, then the
/// account and the password as GStrings.
pub open spec fn nc_login_bytes(version: Seq<char>, account: Seq<char>, password: Seq<char>) -> Seq<u8> {
    str_bytes(version) + gstring_bytes(account) + gstring_bytes(password)
}

impl NcLogin {
    /// Create a new NPC-control login packet.
    pub fn new(version: String, account: String, password: String) -> (p: Self)
        ensures
            p.version == version,
            p.account.0 == account,
            p.password.0 == password,
    {
        Self { version, account: GString(account), password: GString(password) }
    }
}

impl GPacket for NcLogin {
    open spec fn wire_ready(&self) -> bool {
        &&& str_bytes(self.account.0@).len() <= GUINT8_MAX
        &&& str_bytes(self.password.0@).len() <= GUINT8_MAX
    }

    fn id(&self) -> (r: PacketId)
        ensures
            r == PacketId::FromClient(FromClientPacketId::V4Login),
    {
        PacketId::FromClient(FromClientPacketId::V4Login)
    }

    fn data(&self) -> (r: Vec<u8>)
        ensures
            r@ == nc_login_bytes(self.version@, self.account.0@, self.password.0@),
    {
        let mut ser = Serializer::new();
        let _ = ser.serialize_str(self.version.as_str());
        let _ = ser.serialize_gstring(&self.account);
        let _ = ser.serialize_gstring(&self.password);
        ser.into_bytes()
    }
}

} // verus!
