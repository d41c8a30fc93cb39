use vstd::prelude::*;

use crate::io::GUINT8_MAX;
use crate::net::packet::from_client::FromClientPacketId;
use crate::net::packet::{GPacket, PacketId};
use crate::net::serialization::GString;
use crate::net::serialization::serialize::{
    Serializer, gstring_bytes, quoted_list, serialize_str_list, str_bytes,
};

verus! {

/// The game login packet.
#[derive(Debug)]
pub struct GameLogin {
    /// Version.
    pub version: String,
    /// Account.
    pub account: GString,
    /// Password.
    pub password: GString,
    /// PC IDs
    pub identification: Vec<String>,
}

/// The bytes of a game login packet: the version as it is, the account and
/// the password as GStrings, then the PC ids quoted and separated by commas.
pub open spec fn game_login_bytes(
    version: Seq<char>,
    account: Seq<char>,
    password: Seq<char>,
    identification: Seq<Seq<char>>,
) -> Seq<u8> {
    str_bytes(version) + gstring_bytes(account) + gstring_bytes(password) + quoted_list(identification)
}

impl GameLogin {
    /// Create a new game login packet.
    pub fn new(version: String, account: String, password: String, identification: Vec<String>) -> (p:
        Self)
        ensures
            p.version == version,
            p.account.0 == account,
            p.password.0 == password,
            p.identification == identification,
    {
        Self { version, account: GString(account), password: GString(password), identification }
    }
}

impl GPacket for GameLogin {
    open spec fn wire_ready(&self) -> bool {
        &&& str_bytes(self.account.0@).len() <= GUINT8_MAX
        &&& str_bytes(self.password.0@).len() <= GUINT8_MAX
    }

    fn id(&self) -> (r: PacketId)
        ensures
            r == PacketId::FromClient(FromClientPacketId::V6Login),
    {
        PacketId::FromClient(FromClientPacketId::V6Login)
    }

    fn data(&self) -> (r: Vec<u8>)
        ensures
            r@ == game_login_bytes(
                self.version@,
                self.account.0@,
                self.password.0@,
                self.identification@.map_values(|s: String| s@),
            ),
    {
        let mut ser = Serializer::new();
        let _ = ser.serialize_str(self.version.as_str());
        let _ = ser.serialize_gstring(&self.account);
        let _ = ser.serialize_gstring(&self.password);
        let _ = serialize_str_list(&mut ser, &self.identification);
        ser.into_bytes()
    }
}

} // verus!
