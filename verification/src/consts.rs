use vstd::prelude::*;

verus! {

/// The host of the server.
pub const SERVER_HOST: &'static str = "198.27.86.142";

/// The port of the server.
pub const SERVER_PORT: u16 = 14801;

/// The version of the RC Protocol.
pub const RC_PROTOCOL_VERSION: &'static str = "GSERV025";

/// The version of the NC Protocol.
pub const NC_PROTOCOL_VERSION: &'static str = "NCL21075";

/// The version of the Game Protocol.
pub const GAME_PROTOCOL_VERSION: &'static str = "G3D2204D";

/// The handshake that opens a v6 connection.
pub const V6_PROTOCOL_STRING: &'static str = "GNP1905C";

} // verus!
