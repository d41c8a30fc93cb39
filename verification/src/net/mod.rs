/// The clients: their configurations and their decisions.
pub mod client;
/// Packets, their identifiers and their formats.
pub mod packet;
/// The v4, v5 and v6 protocols: framing, encryption and headers.
pub mod protocol;
/// Serialization of packet fields.
pub mod serialization;
