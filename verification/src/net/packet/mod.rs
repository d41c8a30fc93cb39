use vstd::prelude::*;
use vstd::string::StringExecFns;

use crate::io::GraalIoError;
use vstd::utf8::{decode_utf8, valid_utf8};
use from_client::FromClientPacketId;
use from_server::FromServerPacketId;

/// Packets sent by the client.
pub mod from_client;
/// Packets sent by the server.
pub mod from_server;

verus! {

/// `str` equality: whether two strings hold the same characters.
#[verifier::external_body]
pub(crate) fn str_eq(a: &str, b: &str) -> (r: bool)
    ensures
        r == (a@ == b@),
{
    a == b
}

/// `std::string::FromUtf8Error`, carried as it is.
#[verifier::external_type_specification]
#[verifier::external_body]
pub struct ExFromUtf8Error(std::string::FromUtf8Error);

/// `String::from_utf8`: the bytes as a string when they are valid UTF-8, an
/// error otherwise.
#[verifier::external_body]
pub(crate) fn string_from_utf8(bytes: Vec<u8>) -> (r: Result<String, std::string::FromUtf8Error>)
    ensures
        match r {
            Ok(s) => valid_utf8(bytes@) && s@ == decode_utf8(bytes@),
            Err(_) => !valid_utf8(bytes@),
        },
{
    String::from_utf8(bytes)
}

/// The debug form of a `FromUtf8Error`, `format!("{:?}", e)`; nothing is
/// claimed of its text.
#[verifier::external_body]
pub(crate) fn utf8_error_debug(e: &std::string::FromUtf8Error) -> String {
    format!("{:?}", e)
}

/// The message for a script that is not valid UTF-8: a fixed text, then the
/// error's debug form.
pub(crate) fn script_utf8_message(e: &std::string::FromUtf8Error) -> (r: String)
    ensures
        "Failed to convert script to string: "@.is_prefix_of(r@),
{
    let debug = utf8_error_debug(e);
    let r = "Failed to convert script to string: ".to_owned().concat(debug.as_str());
    proof {
        let pre = "Failed to convert script to string: "@;
        assert(r@.subrange(0, pre.len() as int) =~= pre);
    }
    r
}

/// Enum representing an error when parsing a packet.
#[derive(Debug)]
pub enum PacketConversionError {
    /// An error of the underlying reader.
    GraalIo(GraalIoError),
    /// Error for an invalid packet id.
    InvalidId(u8),
    /// A packet id field whose value does not fit in a byte.
    IdOutOfRange(usize),
    /// Other error.
    Other(String),
}

/// Trait representing a packet for communication.
pub trait GPacket {
    /// Whether the packet's fields can be put on the wire.
    spec fn wire_ready(&self) -> bool;

    /// Get the id of the packet.
    fn id(&self) -> PacketId;

    /// Get the data of the packet.
    fn data(&self) -> Vec<u8>
        requires
            self.wire_ready(),
    ;
}

/// Enum representing the flow of a packet.
#[derive(Debug, PartialEq, Eq, Clone, Copy, Hash, Structural)]
pub enum PacketId {
    /// Packet sent from the client to the server.
    FromClient(FromClientPacketId),
    /// Packet sent from the server to the client.
    FromServer(FromServerPacketId),
}

impl PacketId {
    /// The byte that stands for the packet on the wire.
    pub open spec fn spec_value(self) -> u8 {
        match self {
            PacketId::FromClient(id) => id.spec_value(),
            PacketId::FromServer(id) => id.spec_value(),
        }
    }

    /// The byte that stands for the packet on the wire.
    pub fn value(&self) -> (r: u8)
        ensures
            r == self.spec_value(),
    {
        match self {
            PacketId::FromClient(id) => id.value(),
            PacketId::FromServer(id) => id.value(),
        }
    }
}

impl From<PacketId> for u8 {
    fn from(packet: PacketId) -> (r: u8)
    {
        packet.value()
    }
}

impl vstd::std_specs::convert::FromSpecImpl<PacketId> for u8 {
    open spec fn obeys_from_spec() -> bool {
        true
    }

    open spec fn from_spec(packet: PacketId) -> u8 {
        packet.spec_value()
    }
}

impl From<PacketId> for u64 {
    fn from(packet: PacketId) -> (r: u64)
    {
        packet.value() as u64
    }
}

impl vstd::std_specs::convert::FromSpecImpl<PacketId> for u64 {
    open spec fn obeys_from_spec() -> bool {
        true
    }

    open spec fn from_spec(packet: PacketId) -> u64 {
        packet.spec_value() as u64
    }
}

impl From<PacketId> for usize {
    fn from(packet: PacketId) -> (r: usize)
    {
        packet.value() as usize
    }
}

impl vstd::std_specs::convert::FromSpecImpl<PacketId> for usize {
    open spec fn obeys_from_spec() -> bool {
        true
    }

    open spec fn from_spec(packet: PacketId) -> usize {
        packet.spec_value() as usize
    }
}

/// Struct representing an unstructured packet: an id and its payload.
#[derive(Debug, Clone)]
pub struct GPacketImpl {
    id: PacketId,
    data: Vec<u8>,
}

impl GPacketImpl {
    /// The id of the packet.
    pub closed spec fn spec_id(self) -> PacketId {
        self.id
    }

    /// The payload of the packet.
    pub closed spec fn spec_data(self) -> Seq<u8> {
        self.data@
    }
}

impl GPacket for GPacketImpl {
    open spec fn wire_ready(&self) -> bool {
        true
    }

    fn id(&self) -> (r: PacketId)
        ensures
            r == self.spec_id(),
    {
        self.id
    }

    fn data(&self) -> (r: Vec<u8>)
        ensures
            r@ == self.spec_data(),
    {
        self.data.clone()
    }
}

/// A single packet event, handed from the reading task to the handlers.
#[derive(Debug, Clone)]
pub struct PacketEvent {
    /// The packet being sent / received.
    pub packet: GPacketImpl,
}

/// Struct representing a builder for a packet.
pub struct GPacketBuilder {
    id: PacketId,
    data: Vec<u8>,
}

impl GPacketBuilder {
    /// The id the packet will have.
    pub closed spec fn spec_id(self) -> PacketId {
        self.id
    }

    /// The payload the packet will have.
    pub closed spec fn spec_data(self) -> Seq<u8> {
        self.data@
    }

    /// Create a new builder for a packet with this id and no data.
    pub fn new(id: PacketId) -> (b: Self)
        ensures
            b.spec_id() == id,
            b.spec_data() == Seq::<u8>::empty(),
    {
        Self { id, data: Vec::new() }
    }

    /// Set the data of the packet.
    pub fn with_data(self, data: Vec<u8>) -> (b: Self)
        ensures
            b.spec_id() == self.spec_id(),
            b.spec_data() == data@,
    {
        let mut b = self;
        b.data = data;
        b
    }

    /// Build the packet.
    pub fn build(self) -> (p: GPacketImpl)
        ensures
            p.spec_id() == self.spec_id(),
            p.spec_data() == self.spec_data(),
    {
        GPacketImpl { id: self.id, data: self.data }
    }
}

/// The operations that every packet-identifier enum offers.
pub trait PacketIdTrait: Sized {
    /// The number of defined packets.
    fn count() -> usize;

    /// All defined packets, in the order of their definition.
    fn all() -> Vec<Self>;
}

} // verus!
