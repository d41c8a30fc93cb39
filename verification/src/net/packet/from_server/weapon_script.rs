use vstd::prelude::*;
use vstd::utf8::{decode_utf8, valid_utf8};

use crate::io::io_sync::{graal_readable, split_parts};
use crate::io::io_vec::IntoSyncGraalReader;
use crate::io::{GraalIoError, graal_value};
use crate::net::packet::from_server::FromServerPacketId;
use crate::net::packet::{GPacket, GPacketImpl, PacketConversionError, PacketId, string_from_utf8};

verus! {

/// The weapon script that the NPC server sends.
#[derive(Debug)]
pub struct NpcWeaponScript {
    /// The type of script (e.g., "weapon")
    pub script_type: String,
    /// The name of the script
    pub script_name: String,
    /// The weapon bytecode
    pub weapon_bytecode: Vec<u8>,
}

/// The length of the header of a weapon script packet: its first two bytes as a gu16.
pub open spec fn weapon_script_header_length(d: Seq<u8>) -> int {
    graal_value(d.take(2))
}

/// The parts of the header of a weapon script packet, split at commas.
pub open spec fn weapon_script_parts(d: Seq<u8>) -> Seq<Seq<u8>> {
    split_parts(d.subrange(2, 2 + weapon_script_header_length(d)), 44)
}

/// What reading an NpcWeaponScript packet of these bytes gives: an end of
/// data before the header is complete; a header of fewer than two parts; a
/// script type or name that is not UTF-8; or the type, the name and the
/// bytecode that follows the header.
pub open spec fn weapon_script_read(d: Seq<u8>, r: Result<NpcWeaponScript, PacketConversionError>) -> bool {
    let hl = weapon_script_header_length(d);
    let parts = weapon_script_parts(d);
    if d.len() < 2 || d.len() < 2 + hl {
        r == Err::<NpcWeaponScript, PacketConversionError>(
            PacketConversionError::GraalIo(GraalIoError::UnexpectedEof),
        )
    } else if parts.len() < 2 {
        (r matches Err(PacketConversionError::Other(m)) && m@ == "Invalid NpcWeaponScript packet"@)
    } else if !valid_utf8(parts[0]) {
        (r matches Err(PacketConversionError::Other(m)) && m@
            == "Failed to parse UTF-8 String from script type"@)
    } else if !valid_utf8(parts[1]) {
        (r matches Err(PacketConversionError::Other(m)) && m@
            == "Failed to parse UTF-8 String from script name"@)
    } else {
        &&& r matches Ok(p)
        &&& r->Ok_0.script_type@ == decode_utf8(parts[0])
        &&& r->Ok_0.script_name@ == decode_utf8(parts[1])
        &&& r->Ok_0.weapon_bytecode@ == d.skip(2 + hl)
    }
}

impl NpcWeaponScript {
    /// Reads the packet: a gu16 header length, the header (the script type and
    /// the script name, separated by a comma), then the bytecode.
    pub fn from_bytes(data: Vec<u8>) -> (r: Result<Self, PacketConversionError>)
        requires
            graal_readable(data@, 2),
        ensures
            weapon_script_read(data@, r),
    {
        let ghost d = data@;
        let mut reader = data.into_sync_graal_reader();
        let header_length = match reader.read_gu16() {
            Ok(v) => v,
            Err(e) => {
                return Err(PacketConversionError::GraalIo(e));
            },
        };
        proof {
            let t = d.take(2);
            reveal_with_fuel(graal_value, 3);
            assert(t.drop_last().drop_last().len() == 0);
            assert(graal_value(t) == (t[0] - 32) * 128 + (t[1] - 32));
            assert(header_length <= 0xffff);
        }
        let header = match reader.read_exact(header_length as usize) {
            Ok(v) => v,
            Err(e) => {
                return Err(PacketConversionError::GraalIo(e));
            },
        };
        proof {
            assert(header@ =~= d.subrange(2, 2 + weapon_script_header_length(d)));
        }
        let mut header_reader = header.into_sync_graal_reader();
        let parts = match header_reader.split_vec(44) {
            Ok(p) => p,
            Err(e) => {
                return Err(PacketConversionError::GraalIo(e));
            },
        };
        proof {
            assert(parts@.map_values(|p: Vec<u8>| p@).len() == parts@.len());
        }
        if parts.len() < 2 {
            return Err(PacketConversionError::Other("Invalid NpcWeaponScript packet".to_owned()));
        }
        proof {
            assert(parts@.map_values(|p: Vec<u8>| p@)[0] == parts@[0]@);
            assert(parts@.map_values(|p: Vec<u8>| p@)[1] == parts@[1]@);
        }
        let script_type = match string_from_utf8(parts[0].clone()) {
            Ok(s) => s,
            Err(_) => {
                return Err(
                    PacketConversionError::Other(
                        "Failed to parse UTF-8 String from script type".to_owned(),
                    ),
                );
            },
        };
        let script_name = match string_from_utf8(parts[1].clone()) {
            Ok(s) => s,
            Err(_) => {
                return Err(
                    PacketConversionError::Other(
                        "Failed to parse UTF-8 String from script name".to_owned(),
                    ),
                );
            },
        };
        let weapon_bytecode = match reader.read_to_end() {
            Ok(v) => v,
            Err(e) => {
                return Err(PacketConversionError::GraalIo(e));
            },
        };
        proof {
            assert(weapon_bytecode@ =~= d.skip(2 + weapon_script_header_length(d)));
        }
        Ok(Self { script_type, script_name, weapon_bytecode })
    }

    /// Reads an NpcWeaponScript packet (see `from_bytes`); a packet of another
    /// kind is refused.
    pub fn try_from_packet(packet: &GPacketImpl) -> (r: Result<Self, PacketConversionError>)
        requires
            packet.spec_id() == PacketId::FromServer(FromServerPacketId::NpcWeaponScript)
                ==> graal_readable(packet.spec_data(), 2),
        ensures
            packet.spec_id() != PacketId::FromServer(FromServerPacketId::NpcWeaponScript) ==> (r matches Err(
                PacketConversionError::Other(m),
            ) && m@ == "Expected NpcWeaponScript packet"@),
            packet.spec_id() == PacketId::FromServer(FromServerPacketId::NpcWeaponScript)
                ==> weapon_script_read(packet.spec_data(), r),
    {
        if packet.id() != PacketId::FromServer(FromServerPacketId::NpcWeaponScript) {
            return Err(PacketConversionError::Other("Expected NpcWeaponScript packet".to_owned()));
        }
        Self::from_bytes(packet.data())
    }
}

} // verus!
