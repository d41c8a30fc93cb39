use vstd::prelude::*;

use crate::net::packet::{PacketConversionError, PacketIdTrait, str_eq};

/// NC weapon get packet.
pub mod nc_weapon_get;
/// NPC weapon script packet.
pub mod weapon_script;

verus! {

/// Enum representing packets sent by the server; each variant stands for one byte on the wire.
#[derive(Debug, PartialEq, Eq, Clone, Copy, Hash, Structural)]
pub enum FromServerPacketId {
    /// Represents the packet RcChat
    RcChat,
    /// Represents the packet NpcServerAddr
    NpcServerAddr,
    /// Represents the packet NpcWeaponScript
    NpcWeaponScript,
    /// Represents the packet NcWeaponGet
    NcWeaponGet,
    /// Represents the packet SetEncKey
    SetEncKey,
    /// Represents the packet Bundle
    Bundle,
}

impl FromServerPacketId {
    /// The byte that stands for the packet on the wire.
    pub open spec fn spec_value(self) -> u8 {
        match self {
            FromServerPacketId::RcChat => 74u8,
            FromServerPacketId::NpcServerAddr => 79u8,
            FromServerPacketId::NpcWeaponScript => 140u8,
            FromServerPacketId::NcWeaponGet => 192u8,
            FromServerPacketId::SetEncKey => 0xFCu8,
            FromServerPacketId::Bundle => 0xFDu8,
        }
    }

    /// The packet that a byte stands for, if any.
    pub open spec fn spec_from_value(b: u8) -> Option<FromServerPacketId> {
        match b {
            74u8 => Some(FromServerPacketId::RcChat),
            79u8 => Some(FromServerPacketId::NpcServerAddr),
            140u8 => Some(FromServerPacketId::NpcWeaponScript),
            192u8 => Some(FromServerPacketId::NcWeaponGet),
            0xFCu8 => Some(FromServerPacketId::SetEncKey),
            0xFDu8 => Some(FromServerPacketId::Bundle),
            _ => None,
        }
    }

    /// The name of the packet.
    pub open spec fn spec_name(self) -> Seq<char> {
        match self {
            FromServerPacketId::RcChat => "RcChat"@,
            FromServerPacketId::NpcServerAddr => "NpcServerAddr"@,
            FromServerPacketId::NpcWeaponScript => "NpcWeaponScript"@,
            FromServerPacketId::NcWeaponGet => "NcWeaponGet"@,
            FromServerPacketId::SetEncKey => "SetEncKey"@,
            FromServerPacketId::Bundle => "Bundle"@,
        }
    }

    /// The packets in the order of their definition.
    pub open spec fn spec_all() -> Seq<FromServerPacketId> {
        seq![
            FromServerPacketId::RcChat,
            FromServerPacketId::NpcServerAddr,
            FromServerPacketId::NpcWeaponScript,
            FromServerPacketId::NcWeaponGet,
            FromServerPacketId::SetEncKey,
            FromServerPacketId::Bundle,
        ]
    }

    /// The byte that stands for the packet on the wire.
    pub fn value(&self) -> (r: u8)
        ensures
            r == self.spec_value(),
    {
        match self {
            FromServerPacketId::RcChat => 74,
            FromServerPacketId::NpcServerAddr => 79,
            FromServerPacketId::NpcWeaponScript => 140,
            FromServerPacketId::NcWeaponGet => 192,
            FromServerPacketId::SetEncKey => 0xFC,
            FromServerPacketId::Bundle => 0xFD,
        }
    }

    /// The packet that a byte stands for.
    pub fn try_from_u8(b: u8) -> (r: Result<FromServerPacketId, PacketConversionError>)
        ensures
            match Self::spec_from_value(b) {
                Some(id) => r == Ok::<FromServerPacketId, PacketConversionError>(id),
                None => r == Err::<FromServerPacketId, PacketConversionError>(
                    PacketConversionError::InvalidId(b),
                ),
            },
    {
        match b {
            74 => Ok(FromServerPacketId::RcChat),
            79 => Ok(FromServerPacketId::NpcServerAddr),
            140 => Ok(FromServerPacketId::NpcWeaponScript),
            192 => Ok(FromServerPacketId::NcWeaponGet),
            0xFC => Ok(FromServerPacketId::SetEncKey),
            0xFD => Ok(FromServerPacketId::Bundle),
            _ => Err(PacketConversionError::InvalidId(b)),
        }
    }

    /// The packet that the low byte of a value stands for.
    pub fn try_from_u16(v: u16) -> (r: Result<FromServerPacketId, PacketConversionError>)
        ensures
            match Self::spec_from_value(v as u8) {
                Some(id) => r == Ok::<FromServerPacketId, PacketConversionError>(id),
                None => r == Err::<FromServerPacketId, PacketConversionError>(
                    PacketConversionError::InvalidId(v as u8),
                ),
            },
    {
        Self::try_from_u8(v as u8)
    }

    /// The packet that the low byte of a value stands for.
    pub fn try_from_u32(v: u32) -> (r: Result<FromServerPacketId, PacketConversionError>)
        ensures
            match Self::spec_from_value(v as u8) {
                Some(id) => r == Ok::<FromServerPacketId, PacketConversionError>(id),
                None => r == Err::<FromServerPacketId, PacketConversionError>(
                    PacketConversionError::InvalidId(v as u8),
                ),
            },
    {
        Self::try_from_u8(v as u8)
    }

    /// The packet that the low byte of a value stands for.
    pub fn try_from_u64(v: u64) -> (r: Result<FromServerPacketId, PacketConversionError>)
        ensures
            match Self::spec_from_value(v as u8) {
                Some(id) => r == Ok::<FromServerPacketId, PacketConversionError>(id),
                None => r == Err::<FromServerPacketId, PacketConversionError>(
                    PacketConversionError::InvalidId(v as u8),
                ),
            },
    {
        Self::try_from_u8(v as u8)
    }

    /// The packet that the low byte of a value stands for.
    pub fn try_from_usize(v: usize) -> (r: Result<FromServerPacketId, PacketConversionError>)
        ensures
            match Self::spec_from_value(v as u8) {
                Some(id) => r == Ok::<FromServerPacketId, PacketConversionError>(id),
                None => r == Err::<FromServerPacketId, PacketConversionError>(
                    PacketConversionError::InvalidId(v as u8),
                ),
            },
    {
        Self::try_from_u8(v as u8)
    }

    /// The name of the packet.
    pub fn name(&self) -> (r: &'static str)
        ensures
            r@ == self.spec_name(),
    {
        match self {
            FromServerPacketId::RcChat => "RcChat",
            FromServerPacketId::NpcServerAddr => "NpcServerAddr",
            FromServerPacketId::NpcWeaponScript => "NpcWeaponScript",
            FromServerPacketId::NcWeaponGet => "NcWeaponGet",
            FromServerPacketId::SetEncKey => "SetEncKey",
            FromServerPacketId::Bundle => "Bundle",
        }
    }

    /// The packet with the given name, if any.
    pub fn from_name(s: &str) -> (r: Option<FromServerPacketId>)
        ensures
            match r {
                Some(id) => id.spec_name() == s@,
                None => forall|id: FromServerPacketId| #[trigger] id.spec_name() != s@,
            },
    {
        let all = Self::all();
        let mut i: usize = 0;
        while i < all.len()
            invariant
                all@ == Self::spec_all(),
                i <= all@.len(),
                forall|j: int| 0 <= j < i ==> (#[trigger] all@[j]).spec_name() != s@,
            decreases all@.len() - i,
        {
            if str_eq(all[i].name(), s) {
                return Some(all[i]);
            }
            i = i + 1;
        }
        proof {
            assert forall|id: FromServerPacketId| #[trigger] id.spec_name() != s@ by {
                lemma_from_server_all_contains(id);
                let k = choose|k: int| 0 <= k < Self::spec_all().len() && Self::spec_all()[k] == id;
                assert(all@[k] == id);
            }
        }
        None
    }
}

/// Every packet occurs in the list of all packets.
pub proof fn lemma_from_server_all_contains(id: FromServerPacketId)
    ensures
        exists|k: int| 0 <= k < FromServerPacketId::spec_all().len() && FromServerPacketId::spec_all()[k] == id,
{
    let all = FromServerPacketId::spec_all();
    match id {
        FromServerPacketId::RcChat => assert(all[0] == id),
        FromServerPacketId::NpcServerAddr => assert(all[1] == id),
        FromServerPacketId::NpcWeaponScript => assert(all[2] == id),
        FromServerPacketId::NcWeaponGet => assert(all[3] == id),
        FromServerPacketId::SetEncKey => assert(all[4] == id),
        FromServerPacketId::Bundle => assert(all[5] == id),
    }
}

/// Each packet sent by the server has the byte that the protocol gives it on
/// the wire, and that byte stands for it alone.
pub proof fn lemma_from_server_protocol_values()
    ensures
        FromServerPacketId::RcChat.spec_value() == 74,
        FromServerPacketId::NpcServerAddr.spec_value() == 79,
        FromServerPacketId::NpcWeaponScript.spec_value() == 140,
        FromServerPacketId::NcWeaponGet.spec_value() == 192,
        FromServerPacketId::SetEncKey.spec_value() == 252,
        FromServerPacketId::Bundle.spec_value() == 253,
        forall|b: u8| #[trigger] FromServerPacketId::spec_from_value(b) is Some ==> FromServerPacketId::spec_from_value(b)->0.spec_value() == b,
        forall|id: FromServerPacketId| #[trigger] FromServerPacketId::spec_from_value(id.spec_value()) == Some(id),
{
}

/// The byte of a packet stands for that packet, and only a packet's own byte does.
pub proof fn lemma_from_server_value_roundtrip(id: FromServerPacketId, b: u8)
    ensures
        FromServerPacketId::spec_from_value(id.spec_value()) == Some(id),
        FromServerPacketId::spec_from_value(b) == Some(id) ==> id.spec_value() == b,
{
}

impl PacketIdTrait for FromServerPacketId {
    fn count() -> (n: usize)
        ensures
            n == Self::spec_all().len(),
    {
        6
    }

    fn all() -> (v: Vec<FromServerPacketId>)
        ensures
            v@ == Self::spec_all(),
    {
        let mut v: Vec<FromServerPacketId> = Vec::new();
        v.push(FromServerPacketId::RcChat);
        proof {
            assert(v@ =~= Self::spec_all().take(1));
        }
        v.push(FromServerPacketId::NpcServerAddr);
        proof {
            assert(v@ =~= Self::spec_all().take(2));
        }
        v.push(FromServerPacketId::NpcWeaponScript);
        proof {
            assert(v@ =~= Self::spec_all().take(3));
        }
        v.push(FromServerPacketId::NcWeaponGet);
        proof {
            assert(v@ =~= Self::spec_all().take(4));
        }
        v.push(FromServerPacketId::SetEncKey);
        proof {
            assert(v@ =~= Self::spec_all().take(5));
        }
        v.push(FromServerPacketId::Bundle);
        proof {
            assert(v@ =~= Self::spec_all().take(6));
        }
        proof {
            assert(v@ =~= Self::spec_all());
        }
        v
    }
}

} // verus!

