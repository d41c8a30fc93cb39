use vstd::prelude::*;

use crate::net::packet::{PacketConversionError, PacketIdTrait, str_eq};

/// Game Login packet.
pub mod game_login;
/// NC Login packet.
pub mod nc_login;
/// NC query packet.
pub mod nc_query;
/// NC Add weapon
pub mod nc_weapon_add;
/// NC weapon get packet.
pub mod nc_weapon_get;
/// RC Chat packet.
pub mod rc_chat;
/// RC Login packet.
pub mod rc_login;

verus! {

/// Enum representing packets sent by the client; each variant stands for one byte on the wire.
#[derive(Debug, PartialEq, Eq, Clone, Copy, Hash, Structural)]
pub enum FromClientPacketId {
    /// Represents the packet LevelWarp
    LevelWarp,
    /// Represents the packet BoardModify
    BoardModify,
    /// Represents the packet PlayerProps
    PlayerProps,
    /// Represents the packet V4Login
    V4Login,
    /// Represents the packet BombAdd
    BombAdd,
    /// Represents the packet V6Login
    V6Login,
    /// Represents the packet V5Login
    V5Login,
    /// Represents the packet HorseAdd
    HorseAdd,
    /// Represents the packet HorseDel
    HorseDel,
    /// Represents the packet ArrowAdd
    ArrowAdd,
    /// Represents the packet FireSpy
    FireSpy,
    /// Represents the packet ThrowCarried
    ThrowCarried,
    /// Represents the packet ItemAdd
    ItemAdd,
    /// Represents the packet ItemDel
    ItemDel,
    /// Represents the packet ClaimPker
    ClaimPker,
    /// Represents the packet BaddyProps
    BaddyProps,
    /// Represents the packet BaddyHurt
    BaddyHurt,
    /// Represents the packet BaddyAdd
    BaddyAdd,
    /// Represents the packet FlagSet
    FlagSet,
    /// Represents the packet FlagDel
    FlagDel,
    /// Represents the packet OpenChest
    OpenChest,
    /// Represents the packet PutNpc
    PutNpc,
    /// Represents the packet NpcDel
    NpcDel,
    /// Represents the packet WantFile
    WantFile,
    /// Represents the packet ShowImg
    ShowImg,
    /// Represents the packet HurtPlayer
    HurtPlayer,
    /// Represents the packet Explosion
    Explosion,
    /// Represents the packet PrivateMessage
    PrivateMessage,
    /// Represents the packet NpcWeaponDel
    NpcWeaponDel,
    /// Represents the packet LevelWarpMod
    LevelWarpMod,
    /// Represents the packet PacketCount
    PacketCount,
    /// Represents the packet ItemTake
    ItemTake,
    /// Represents the packet WeaponAdd
    WeaponAdd,
    /// Represents the packet UpdateFile
    UpdateFile,
    /// Represents the packet AdjacentLevel
    AdjacentLevel,
    /// Represents the packet HitObjects
    HitObjects,
    /// Represents the packet Lang
    Lang,
    /// Represents the packet TriggerAction
    TriggerAction,
    /// Represents the packet MapInfo
    MapInfo,
    /// Represents the packet Shoot
    Shoot,
    /// Represents the packet ServerWarp
    ServerWarp,
    /// Represents the packet MutePlayer
    MutePlayer,
    /// Represents the packet ProcessList
    ProcessList,
    /// Represents the packet VerifyWantSend
    VerifyWantSend,
    /// Represents the packet Shoot2
    Shoot2,
    /// Represents the packet RawData
    RawData,
    /// Represents the packet RcServerOptionsGet
    RcServerOptionsGet,
    /// Represents the packet RcServerOptionsSet
    RcServerOptionsSet,
    /// Represents the packet RcFolderConfigGet
    RcFolderConfigGet,
    /// Represents the packet RcFolderConfigSet
    RcFolderConfigSet,
    /// Represents the packet RcRespawnSet
    RcRespawnSet,
    /// Represents the packet RcHorseLifeSet
    RcHorseLifeSet,
    /// Represents the packet RcApIncrementSet
    RcApIncrementSet,
    /// Represents the packet RcBaddyRespawnSet
    RcBaddyRespawnSet,
    /// Represents the packet RcPlayerPropsGet
    RcPlayerPropsGet,
    /// Represents the packet RcPlayerPropsSet
    RcPlayerPropsSet,
    /// Represents the packet RcDisconnectPlayer
    RcDisconnectPlayer,
    /// Represents the packet RcUpdateLevels
    RcUpdateLevels,
    /// Represents the packet RcAdminMessage
    RcAdminMessage,
    /// Represents the packet RcPrivAdminMessage
    RcPrivAdminMessage,
    /// Represents the packet RcListRcs
    RcListRcs,
    /// Represents the packet RcDisconnectRc
    RcDisconnectRc,
    /// Represents the packet RcApplyReason
    RcApplyReason,
    /// Represents the packet RcServerFlagsGet
    RcServerFlagsGet,
    /// Represents the packet RcServerFlagsSet
    RcServerFlagsSet,
    /// Represents the packet RcAccountAdd
    RcAccountAdd,
    /// Represents the packet RcAccountDel
    RcAccountDel,
    /// Represents the packet RcAccountListGet
    RcAccountListGet,
    /// Represents the packet RcPlayerPropsGet2
    RcPlayerPropsGet2,
    /// Represents the packet RcPlayerPropsGet3
    RcPlayerPropsGet3,
    /// Represents the packet RcPlayerPropsReset
    RcPlayerPropsReset,
    /// Represents the packet RcPlayerPropsSet2
    RcPlayerPropsSet2,
    /// Represents the packet RcAccountGet
    RcAccountGet,
    /// Represents the packet RcAccountSet
    RcAccountSet,
    /// Represents the packet RcChat
    RcChat,
    /// Represents the packet ProfileGet
    ProfileGet,
    /// Represents the packet ProfileSet
    ProfileSet,
    /// Represents the packet RcWarpPlayer
    RcWarpPlayer,
    /// Represents the packet RcPlayerRightsGet
    RcPlayerRightsGet,
    /// Represents the packet RcPlayerRightsSet
    RcPlayerRightsSet,
    /// Represents the packet RcPlayerCommentsGet
    RcPlayerCommentsGet,
    /// Represents the packet RcPlayerCommentsSet
    RcPlayerCommentsSet,
    /// Represents the packet RcPlayerBanGet
    RcPlayerBanGet,
    /// Represents the packet RcPlayerBanSet
    RcPlayerBanSet,
    /// Represents the packet RcFileBrowserStart
    RcFileBrowserStart,
    /// Represents the packet RcFileBrowserCd
    RcFileBrowserCd,
    /// Represents the packet RcFileBrowserEnd
    RcFileBrowserEnd,
    /// Represents the packet RcFileBrowserDown
    RcFileBrowserDown,
    /// Represents the packet RcFileBrowserUp
    RcFileBrowserUp,
    /// Represents the packet NpcServerQuery
    NpcServerQuery,
    /// Represents the packet RcFileBrowserMove
    RcFileBrowserMove,
    /// Represents the packet RcFileBrowserDelete
    RcFileBrowserDelete,
    /// Represents the packet RcFileBrowserRename
    RcFileBrowserRename,
    /// Represents the packet NcNpcGet
    NcNpcGet,
    /// Represents the packet NcNpcDelete
    NcNpcDelete,
    /// Represents the packet NcNpcReset
    NcNpcReset,
    /// Represents the packet NcNpcScriptGet
    NcNpcScriptGet,
    /// Represents the packet NcNpcWarp
    NcNpcWarp,
    /// Represents the packet NcNpcFlagsGet
    NcNpcFlagsGet,
    /// Represents the packet NcNpcScriptSet
    NcNpcScriptSet,
    /// Represents the packet NcNpcFlagsSet
    NcNpcFlagsSet,
    /// Represents the packet NcNpcAdd
    NcNpcAdd,
    /// Represents the packet NcClassEdit
    NcClassEdit,
    /// Represents the packet NcClassAdd
    NcClassAdd,
    /// Represents the packet NcLocalNpcsGet
    NcLocalNpcsGet,
    /// Represents the packet NcWeaponListGet
    NcWeaponListGet,
    /// Represents the packet NcWeaponGet
    NcWeaponGet,
    /// Represents the packet NcWeaponAdd
    NcWeaponAdd,
    /// Represents the packet NcWeaponDelete
    NcWeaponDelete,
    /// Represents the packet NcClassDelete
    NcClassDelete,
    /// Represents the packet RequestUpdateBoard
    RequestUpdateBoard,
    /// Represents the packet NcLevelListGet
    NcLevelListGet,
    /// Represents the packet NcLevelListSet
    NcLevelListSet,
    /// Represents the packet RequestText
    RequestText,
    /// Represents the packet SendText
    SendText,
    /// Represents the packet RcLargeFileStart
    RcLargeFileStart,
    /// Represents the packet RcLargeFileEnd
    RcLargeFileEnd,
    /// Represents the packet UpdateGani
    UpdateGani,
    /// Represents the packet UpdateScript
    UpdateScript,
    /// Represents the packet UpdatePackageRequestFile
    UpdatePackageRequestFile,
    /// Represents the packet RcFolderDelete
    RcFolderDelete,
    /// Represents the packet UpdateClass
    UpdateClass,
    /// Represents the packet SetEncKey
    SetEncKey,
    /// Represents the packet Bundle
    Bundle,
}

impl FromClientPacketId {
    /// The byte that stands for the packet on the wire.
    pub open spec fn spec_value(self) -> u8 {
        match self {
            FromClientPacketId::LevelWarp => 0x0u8,
            FromClientPacketId::BoardModify => 0x1u8,
            FromClientPacketId::PlayerProps => 0x2u8,
            FromClientPacketId::V4Login => 0x3u8,
            FromClientPacketId::BombAdd => 0x4u8,
            FromClientPacketId::V6Login => 0x5u8,
            FromClientPacketId::V5Login => 0x6u8,
            FromClientPacketId::HorseAdd => 0x7u8,
            FromClientPacketId::HorseDel => 0x8u8,
            FromClientPacketId::ArrowAdd => 0x9u8,
            FromClientPacketId::FireSpy => 0xAu8,
            FromClientPacketId::ThrowCarried => 0xBu8,
            FromClientPacketId::ItemAdd => 0xCu8,
            FromClientPacketId::ItemDel => 0xDu8,
            FromClientPacketId::ClaimPker => 0xEu8,
            FromClientPacketId::BaddyProps => 0xFu8,
            FromClientPacketId::BaddyHurt => 0x10u8,
            FromClientPacketId::BaddyAdd => 0x11u8,
            FromClientPacketId::FlagSet => 0x12u8,
            FromClientPacketId::FlagDel => 0x13u8,
            FromClientPacketId::OpenChest => 0x14u8,
            FromClientPacketId::PutNpc => 0x15u8,
            FromClientPacketId::NpcDel => 0x16u8,
            FromClientPacketId::WantFile => 0x17u8,
            FromClientPacketId::ShowImg => 0x18u8,
            FromClientPacketId::HurtPlayer => 0x1Au8,
            FromClientPacketId::Explosion => 0x1Bu8,
            FromClientPacketId::PrivateMessage => 0x1Cu8,
            FromClientPacketId::NpcWeaponDel => 0x1Du8,
            FromClientPacketId::LevelWarpMod => 0x1Eu8,
            FromClientPacketId::PacketCount => 0x1Fu8,
            FromClientPacketId::ItemTake => 0x20u8,
            FromClientPacketId::WeaponAdd => 0x21u8,
            FromClientPacketId::UpdateFile => 0x22u8,
            FromClientPacketId::AdjacentLevel => 0x23u8,
            FromClientPacketId::HitObjects => 0x24u8,
            FromClientPacketId::Lang => 0x25u8,
            FromClientPacketId::TriggerAction => 0x26u8,
            FromClientPacketId::MapInfo => 0x27u8,
            FromClientPacketId::Shoot => 0x28u8,
            FromClientPacketId::ServerWarp => 0x29u8,
            FromClientPacketId::MutePlayer => 0x2Bu8,
            FromClientPacketId::ProcessList => 0x2Cu8,
            FromClientPacketId::VerifyWantSend => 0x2Fu8,
            FromClientPacketId::Shoot2 => 0x30u8,
            FromClientPacketId::RawData => 0x32u8,
            FromClientPacketId::RcServerOptionsGet => 0x33u8,
            FromClientPacketId::RcServerOptionsSet => 0x34u8,
            FromClientPacketId::RcFolderConfigGet => 0x35u8,
            FromClientPacketId::RcFolderConfigSet => 0x36u8,
            FromClientPacketId::RcRespawnSet => 0x37u8,
            FromClientPacketId::RcHorseLifeSet => 0x38u8,
            FromClientPacketId::RcApIncrementSet => 0x39u8,
            FromClientPacketId::RcBaddyRespawnSet => 0x3Au8,
            FromClientPacketId::RcPlayerPropsGet => 0x3Bu8,
            FromClientPacketId::RcPlayerPropsSet => 0x3Cu8,
            FromClientPacketId::RcDisconnectPlayer => 0x3Du8,
            FromClientPacketId::RcUpdateLevels => 0x3Eu8,
            FromClientPacketId::RcAdminMessage => 0x3Fu8,
            FromClientPacketId::RcPrivAdminMessage => 0x40u8,
            FromClientPacketId::RcListRcs => 0x41u8,
            FromClientPacketId::RcDisconnectRc => 0x42u8,
            FromClientPacketId::RcApplyReason => 0x43u8,
            FromClientPacketId::RcServerFlagsGet => 0x44u8,
            FromClientPacketId::RcServerFlagsSet => 0x45u8,
            FromClientPacketId::RcAccountAdd => 0x46u8,
            FromClientPacketId::RcAccountDel => 0x47u8,
            FromClientPacketId::RcAccountListGet => 0x48u8,
            FromClientPacketId::RcPlayerPropsGet2 => 0x49u8,
            FromClientPacketId::RcPlayerPropsGet3 => 0x4Au8,
            FromClientPacketId::RcPlayerPropsReset => 0x4Bu8,
            FromClientPacketId::RcPlayerPropsSet2 => 0x4Cu8,
            FromClientPacketId::RcAccountGet => 0x4Du8,
            FromClientPacketId::RcAccountSet => 0x4Eu8,
            FromClientPacketId::RcChat => 0x4Fu8,
            FromClientPacketId::ProfileGet => 0x50u8,
            FromClientPacketId::ProfileSet => 0x51u8,
            FromClientPacketId::RcWarpPlayer => 0x52u8,
            FromClientPacketId::RcPlayerRightsGet => 0x53u8,
            FromClientPacketId::RcPlayerRightsSet => 0x54u8,
            FromClientPacketId::RcPlayerCommentsGet => 0x55u8,
            FromClientPacketId::RcPlayerCommentsSet => 0x56u8,
            FromClientPacketId::RcPlayerBanGet => 0x57u8,
            FromClientPacketId::RcPlayerBanSet => 0x58u8,
            FromClientPacketId::RcFileBrowserStart => 0x59u8,
            FromClientPacketId::RcFileBrowserCd => 0x5Au8,
            FromClientPacketId::RcFileBrowserEnd => 0x5Bu8,
            FromClientPacketId::RcFileBrowserDown => 0x5Cu8,
            FromClientPacketId::RcFileBrowserUp => 0x5Du8,
            FromClientPacketId::NpcServerQuery => 0x5Eu8,
            FromClientPacketId::RcFileBrowserMove => 0x60u8,
            FromClientPacketId::RcFileBrowserDelete => 0x61u8,
            FromClientPacketId::RcFileBrowserRename => 0x62u8,
            FromClientPacketId::NcNpcGet => 0x67u8,
            FromClientPacketId::NcNpcDelete => 0x68u8,
            FromClientPacketId::NcNpcReset => 0x69u8,
            FromClientPacketId::NcNpcScriptGet => 0x6Au8,
            FromClientPacketId::NcNpcWarp => 0x6Bu8,
            FromClientPacketId::NcNpcFlagsGet => 0x6Cu8,
            FromClientPacketId::NcNpcScriptSet => 0x6Du8,
            FromClientPacketId::NcNpcFlagsSet => 0x6Eu8,
            FromClientPacketId::NcNpcAdd => 0x6Fu8,
            FromClientPacketId::NcClassEdit => 0x70u8,
            FromClientPacketId::NcClassAdd => 0x71u8,
            FromClientPacketId::NcLocalNpcsGet => 0x72u8,
            FromClientPacketId::NcWeaponListGet => 0x73u8,
            FromClientPacketId::NcWeaponGet => 0x74u8,
            FromClientPacketId::NcWeaponAdd => 0x75u8,
            FromClientPacketId::NcWeaponDelete => 0x76u8,
            FromClientPacketId::NcClassDelete => 0x77u8,
            FromClientPacketId::RequestUpdateBoard => 0x82u8,
            FromClientPacketId::NcLevelListGet => 0x96u8,
            FromClientPacketId::NcLevelListSet => 0x97u8,
            FromClientPacketId::RequestText => 0x98u8,
            FromClientPacketId::SendText => 0x9Au8,
            FromClientPacketId::RcLargeFileStart => 0x9Bu8,
            FromClientPacketId::RcLargeFileEnd => 0x9Cu8,
            FromClientPacketId::UpdateGani => 0x9Du8,
            FromClientPacketId::UpdateScript => 0x9Eu8,
            FromClientPacketId::UpdatePackageRequestFile => 0x9Fu8,
            FromClientPacketId::RcFolderDelete => 0xA0u8,
            FromClientPacketId::UpdateClass => 0xA1u8,
            FromClientPacketId::SetEncKey => 0xFCu8,
            FromClientPacketId::Bundle => 0xFDu8,
        }
    }

    /// The packet that a byte stands for, if any.
    pub open spec fn spec_from_value(b: u8) -> Option<FromClientPacketId> {
        match b {
            0x0u8 => Some(FromClientPacketId::LevelWarp),
            0x1u8 => Some(FromClientPacketId::BoardModify),
            0x2u8 => Some(FromClientPacketId::PlayerProps),
            0x3u8 => Some(FromClientPacketId::V4Login),
            0x4u8 => Some(FromClientPacketId::BombAdd),
            0x5u8 => Some(FromClientPacketId::V6Login),
            0x6u8 => Some(FromClientPacketId::V5Login),
            0x7u8 => Some(FromClientPacketId::HorseAdd),
            0x8u8 => Some(FromClientPacketId::HorseDel),
            0x9u8 => Some(FromClientPacketId::ArrowAdd),
            0xAu8 => Some(FromClientPacketId::FireSpy),
            0xBu8 => Some(FromClientPacketId::ThrowCarried),
            0xCu8 => Some(FromClientPacketId::ItemAdd),
            0xDu8 => Some(FromClientPacketId::ItemDel),
            0xEu8 => Some(FromClientPacketId::ClaimPker),
            0xFu8 => Some(FromClientPacketId::BaddyProps),
            0x10u8 => Some(FromClientPacketId::BaddyHurt),
            0x11u8 => Some(FromClientPacketId::BaddyAdd),
            0x12u8 => Some(FromClientPacketId::FlagSet),
            0x13u8 => Some(FromClientPacketId::FlagDel),
            0x14u8 => Some(FromClientPacketId::OpenChest),
            0x15u8 => Some(FromClientPacketId::PutNpc),
            0x16u8 => Some(FromClientPacketId::NpcDel),
            0x17u8 => Some(FromClientPacketId::WantFile),
            0x18u8 => Some(FromClientPacketId::ShowImg),
            0x1Au8 => Some(FromClientPacketId::HurtPlayer),
            0x1Bu8 => Some(FromClientPacketId::Explosion),
            0x1Cu8 => Some(FromClientPacketId::PrivateMessage),
            0x1Du8 => Some(FromClientPacketId::NpcWeaponDel),
            0x1Eu8 => Some(FromClientPacketId::LevelWarpMod),
            0x1Fu8 => Some(FromClientPacketId::PacketCount),
            0x20u8 => Some(FromClientPacketId::ItemTake),
            0x21u8 => Some(FromClientPacketId::WeaponAdd),
            0x22u8 => Some(FromClientPacketId::UpdateFile),
            0x23u8 => Some(FromClientPacketId::AdjacentLevel),
            0x24u8 => Some(FromClientPacketId::HitObjects),
            0x25u8 => Some(FromClientPacketId::Lang),
            0x26u8 => Some(FromClientPacketId::TriggerAction),
            0x27u8 => Some(FromClientPacketId::MapInfo),
            0x28u8 => Some(FromClientPacketId::Shoot),
            0x29u8 => Some(FromClientPacketId::ServerWarp),
            0x2Bu8 => Some(FromClientPacketId::MutePlayer),
            0x2Cu8 => Some(FromClientPacketId::ProcessList),
            0x2Fu8 => Some(FromClientPacketId::VerifyWantSend),
            0x30u8 => Some(FromClientPacketId::Shoot2),
            0x32u8 => Some(FromClientPacketId::RawData),
            0x33u8 => Some(FromClientPacketId::RcServerOptionsGet),
            0x34u8 => Some(FromClientPacketId::RcServerOptionsSet),
            0x35u8 => Some(FromClientPacketId::RcFolderConfigGet),
            0x36u8 => Some(FromClientPacketId::RcFolderConfigSet),
            0x37u8 => Some(FromClientPacketId::RcRespawnSet),
            0x38u8 => Some(FromClientPacketId::RcHorseLifeSet),
            0x39u8 => Some(FromClientPacketId::RcApIncrementSet),
            0x3Au8 => Some(FromClientPacketId::RcBaddyRespawnSet),
            0x3Bu8 => Some(FromClientPacketId::RcPlayerPropsGet),
            0x3Cu8 => Some(FromClientPacketId::RcPlayerPropsSet),
            0x3Du8 => Some(FromClientPacketId::RcDisconnectPlayer),
            0x3Eu8 => Some(FromClientPacketId::RcUpdateLevels),
            0x3Fu8 => Some(FromClientPacketId::RcAdminMessage),
            0x40u8 => Some(FromClientPacketId::RcPrivAdminMessage),
            0x41u8 => Some(FromClientPacketId::RcListRcs),
            0x42u8 => Some(FromClientPacketId::RcDisconnectRc),
            0x43u8 => Some(FromClientPacketId::RcApplyReason),
            0x44u8 => Some(FromClientPacketId::RcServerFlagsGet),
            0x45u8 => Some(FromClientPacketId::RcServerFlagsSet),
            0x46u8 => Some(FromClientPacketId::RcAccountAdd),
            0x47u8 => Some(FromClientPacketId::RcAccountDel),
            0x48u8 => Some(FromClientPacketId::RcAccountListGet),
            0x49u8 => Some(FromClientPacketId::RcPlayerPropsGet2),
            0x4Au8 => Some(FromClientPacketId::RcPlayerPropsGet3),
            0x4Bu8 => Some(FromClientPacketId::RcPlayerPropsReset),
            0x4Cu8 => Some(FromClientPacketId::RcPlayerPropsSet2),
            0x4Du8 => Some(FromClientPacketId::RcAccountGet),
            0x4Eu8 => Some(FromClientPacketId::RcAccountSet),
            0x4Fu8 => Some(FromClientPacketId::RcChat),
            0x50u8 => Some(FromClientPacketId::ProfileGet),
            0x51u8 => Some(FromClientPacketId::ProfileSet),
            0x52u8 => Some(FromClientPacketId::RcWarpPlayer),
            0x53u8 => Some(FromClientPacketId::RcPlayerRightsGet),
            0x54u8 => Some(FromClientPacketId::RcPlayerRightsSet),
            0x55u8 => Some(FromClientPacketId::RcPlayerCommentsGet),
            0x56u8 => Some(FromClientPacketId::RcPlayerCommentsSet),
            0x57u8 => Some(FromClientPacketId::RcPlayerBanGet),
            0x58u8 => Some(FromClientPacketId::RcPlayerBanSet),
            0x59u8 => Some(FromClientPacketId::RcFileBrowserStart),
            0x5Au8 => Some(FromClientPacketId::RcFileBrowserCd),
            0x5Bu8 => Some(FromClientPacketId::RcFileBrowserEnd),
            0x5Cu8 => Some(FromClientPacketId::RcFileBrowserDown),
            0x5Du8 => Some(FromClientPacketId::RcFileBrowserUp),
            0x5Eu8 => Some(FromClientPacketId::NpcServerQuery),
            0x60u8 => Some(FromClientPacketId::RcFileBrowserMove),
            0x61u8 => Some(FromClientPacketId::RcFileBrowserDelete),
            0x62u8 => Some(FromClientPacketId::RcFileBrowserRename),
            0x67u8 => Some(FromClientPacketId::NcNpcGet),
            0x68u8 => Some(FromClientPacketId::NcNpcDelete),
            0x69u8 => Some(FromClientPacketId::NcNpcReset),
            0x6Au8 => Some(FromClientPacketId::NcNpcScriptGet),
            0x6Bu8 => Some(FromClientPacketId::NcNpcWarp),
            0x6Cu8 => Some(FromClientPacketId::NcNpcFlagsGet),
            0x6Du8 => Some(FromClientPacketId::NcNpcScriptSet),
            0x6Eu8 => Some(FromClientPacketId::NcNpcFlagsSet),
            0x6Fu8 => Some(FromClientPacketId::NcNpcAdd),
            0x70u8 => Some(FromClientPacketId::NcClassEdit),
            0x71u8 => Some(FromClientPacketId::NcClassAdd),
            0x72u8 => Some(FromClientPacketId::NcLocalNpcsGet),
            0x73u8 => Some(FromClientPacketId::NcWeaponListGet),
            0x74u8 => Some(FromClientPacketId::NcWeaponGet),
            0x75u8 => Some(FromClientPacketId::NcWeaponAdd),
            0x76u8 => Some(FromClientPacketId::NcWeaponDelete),
            0x77u8 => Some(FromClientPacketId::NcClassDelete),
            0x82u8 => Some(FromClientPacketId::RequestUpdateBoard),
            0x96u8 => Some(FromClientPacketId::NcLevelListGet),
            0x97u8 => Some(FromClientPacketId::NcLevelListSet),
            0x98u8 => Some(FromClientPacketId::RequestText),
            0x9Au8 => Some(FromClientPacketId::SendText),
            0x9Bu8 => Some(FromClientPacketId::RcLargeFileStart),
            0x9Cu8 => Some(FromClientPacketId::RcLargeFileEnd),
            0x9Du8 => Some(FromClientPacketId::UpdateGani),
            0x9Eu8 => Some(FromClientPacketId::UpdateScript),
            0x9Fu8 => Some(FromClientPacketId::UpdatePackageRequestFile),
            0xA0u8 => Some(FromClientPacketId::RcFolderDelete),
            0xA1u8 => Some(FromClientPacketId::UpdateClass),
            0xFCu8 => Some(FromClientPacketId::SetEncKey),
            0xFDu8 => Some(FromClientPacketId::Bundle),
            _ => None,
        }
    }

    /// The name of the packet.
    pub open spec fn spec_name(self) -> Seq<char> {
        match self {
            FromClientPacketId::LevelWarp => "LevelWarp"@,
            FromClientPacketId::BoardModify => "BoardModify"@,
            FromClientPacketId::PlayerProps => "PlayerProps"@,
            FromClientPacketId::V4Login => "V4Login"@,
            FromClientPacketId::BombAdd => "BombAdd"@,
            FromClientPacketId::V6Login => "V6Login"@,
            FromClientPacketId::V5Login => "V5Login"@,
            FromClientPacketId::HorseAdd => "HorseAdd"@,
            FromClientPacketId::HorseDel => "HorseDel"@,
            FromClientPacketId::ArrowAdd => "ArrowAdd"@,
            FromClientPacketId::FireSpy => "FireSpy"@,
            FromClientPacketId::ThrowCarried => "ThrowCarried"@,
            FromClientPacketId::ItemAdd => "ItemAdd"@,
            FromClientPacketId::ItemDel => "ItemDel"@,
            FromClientPacketId::ClaimPker => "ClaimPker"@,
            FromClientPacketId::BaddyProps => "BaddyProps"@,
            FromClientPacketId::BaddyHurt => "BaddyHurt"@,
            FromClientPacketId::BaddyAdd => "BaddyAdd"@,
            FromClientPacketId::FlagSet => "FlagSet"@,
            FromClientPacketId::FlagDel => "FlagDel"@,
            FromClientPacketId::OpenChest => "OpenChest"@,
            FromClientPacketId::PutNpc => "PutNpc"@,
            FromClientPacketId::NpcDel => "NpcDel"@,
            FromClientPacketId::WantFile => "WantFile"@,
            FromClientPacketId::ShowImg => "ShowImg"@,
            FromClientPacketId::HurtPlayer => "HurtPlayer"@,
            FromClientPacketId::Explosion => "Explosion"@,
            FromClientPacketId::PrivateMessage => "PrivateMessage"@,
            FromClientPacketId::NpcWeaponDel => "NpcWeaponDel"@,
            FromClientPacketId::LevelWarpMod => "LevelWarpMod"@,
            FromClientPacketId::PacketCount => "PacketCount"@,
            FromClientPacketId::ItemTake => "ItemTake"@,
            FromClientPacketId::WeaponAdd => "WeaponAdd"@,
            FromClientPacketId::UpdateFile => "UpdateFile"@,
            FromClientPacketId::AdjacentLevel => "AdjacentLevel"@,
            FromClientPacketId::HitObjects => "HitObjects"@,
            FromClientPacketId::Lang => "Lang"@,
            FromClientPacketId::TriggerAction => "TriggerAction"@,
            FromClientPacketId::MapInfo => "MapInfo"@,
            FromClientPacketId::Shoot => "Shoot"@,
            FromClientPacketId::ServerWarp => "ServerWarp"@,
            FromClientPacketId::MutePlayer => "MutePlayer"@,
            FromClientPacketId::ProcessList => "ProcessList"@,
            FromClientPacketId::VerifyWantSend => "VerifyWantSend"@,
            FromClientPacketId::Shoot2 => "Shoot2"@,
            FromClientPacketId::RawData => "RawData"@,
            FromClientPacketId::RcServerOptionsGet => "RcServerOptionsGet"@,
            FromClientPacketId::RcServerOptionsSet => "RcServerOptionsSet"@,
            FromClientPacketId::RcFolderConfigGet => "RcFolderConfigGet"@,
            FromClientPacketId::RcFolderConfigSet => "RcFolderConfigSet"@,
            FromClientPacketId::RcRespawnSet => "RcRespawnSet"@,
            FromClientPacketId::RcHorseLifeSet => "RcHorseLifeSet"@,
            FromClientPacketId::RcApIncrementSet => "RcApIncrementSet"@,
            FromClientPacketId::RcBaddyRespawnSet => "RcBaddyRespawnSet"@,
            FromClientPacketId::RcPlayerPropsGet => "RcPlayerPropsGet"@,
            FromClientPacketId::RcPlayerPropsSet => "RcPlayerPropsSet"@,
            FromClientPacketId::RcDisconnectPlayer => "RcDisconnectPlayer"@,
            FromClientPacketId::RcUpdateLevels => "RcUpdateLevels"@,
            FromClientPacketId::RcAdminMessage => "RcAdminMessage"@,
            FromClientPacketId::RcPrivAdminMessage => "RcPrivAdminMessage"@,
            FromClientPacketId::RcListRcs => "RcListRcs"@,
            FromClientPacketId::RcDisconnectRc => "RcDisconnectRc"@,
            FromClientPacketId::RcApplyReason => "RcApplyReason"@,
            FromClientPacketId::RcServerFlagsGet => "RcServerFlagsGet"@,
            FromClientPacketId::RcServerFlagsSet => "RcServerFlagsSet"@,
            FromClientPacketId::RcAccountAdd => "RcAccountAdd"@,
            FromClientPacketId::RcAccountDel => "RcAccountDel"@,
            FromClientPacketId::RcAccountListGet => "RcAccountListGet"@,
            FromClientPacketId::RcPlayerPropsGet2 => "RcPlayerPropsGet2"@,
            FromClientPacketId::RcPlayerPropsGet3 => "RcPlayerPropsGet3"@,
            FromClientPacketId::RcPlayerPropsReset => "RcPlayerPropsReset"@,
            FromClientPacketId::RcPlayerPropsSet2 => "RcPlayerPropsSet2"@,
            FromClientPacketId::RcAccountGet => "RcAccountGet"@,
            FromClientPacketId::RcAccountSet => "RcAccountSet"@,
            FromClientPacketId::RcChat => "RcChat"@,
            FromClientPacketId::ProfileGet => "ProfileGet"@,
            FromClientPacketId::ProfileSet => "ProfileSet"@,
            FromClientPacketId::RcWarpPlayer => "RcWarpPlayer"@,
            FromClientPacketId::RcPlayerRightsGet => "RcPlayerRightsGet"@,
            FromClientPacketId::RcPlayerRightsSet => "RcPlayerRightsSet"@,
            FromClientPacketId::RcPlayerCommentsGet => "RcPlayerCommentsGet"@,
            FromClientPacketId::RcPlayerCommentsSet => "RcPlayerCommentsSet"@,
            FromClientPacketId::RcPlayerBanGet => "RcPlayerBanGet"@,
            FromClientPacketId::RcPlayerBanSet => "RcPlayerBanSet"@,
            FromClientPacketId::RcFileBrowserStart => "RcFileBrowserStart"@,
            FromClientPacketId::RcFileBrowserCd => "RcFileBrowserCd"@,
            FromClientPacketId::RcFileBrowserEnd => "RcFileBrowserEnd"@,
            FromClientPacketId::RcFileBrowserDown => "RcFileBrowserDown"@,
            FromClientPacketId::RcFileBrowserUp => "RcFileBrowserUp"@,
            FromClientPacketId::NpcServerQuery => "NpcServerQuery"@,
            FromClientPacketId::RcFileBrowserMove => "RcFileBrowserMove"@,
            FromClientPacketId::RcFileBrowserDelete => "RcFileBrowserDelete"@,
            FromClientPacketId::RcFileBrowserRename => "RcFileBrowserRename"@,
            FromClientPacketId::NcNpcGet => "NcNpcGet"@,
            FromClientPacketId::NcNpcDelete => "NcNpcDelete"@,
            FromClientPacketId::NcNpcReset => "NcNpcReset"@,
            FromClientPacketId::NcNpcScriptGet => "NcNpcScriptGet"@,
            FromClientPacketId::NcNpcWarp => "NcNpcWarp"@,
            FromClientPacketId::NcNpcFlagsGet => "NcNpcFlagsGet"@,
            FromClientPacketId::NcNpcScriptSet => "NcNpcScriptSet"@,
            FromClientPacketId::NcNpcFlagsSet => "NcNpcFlagsSet"@,
            FromClientPacketId::NcNpcAdd => "NcNpcAdd"@,
            FromClientPacketId::NcClassEdit => "NcClassEdit"@,
            FromClientPacketId::NcClassAdd => "NcClassAdd"@,
            FromClientPacketId::NcLocalNpcsGet => "NcLocalNpcsGet"@,
            FromClientPacketId::NcWeaponListGet => "NcWeaponListGet"@,
            FromClientPacketId::NcWeaponGet => "NcWeaponGet"@,
            FromClientPacketId::NcWeaponAdd => "NcWeaponAdd"@,
            FromClientPacketId::NcWeaponDelete => "NcWeaponDelete"@,
            FromClientPacketId::NcClassDelete => "NcClassDelete"@,
            FromClientPacketId::RequestUpdateBoard => "RequestUpdateBoard"@,
            FromClientPacketId::NcLevelListGet => "NcLevelListGet"@,
            FromClientPacketId::NcLevelListSet => "NcLevelListSet"@,
            FromClientPacketId::RequestText => "RequestText"@,
            FromClientPacketId::SendText => "SendText"@,
            FromClientPacketId::RcLargeFileStart => "RcLargeFileStart"@,
            FromClientPacketId::RcLargeFileEnd => "RcLargeFileEnd"@,
            FromClientPacketId::UpdateGani => "UpdateGani"@,
            FromClientPacketId::UpdateScript => "UpdateScript"@,
            FromClientPacketId::UpdatePackageRequestFile => "UpdatePackageRequestFile"@,
            FromClientPacketId::RcFolderDelete => "RcFolderDelete"@,
            FromClientPacketId::UpdateClass => "UpdateClass"@,
            FromClientPacketId::SetEncKey => "SetEncKey"@,
            FromClientPacketId::Bundle => "Bundle"@,
        }
    }

    /// The packets in the order of their definition.
    pub open spec fn spec_all() -> Seq<FromClientPacketId> {
        seq![
            FromClientPacketId::LevelWarp,
            FromClientPacketId::BoardModify,
            FromClientPacketId::PlayerProps,
            FromClientPacketId::V4Login,
            FromClientPacketId::BombAdd,
            FromClientPacketId::V6Login,
            FromClientPacketId::V5Login,
            FromClientPacketId::HorseAdd,
            FromClientPacketId::HorseDel,
            FromClientPacketId::ArrowAdd,
            FromClientPacketId::FireSpy,
            FromClientPacketId::ThrowCarried,
            FromClientPacketId::ItemAdd,
            FromClientPacketId::ItemDel,
            FromClientPacketId::ClaimPker,
            FromClientPacketId::BaddyProps,
            FromClientPacketId::BaddyHurt,
            FromClientPacketId::BaddyAdd,
            FromClientPacketId::FlagSet,
            FromClientPacketId::FlagDel,
            FromClientPacketId::OpenChest,
            FromClientPacketId::PutNpc,
            FromClientPacketId::NpcDel,
            FromClientPacketId::WantFile,
            FromClientPacketId::ShowImg,
            FromClientPacketId::HurtPlayer,
            FromClientPacketId::Explosion,
            FromClientPacketId::PrivateMessage,
            FromClientPacketId::NpcWeaponDel,
            FromClientPacketId::LevelWarpMod,
            FromClientPacketId::PacketCount,
            FromClientPacketId::ItemTake,
            FromClientPacketId::WeaponAdd,
            FromClientPacketId::UpdateFile,
            FromClientPacketId::AdjacentLevel,
            FromClientPacketId::HitObjects,
            FromClientPacketId::Lang,
            FromClientPacketId::TriggerAction,
            FromClientPacketId::MapInfo,
            FromClientPacketId::Shoot,
            FromClientPacketId::ServerWarp,
            FromClientPacketId::MutePlayer,
            FromClientPacketId::ProcessList,
            FromClientPacketId::VerifyWantSend,
            FromClientPacketId::Shoot2,
            FromClientPacketId::RawData,
            FromClientPacketId::RcServerOptionsGet,
            FromClientPacketId::RcServerOptionsSet,
            FromClientPacketId::RcFolderConfigGet,
            FromClientPacketId::RcFolderConfigSet,
            FromClientPacketId::RcRespawnSet,
            FromClientPacketId::RcHorseLifeSet,
            FromClientPacketId::RcApIncrementSet,
            FromClientPacketId::RcBaddyRespawnSet,
            FromClientPacketId::RcPlayerPropsGet,
            FromClientPacketId::RcPlayerPropsSet,
            FromClientPacketId::RcDisconnectPlayer,
            FromClientPacketId::RcUpdateLevels,
            FromClientPacketId::RcAdminMessage,
            FromClientPacketId::RcPrivAdminMessage,
            FromClientPacketId::RcListRcs,
            FromClientPacketId::RcDisconnectRc,
            FromClientPacketId::RcApplyReason,
            FromClientPacketId::RcServerFlagsGet,
            FromClientPacketId::RcServerFlagsSet,
            FromClientPacketId::RcAccountAdd,
            FromClientPacketId::RcAccountDel,
            FromClientPacketId::RcAccountListGet,
            FromClientPacketId::RcPlayerPropsGet2,
            FromClientPacketId::RcPlayerPropsGet3,
            FromClientPacketId::RcPlayerPropsReset,
            FromClientPacketId::RcPlayerPropsSet2,
            FromClientPacketId::RcAccountGet,
            FromClientPacketId::RcAccountSet,
            FromClientPacketId::RcChat,
            FromClientPacketId::ProfileGet,
            FromClientPacketId::ProfileSet,
            FromClientPacketId::RcWarpPlayer,
            FromClientPacketId::RcPlayerRightsGet,
            FromClientPacketId::RcPlayerRightsSet,
            FromClientPacketId::RcPlayerCommentsGet,
            FromClientPacketId::RcPlayerCommentsSet,
            FromClientPacketId::RcPlayerBanGet,
            FromClientPacketId::RcPlayerBanSet,
            FromClientPacketId::RcFileBrowserStart,
            FromClientPacketId::RcFileBrowserCd,
            FromClientPacketId::RcFileBrowserEnd,
            FromClientPacketId::RcFileBrowserDown,
            FromClientPacketId::RcFileBrowserUp,
            FromClientPacketId::NpcServerQuery,
            FromClientPacketId::RcFileBrowserMove,
            FromClientPacketId::RcFileBrowserDelete,
            FromClientPacketId::RcFileBrowserRename,
            FromClientPacketId::NcNpcGet,
            FromClientPacketId::NcNpcDelete,
            FromClientPacketId::NcNpcReset,
            FromClientPacketId::NcNpcScriptGet,
            FromClientPacketId::NcNpcWarp,
            FromClientPacketId::NcNpcFlagsGet,
            FromClientPacketId::NcNpcScriptSet,
            FromClientPacketId::NcNpcFlagsSet,
            FromClientPacketId::NcNpcAdd,
            FromClientPacketId::NcClassEdit,
            FromClientPacketId::NcClassAdd,
            FromClientPacketId::NcLocalNpcsGet,
            FromClientPacketId::NcWeaponListGet,
            FromClientPacketId::NcWeaponGet,
            FromClientPacketId::NcWeaponAdd,
            FromClientPacketId::NcWeaponDelete,
            FromClientPacketId::NcClassDelete,
            FromClientPacketId::RequestUpdateBoard,
            FromClientPacketId::NcLevelListGet,
            FromClientPacketId::NcLevelListSet,
            FromClientPacketId::RequestText,
            FromClientPacketId::SendText,
            FromClientPacketId::RcLargeFileStart,
            FromClientPacketId::RcLargeFileEnd,
            FromClientPacketId::UpdateGani,
            FromClientPacketId::UpdateScript,
            FromClientPacketId::UpdatePackageRequestFile,
            FromClientPacketId::RcFolderDelete,
            FromClientPacketId::UpdateClass,
            FromClientPacketId::SetEncKey,
            FromClientPacketId::Bundle,
        ]
    }

    /// The byte that stands for the packet on the wire.
    pub fn value(&self) -> (r: u8)
        ensures
            r == self.spec_value(),
    {
        match self {
            FromClientPacketId::LevelWarp => 0x0,
            FromClientPacketId::BoardModify => 0x1,
            FromClientPacketId::PlayerProps => 0x2,
            FromClientPacketId::V4Login => 0x3,
            FromClientPacketId::BombAdd => 0x4,
            FromClientPacketId::V6Login => 0x5,
            FromClientPacketId::V5Login => 0x6,
            FromClientPacketId::HorseAdd => 0x7,
            FromClientPacketId::HorseDel => 0x8,
            FromClientPacketId::ArrowAdd => 0x9,
            FromClientPacketId::FireSpy => 0xA,
            FromClientPacketId::ThrowCarried => 0xB,
            FromClientPacketId::ItemAdd => 0xC,
            FromClientPacketId::ItemDel => 0xD,
            FromClientPacketId::ClaimPker => 0xE,
            FromClientPacketId::BaddyProps => 0xF,
            FromClientPacketId::BaddyHurt => 0x10,
            FromClientPacketId::BaddyAdd => 0x11,
            FromClientPacketId::FlagSet => 0x12,
            FromClientPacketId::FlagDel => 0x13,
            FromClientPacketId::OpenChest => 0x14,
            FromClientPacketId::PutNpc => 0x15,
            FromClientPacketId::NpcDel => 0x16,
            FromClientPacketId::WantFile => 0x17,
            FromClientPacketId::ShowImg => 0x18,
            FromClientPacketId::HurtPlayer => 0x1A,
            FromClientPacketId::Explosion => 0x1B,
            FromClientPacketId::PrivateMessage => 0x1C,
            FromClientPacketId::NpcWeaponDel => 0x1D,
            FromClientPacketId::LevelWarpMod => 0x1E,
            FromClientPacketId::PacketCount => 0x1F,
            FromClientPacketId::ItemTake => 0x20,
            FromClientPacketId::WeaponAdd => 0x21,
            FromClientPacketId::UpdateFile => 0x22,
            FromClientPacketId::AdjacentLevel => 0x23,
            FromClientPacketId::HitObjects => 0x24,
            FromClientPacketId::Lang => 0x25,
            FromClientPacketId::TriggerAction => 0x26,
            FromClientPacketId::MapInfo => 0x27,
            FromClientPacketId::Shoot => 0x28,
            FromClientPacketId::ServerWarp => 0x29,
            FromClientPacketId::MutePlayer => 0x2B,
            FromClientPacketId::ProcessList => 0x2C,
            FromClientPacketId::VerifyWantSend => 0x2F,
            FromClientPacketId::Shoot2 => 0x30,
            FromClientPacketId::RawData => 0x32,
            FromClientPacketId::RcServerOptionsGet => 0x33,
            FromClientPacketId::RcServerOptionsSet => 0x34,
            FromClientPacketId::RcFolderConfigGet => 0x35,
            FromClientPacketId::RcFolderConfigSet => 0x36,
            FromClientPacketId::RcRespawnSet => 0x37,
            FromClientPacketId::RcHorseLifeSet => 0x38,
            FromClientPacketId::RcApIncrementSet => 0x39,
            FromClientPacketId::RcBaddyRespawnSet => 0x3A,
            FromClientPacketId::RcPlayerPropsGet => 0x3B,
            FromClientPacketId::RcPlayerPropsSet => 0x3C,
            FromClientPacketId::RcDisconnectPlayer => 0x3D,
            FromClientPacketId::RcUpdateLevels => 0x3E,
            FromClientPacketId::RcAdminMessage => 0x3F,
            FromClientPacketId::RcPrivAdminMessage => 0x40,
            FromClientPacketId::RcListRcs => 0x41,
            FromClientPacketId::RcDisconnectRc => 0x42,
            FromClientPacketId::RcApplyReason => 0x43,
            FromClientPacketId::RcServerFlagsGet => 0x44,
            FromClientPacketId::RcServerFlagsSet => 0x45,
            FromClientPacketId::RcAccountAdd => 0x46,
            FromClientPacketId::RcAccountDel => 0x47,
            FromClientPacketId::RcAccountListGet => 0x48,
            FromClientPacketId::RcPlayerPropsGet2 => 0x49,
            FromClientPacketId::RcPlayerPropsGet3 => 0x4A,
            FromClientPacketId::RcPlayerPropsReset => 0x4B,
            FromClientPacketId::RcPlayerPropsSet2 => 0x4C,
            FromClientPacketId::RcAccountGet => 0x4D,
            FromClientPacketId::RcAccountSet => 0x4E,
            FromClientPacketId::RcChat => 0x4F,
            FromClientPacketId::ProfileGet => 0x50,
            FromClientPacketId::ProfileSet => 0x51,
            FromClientPacketId::RcWarpPlayer => 0x52,
            FromClientPacketId::RcPlayerRightsGet => 0x53,
            FromClientPacketId::RcPlayerRightsSet => 0x54,
            FromClientPacketId::RcPlayerCommentsGet => 0x55,
            FromClientPacketId::RcPlayerCommentsSet => 0x56,
            FromClientPacketId::RcPlayerBanGet => 0x57,
            FromClientPacketId::RcPlayerBanSet => 0x58,
            FromClientPacketId::RcFileBrowserStart => 0x59,
            FromClientPacketId::RcFileBrowserCd => 0x5A,
            FromClientPacketId::RcFileBrowserEnd => 0x5B,
            FromClientPacketId::RcFileBrowserDown => 0x5C,
            FromClientPacketId::RcFileBrowserUp => 0x5D,
            FromClientPacketId::NpcServerQuery => 0x5E,
            FromClientPacketId::RcFileBrowserMove => 0x60,
            FromClientPacketId::RcFileBrowserDelete => 0x61,
            FromClientPacketId::RcFileBrowserRename => 0x62,
            FromClientPacketId::NcNpcGet => 0x67,
            FromClientPacketId::NcNpcDelete => 0x68,
            FromClientPacketId::NcNpcReset => 0x69,
            FromClientPacketId::NcNpcScriptGet => 0x6A,
            FromClientPacketId::NcNpcWarp => 0x6B,
            FromClientPacketId::NcNpcFlagsGet => 0x6C,
            FromClientPacketId::NcNpcScriptSet => 0x6D,
            FromClientPacketId::NcNpcFlagsSet => 0x6E,
            FromClientPacketId::NcNpcAdd => 0x6F,
            FromClientPacketId::NcClassEdit => 0x70,
            FromClientPacketId::NcClassAdd => 0x71,
            FromClientPacketId::NcLocalNpcsGet => 0x72,
            FromClientPacketId::NcWeaponListGet => 0x73,
            FromClientPacketId::NcWeaponGet => 0x74,
            FromClientPacketId::NcWeaponAdd => 0x75,
            FromClientPacketId::NcWeaponDelete => 0x76,
            FromClientPacketId::NcClassDelete => 0x77,
            FromClientPacketId::RequestUpdateBoard => 0x82,
            FromClientPacketId::NcLevelListGet => 0x96,
            FromClientPacketId::NcLevelListSet => 0x97,
            FromClientPacketId::RequestText => 0x98,
            FromClientPacketId::SendText => 0x9A,
            FromClientPacketId::RcLargeFileStart => 0x9B,
            FromClientPacketId::RcLargeFileEnd => 0x9C,
            FromClientPacketId::UpdateGani => 0x9D,
            FromClientPacketId::UpdateScript => 0x9E,
            FromClientPacketId::UpdatePackageRequestFile => 0x9F,
            FromClientPacketId::RcFolderDelete => 0xA0,
            FromClientPacketId::UpdateClass => 0xA1,
            FromClientPacketId::SetEncKey => 0xFC,
            FromClientPacketId::Bundle => 0xFD,
        }
    }

    /// The packet that a byte stands for.
    pub fn try_from_u8(b: u8) -> (r: Result<FromClientPacketId, PacketConversionError>)
        ensures
            match Self::spec_from_value(b) {
                Some(id) => r == Ok::<FromClientPacketId, PacketConversionError>(id),
                None => r == Err::<FromClientPacketId, PacketConversionError>(
                    PacketConversionError::InvalidId(b),
                ),
            },
    {
        match b {
            0x0 => Ok(FromClientPacketId::LevelWarp),
            0x1 => Ok(FromClientPacketId::BoardModify),
            0x2 => Ok(FromClientPacketId::PlayerProps),
            0x3 => Ok(FromClientPacketId::V4Login),
            0x4 => Ok(FromClientPacketId::BombAdd),
            0x5 => Ok(FromClientPacketId::V6Login),
            0x6 => Ok(FromClientPacketId::V5Login),
            0x7 => Ok(FromClientPacketId::HorseAdd),
            0x8 => Ok(FromClientPacketId::HorseDel),
            0x9 => Ok(FromClientPacketId::ArrowAdd),
            0xA => Ok(FromClientPacketId::FireSpy),
            0xB => Ok(FromClientPacketId::ThrowCarried),
            0xC => Ok(FromClientPacketId::ItemAdd),
            0xD => Ok(FromClientPacketId::ItemDel),
            0xE => Ok(FromClientPacketId::ClaimPker),
            0xF => Ok(FromClientPacketId::BaddyProps),
            0x10 => Ok(FromClientPacketId::BaddyHurt),
            0x11 => Ok(FromClientPacketId::BaddyAdd),
            0x12 => Ok(FromClientPacketId::FlagSet),
            0x13 => Ok(FromClientPacketId::FlagDel),
            0x14 => Ok(FromClientPacketId::OpenChest),
            0x15 => Ok(FromClientPacketId::PutNpc),
            0x16 => Ok(FromClientPacketId::NpcDel),
            0x17 => Ok(FromClientPacketId::WantFile),
            0x18 => Ok(FromClientPacketId::ShowImg),
            0x1A => Ok(FromClientPacketId::HurtPlayer),
            0x1B => Ok(FromClientPacketId::Explosion),
            0x1C => Ok(FromClientPacketId::PrivateMessage),
            0x1D => Ok(FromClientPacketId::NpcWeaponDel),
            0x1E => Ok(FromClientPacketId::LevelWarpMod),
            0x1F => Ok(FromClientPacketId::PacketCount),
            0x20 => Ok(FromClientPacketId::ItemTake),
            0x21 => Ok(FromClientPacketId::WeaponAdd),
            0x22 => Ok(FromClientPacketId::UpdateFile),
            0x23 => Ok(FromClientPacketId::AdjacentLevel),
            0x24 => Ok(FromClientPacketId::HitObjects),
            0x25 => Ok(FromClientPacketId::Lang),
            0x26 => Ok(FromClientPacketId::TriggerAction),
            0x27 => Ok(FromClientPacketId::MapInfo),
            0x28 => Ok(FromClientPacketId::Shoot),
            0x29 => Ok(FromClientPacketId::ServerWarp),
            0x2B => Ok(FromClientPacketId::MutePlayer),
            0x2C => Ok(FromClientPacketId::ProcessList),
            0x2F => Ok(FromClientPacketId::VerifyWantSend),
            0x30 => Ok(FromClientPacketId::Shoot2),
            0x32 => Ok(FromClientPacketId::RawData),
            0x33 => Ok(FromClientPacketId::RcServerOptionsGet),
            0x34 => Ok(FromClientPacketId::RcServerOptionsSet),
            0x35 => Ok(FromClientPacketId::RcFolderConfigGet),
            0x36 => Ok(FromClientPacketId::RcFolderConfigSet),
            0x37 => Ok(FromClientPacketId::RcRespawnSet),
            0x38 => Ok(FromClientPacketId::RcHorseLifeSet),
            0x39 => Ok(FromClientPacketId::RcApIncrementSet),
            0x3A => Ok(FromClientPacketId::RcBaddyRespawnSet),
            0x3B => Ok(FromClientPacketId::RcPlayerPropsGet),
            0x3C => Ok(FromClientPacketId::RcPlayerPropsSet),
            0x3D => Ok(FromClientPacketId::RcDisconnectPlayer),
            0x3E => Ok(FromClientPacketId::RcUpdateLevels),
            0x3F => Ok(FromClientPacketId::RcAdminMessage),
            0x40 => Ok(FromClientPacketId::RcPrivAdminMessage),
            0x41 => Ok(FromClientPacketId::RcListRcs),
            0x42 => Ok(FromClientPacketId::RcDisconnectRc),
            0x43 => Ok(FromClientPacketId::RcApplyReason),
            0x44 => Ok(FromClientPacketId::RcServerFlagsGet),
            0x45 => Ok(FromClientPacketId::RcServerFlagsSet),
            0x46 => Ok(FromClientPacketId::RcAccountAdd),
            0x47 => Ok(FromClientPacketId::RcAccountDel),
            0x48 => Ok(FromClientPacketId::RcAccountListGet),
            0x49 => Ok(FromClientPacketId::RcPlayerPropsGet2),
            0x4A => Ok(FromClientPacketId::RcPlayerPropsGet3),
            0x4B => Ok(FromClientPacketId::RcPlayerPropsReset),
            0x4C => Ok(FromClientPacketId::RcPlayerPropsSet2),
            0x4D => Ok(FromClientPacketId::RcAccountGet),
            0x4E => Ok(FromClientPacketId::RcAccountSet),
            0x4F => Ok(FromClientPacketId::RcChat),
            0x50 => Ok(FromClientPacketId::ProfileGet),
            0x51 => Ok(FromClientPacketId::ProfileSet),
            0x52 => Ok(FromClientPacketId::RcWarpPlayer),
            0x53 => Ok(FromClientPacketId::RcPlayerRightsGet),
            0x54 => Ok(FromClientPacketId::RcPlayerRightsSet),
            0x55 => Ok(FromClientPacketId::RcPlayerCommentsGet),
            0x56 => Ok(FromClientPacketId::RcPlayerCommentsSet),
            0x57 => Ok(FromClientPacketId::RcPlayerBanGet),
            0x58 => Ok(FromClientPacketId::RcPlayerBanSet),
            0x59 => Ok(FromClientPacketId::RcFileBrowserStart),
            0x5A => Ok(FromClientPacketId::RcFileBrowserCd),
            0x5B => Ok(FromClientPacketId::RcFileBrowserEnd),
            0x5C => Ok(FromClientPacketId::RcFileBrowserDown),
            0x5D => Ok(FromClientPacketId::RcFileBrowserUp),
            0x5E => Ok(FromClientPacketId::NpcServerQuery),
            0x60 => Ok(FromClientPacketId::RcFileBrowserMove),
            0x61 => Ok(FromClientPacketId::RcFileBrowserDelete),
            0x62 => Ok(FromClientPacketId::RcFileBrowserRename),
            0x67 => Ok(FromClientPacketId::NcNpcGet),
            0x68 => Ok(FromClientPacketId::NcNpcDelete),
            0x69 => Ok(FromClientPacketId::NcNpcReset),
            0x6A => Ok(FromClientPacketId::NcNpcScriptGet),
            0x6B => Ok(FromClientPacketId::NcNpcWarp),
            0x6C => Ok(FromClientPacketId::NcNpcFlagsGet),
            0x6D => Ok(FromClientPacketId::NcNpcScriptSet),
            0x6E => Ok(FromClientPacketId::NcNpcFlagsSet),
            0x6F => Ok(FromClientPacketId::NcNpcAdd),
            0x70 => Ok(FromClientPacketId::NcClassEdit),
            0x71 => Ok(FromClientPacketId::NcClassAdd),
            0x72 => Ok(FromClientPacketId::NcLocalNpcsGet),
            0x73 => Ok(FromClientPacketId::NcWeaponListGet),
            0x74 => Ok(FromClientPacketId::NcWeaponGet),
            0x75 => Ok(FromClientPacketId::NcWeaponAdd),
            0x76 => Ok(FromClientPacketId::NcWeaponDelete),
            0x77 => Ok(FromClientPacketId::NcClassDelete),
            0x82 => Ok(FromClientPacketId::RequestUpdateBoard),
            0x96 => Ok(FromClientPacketId::NcLevelListGet),
            0x97 => Ok(FromClientPacketId::NcLevelListSet),
            0x98 => Ok(FromClientPacketId::RequestText),
            0x9A => Ok(FromClientPacketId::SendText),
            0x9B => Ok(FromClientPacketId::RcLargeFileStart),
            0x9C => Ok(FromClientPacketId::RcLargeFileEnd),
            0x9D => Ok(FromClientPacketId::UpdateGani),
            0x9E => Ok(FromClientPacketId::UpdateScript),
            0x9F => Ok(FromClientPacketId::UpdatePackageRequestFile),
            0xA0 => Ok(FromClientPacketId::RcFolderDelete),
            0xA1 => Ok(FromClientPacketId::UpdateClass),
            0xFC => Ok(FromClientPacketId::SetEncKey),
            0xFD => Ok(FromClientPacketId::Bundle),
            _ => Err(PacketConversionError::InvalidId(b)),
        }
    }

    /// The packet that the low byte of a value stands for.
    pub fn try_from_u16(v: u16) -> (r: Result<FromClientPacketId, PacketConversionError>)
        ensures
            match Self::spec_from_value(v as u8) {
                Some(id) => r == Ok::<FromClientPacketId, PacketConversionError>(id),
                None => r == Err::<FromClientPacketId, PacketConversionError>(
                    PacketConversionError::InvalidId(v as u8),
                ),
            },
    {
        Self::try_from_u8(v as u8)
    }

    /// The packet that the low byte of a value stands for.
    pub fn try_from_u32(v: u32) -> (r: Result<FromClientPacketId, PacketConversionError>)
        ensures
            match Self::spec_from_value(v as u8) {
                Some(id) => r == Ok::<FromClientPacketId, PacketConversionError>(id),
                None => r == Err::<FromClientPacketId, PacketConversionError>(
                    PacketConversionError::InvalidId(v as u8),
                ),
            },
    {
        Self::try_from_u8(v as u8)
    }

    /// The packet that the low byte of a value stands for.
    pub fn try_from_u64(v: u64) -> (r: Result<FromClientPacketId, PacketConversionError>)
        ensures
            match Self::spec_from_value(v as u8) {
                Some(id) => r == Ok::<FromClientPacketId, PacketConversionError>(id),
                None => r == Err::<FromClientPacketId, PacketConversionError>(
                    PacketConversionError::InvalidId(v as u8),
                ),
            },
    {
        Self::try_from_u8(v as u8)
    }

    /// The packet that the low byte of a value stands for.
    pub fn try_from_usize(v: usize) -> (r: Result<FromClientPacketId, PacketConversionError>)
        ensures
            match Self::spec_from_value(v as u8) {
                Some(id) => r == Ok::<FromClientPacketId, PacketConversionError>(id),
                None => r == Err::<FromClientPacketId, PacketConversionError>(
                    PacketConversionError::InvalidId(v as u8),
                ),
            },
    {
        Self::try_from_u8(v as u8)
    }

    /// The name of the packet.
    pub fn name(&self) -> (r: &'static str)
        ensures
            r@ == self.spec_name(),
    {
        match self {
            FromClientPacketId::LevelWarp => "LevelWarp",
            FromClientPacketId::BoardModify => "BoardModify",
            FromClientPacketId::PlayerProps => "PlayerProps",
            FromClientPacketId::V4Login => "V4Login",
            FromClientPacketId::BombAdd => "BombAdd",
            FromClientPacketId::V6Login => "V6Login",
            FromClientPacketId::V5Login => "V5Login",
            FromClientPacketId::HorseAdd => "HorseAdd",
            FromClientPacketId::HorseDel => "HorseDel",
            FromClientPacketId::ArrowAdd => "ArrowAdd",
            FromClientPacketId::FireSpy => "FireSpy",
            FromClientPacketId::ThrowCarried => "ThrowCarried",
            FromClientPacketId::ItemAdd => "ItemAdd",
            FromClientPacketId::ItemDel => "ItemDel",
            FromClientPacketId::ClaimPker => "ClaimPker",
            FromClientPacketId::BaddyProps => "BaddyProps",
            FromClientPacketId::BaddyHurt => "BaddyHurt",
            FromClientPacketId::BaddyAdd => "BaddyAdd",
            FromClientPacketId::FlagSet => "FlagSet",
            FromClientPacketId::FlagDel => "FlagDel",
            FromClientPacketId::OpenChest => "OpenChest",
            FromClientPacketId::PutNpc => "PutNpc",
            FromClientPacketId::NpcDel => "NpcDel",
            FromClientPacketId::WantFile => "WantFile",
            FromClientPacketId::ShowImg => "ShowImg",
            FromClientPacketId::HurtPlayer => "HurtPlayer",
            FromClientPacketId::Explosion => "Explosion",
            FromClientPacketId::PrivateMessage => "PrivateMessage",
            FromClientPacketId::NpcWeaponDel => "NpcWeaponDel",
            FromClientPacketId::LevelWarpMod => "LevelWarpMod",
            FromClientPacketId::PacketCount => "PacketCount",
            FromClientPacketId::ItemTake => "ItemTake",
            FromClientPacketId::WeaponAdd => "WeaponAdd",
            FromClientPacketId::UpdateFile => "UpdateFile",
            FromClientPacketId::AdjacentLevel => "AdjacentLevel",
            FromClientPacketId::HitObjects => "HitObjects",
            FromClientPacketId::Lang => "Lang",
            FromClientPacketId::TriggerAction => "TriggerAction",
            FromClientPacketId::MapInfo => "MapInfo",
            FromClientPacketId::Shoot => "Shoot",
            FromClientPacketId::ServerWarp => "ServerWarp",
            FromClientPacketId::MutePlayer => "MutePlayer",
            FromClientPacketId::ProcessList => "ProcessList",
            FromClientPacketId::VerifyWantSend => "VerifyWantSend",
            FromClientPacketId::Shoot2 => "Shoot2",
            FromClientPacketId::RawData => "RawData",
            FromClientPacketId::RcServerOptionsGet => "RcServerOptionsGet",
            FromClientPacketId::RcServerOptionsSet => "RcServerOptionsSet",
            FromClientPacketId::RcFolderConfigGet => "RcFolderConfigGet",
            FromClientPacketId::RcFolderConfigSet => "RcFolderConfigSet",
            FromClientPacketId::RcRespawnSet => "RcRespawnSet",
            FromClientPacketId::RcHorseLifeSet => "RcHorseLifeSet",
            FromClientPacketId::RcApIncrementSet => "RcApIncrementSet",
            FromClientPacketId::RcBaddyRespawnSet => "RcBaddyRespawnSet",
            FromClientPacketId::RcPlayerPropsGet => "RcPlayerPropsGet",
            FromClientPacketId::RcPlayerPropsSet => "RcPlayerPropsSet",
            FromClientPacketId::RcDisconnectPlayer => "RcDisconnectPlayer",
            FromClientPacketId::RcUpdateLevels => "RcUpdateLevels",
            FromClientPacketId::RcAdminMessage => "RcAdminMessage",
            FromClientPacketId::RcPrivAdminMessage => "RcPrivAdminMessage",
            FromClientPacketId::RcListRcs => "RcListRcs",
            FromClientPacketId::RcDisconnectRc => "RcDisconnectRc",
            FromClientPacketId::RcApplyReason => "RcApplyReason",
            FromClientPacketId::RcServerFlagsGet => "RcServerFlagsGet",
            FromClientPacketId::RcServerFlagsSet => "RcServerFlagsSet",
            FromClientPacketId::RcAccountAdd => "RcAccountAdd",
            FromClientPacketId::RcAccountDel => "RcAccountDel",
            FromClientPacketId::RcAccountListGet => "RcAccountListGet",
            FromClientPacketId::RcPlayerPropsGet2 => "RcPlayerPropsGet2",
            FromClientPacketId::RcPlayerPropsGet3 => "RcPlayerPropsGet3",
            FromClientPacketId::RcPlayerPropsReset => "RcPlayerPropsReset",
            FromClientPacketId::RcPlayerPropsSet2 => "RcPlayerPropsSet2",
            FromClientPacketId::RcAccountGet => "RcAccountGet",
            FromClientPacketId::RcAccountSet => "RcAccountSet",
            FromClientPacketId::RcChat => "RcChat",
            FromClientPacketId::ProfileGet => "ProfileGet",
            FromClientPacketId::ProfileSet => "ProfileSet",
            FromClientPacketId::RcWarpPlayer => "RcWarpPlayer",
            FromClientPacketId::RcPlayerRightsGet => "RcPlayerRightsGet",
            FromClientPacketId::RcPlayerRightsSet => "RcPlayerRightsSet",
            FromClientPacketId::RcPlayerCommentsGet => "RcPlayerCommentsGet",
            FromClientPacketId::RcPlayerCommentsSet => "RcPlayerCommentsSet",
            FromClientPacketId::RcPlayerBanGet => "RcPlayerBanGet",
            FromClientPacketId::RcPlayerBanSet => "RcPlayerBanSet",
            FromClientPacketId::RcFileBrowserStart => "RcFileBrowserStart",
            FromClientPacketId::RcFileBrowserCd => "RcFileBrowserCd",
            FromClientPacketId::RcFileBrowserEnd => "RcFileBrowserEnd",
            FromClientPacketId::RcFileBrowserDown => "RcFileBrowserDown",
            FromClientPacketId::RcFileBrowserUp => "RcFileBrowserUp",
            FromClientPacketId::NpcServerQuery => "NpcServerQuery",
            FromClientPacketId::RcFileBrowserMove => "RcFileBrowserMove",
            FromClientPacketId::RcFileBrowserDelete => "RcFileBrowserDelete",
            FromClientPacketId::RcFileBrowserRename => "RcFileBrowserRename",
            FromClientPacketId::NcNpcGet => "NcNpcGet",
            FromClientPacketId::NcNpcDelete => "NcNpcDelete",
            FromClientPacketId::NcNpcReset => "NcNpcReset",
            FromClientPacketId::NcNpcScriptGet => "NcNpcScriptGet",
            FromClientPacketId::NcNpcWarp => "NcNpcWarp",
            FromClientPacketId::NcNpcFlagsGet => "NcNpcFlagsGet",
            FromClientPacketId::NcNpcScriptSet => "NcNpcScriptSet",
            FromClientPacketId::NcNpcFlagsSet => "NcNpcFlagsSet",
            FromClientPacketId::NcNpcAdd => "NcNpcAdd",
            FromClientPacketId::NcClassEdit => "NcClassEdit",
            FromClientPacketId::NcClassAdd => "NcClassAdd",
            FromClientPacketId::NcLocalNpcsGet => "NcLocalNpcsGet",
            FromClientPacketId::NcWeaponListGet => "NcWeaponListGet",
            FromClientPacketId::NcWeaponGet => "NcWeaponGet",
            FromClientPacketId::NcWeaponAdd => "NcWeaponAdd",
            FromClientPacketId::NcWeaponDelete => "NcWeaponDelete",
            FromClientPacketId::NcClassDelete => "NcClassDelete",
            FromClientPacketId::RequestUpdateBoard => "RequestUpdateBoard",
            FromClientPacketId::NcLevelListGet => "NcLevelListGet",
            FromClientPacketId::NcLevelListSet => "NcLevelListSet",
            FromClientPacketId::RequestText => "RequestText",
            FromClientPacketId::SendText => "SendText",
            FromClientPacketId::RcLargeFileStart => "RcLargeFileStart",
            FromClientPacketId::RcLargeFileEnd => "RcLargeFileEnd",
            FromClientPacketId::UpdateGani => "UpdateGani",
            FromClientPacketId::UpdateScript => "UpdateScript",
            FromClientPacketId::UpdatePackageRequestFile => "UpdatePackageRequestFile",
            FromClientPacketId::RcFolderDelete => "RcFolderDelete",
            FromClientPacketId::UpdateClass => "UpdateClass",
            FromClientPacketId::SetEncKey => "SetEncKey",
            FromClientPacketId::Bundle => "Bundle",
        }
    }

    /// The packet with the given name, if any.
    pub fn from_name(s: &str) -> (r: Option<FromClientPacketId>)
        ensures
            match r {
                Some(id) => id.spec_name() == s@,
                None => forall|id: FromClientPacketId| #[trigger] id.spec_name() != s@,
            },
    {
        let all = Self::all();
        let mut i: usize = 0;
        while i < all.len()
            invariant
                all@ == Self::spec_all(),
                i <= all@.len(),
                forall|j: int| 0 <= j < i ==> (#[trigger] all@[j]).spec_name() != s@,
            decreases all@.len() - i,
        {
            if str_eq(all[i].name(), s) {
                return Some(all[i]);
            }
            i = i + 1;
        }
        proof {
            assert forall|id: FromClientPacketId| #[trigger] id.spec_name() != s@ by {
                lemma_from_client_all_contains(id);
                let k = choose|k: int| 0 <= k < Self::spec_all().len() && Self::spec_all()[k] == id;
                assert(all@[k] == id);
            }
        }
        None
    }
}

/// Every packet occurs in the list of all packets.
pub proof fn lemma_from_client_all_contains(id: FromClientPacketId)
    ensures
        exists|k: int| 0 <= k < FromClientPacketId::spec_all().len() && FromClientPacketId::spec_all()[k] == id,
{
    let all = FromClientPacketId::spec_all();
    match id {
        FromClientPacketId::LevelWarp => assert(all[0] == id),
        FromClientPacketId::BoardModify => assert(all[1] == id),
        FromClientPacketId::PlayerProps => assert(all[2] == id),
        FromClientPacketId::V4Login => assert(all[3] == id),
        FromClientPacketId::BombAdd => assert(all[4] == id),
        FromClientPacketId::V6Login => assert(all[5] == id),
        FromClientPacketId::V5Login => assert(all[6] == id),
        FromClientPacketId::HorseAdd => assert(all[7] == id),
        FromClientPacketId::HorseDel => assert(all[8] == id),
        FromClientPacketId::ArrowAdd => assert(all[9] == id),
        FromClientPacketId::FireSpy => assert(all[10] == id),
        FromClientPacketId::ThrowCarried => assert(all[11] == id),
        FromClientPacketId::ItemAdd => assert(all[12] == id),
        FromClientPacketId::ItemDel => assert(all[13] == id),
        FromClientPacketId::ClaimPker => assert(all[14] == id),
        FromClientPacketId::BaddyProps => assert(all[15] == id),
        FromClientPacketId::BaddyHurt => assert(all[16] == id),
        FromClientPacketId::BaddyAdd => assert(all[17] == id),
        FromClientPacketId::FlagSet => assert(all[18] == id),
        FromClientPacketId::FlagDel => assert(all[19] == id),
        FromClientPacketId::OpenChest => assert(all[20] == id),
        FromClientPacketId::PutNpc => assert(all[21] == id),
        FromClientPacketId::NpcDel => assert(all[22] == id),
        FromClientPacketId::WantFile => assert(all[23] == id),
        FromClientPacketId::ShowImg => assert(all[24] == id),
        FromClientPacketId::HurtPlayer => assert(all[25] == id),
        FromClientPacketId::Explosion => assert(all[26] == id),
        FromClientPacketId::PrivateMessage => assert(all[27] == id),
        FromClientPacketId::NpcWeaponDel => assert(all[28] == id),
        FromClientPacketId::LevelWarpMod => assert(all[29] == id),
        FromClientPacketId::PacketCount => assert(all[30] == id),
        FromClientPacketId::ItemTake => assert(all[31] == id),
        FromClientPacketId::WeaponAdd => assert(all[32] == id),
        FromClientPacketId::UpdateFile => assert(all[33] == id),
        FromClientPacketId::AdjacentLevel => assert(all[34] == id),
        FromClientPacketId::HitObjects => assert(all[35] == id),
        FromClientPacketId::Lang => assert(all[36] == id),
        FromClientPacketId::TriggerAction => assert(all[37] == id),
        FromClientPacketId::MapInfo => assert(all[38] == id),
        FromClientPacketId::Shoot => assert(all[39] == id),
        FromClientPacketId::ServerWarp => assert(all[40] == id),
        FromClientPacketId::MutePlayer => assert(all[41] == id),
        FromClientPacketId::ProcessList => assert(all[42] == id),
        FromClientPacketId::VerifyWantSend => assert(all[43] == id),
        FromClientPacketId::Shoot2 => assert(all[44] == id),
        FromClientPacketId::RawData => assert(all[45] == id),
        FromClientPacketId::RcServerOptionsGet => assert(all[46] == id),
        FromClientPacketId::RcServerOptionsSet => assert(all[47] == id),
        FromClientPacketId::RcFolderConfigGet => assert(all[48] == id),
        FromClientPacketId::RcFolderConfigSet => assert(all[49] == id),
        FromClientPacketId::RcRespawnSet => assert(all[50] == id),
        FromClientPacketId::RcHorseLifeSet => assert(all[51] == id),
        FromClientPacketId::RcApIncrementSet => assert(all[52] == id),
        FromClientPacketId::RcBaddyRespawnSet => assert(all[53] == id),
        FromClientPacketId::RcPlayerPropsGet => assert(all[54] == id),
        FromClientPacketId::RcPlayerPropsSet => assert(all[55] == id),
        FromClientPacketId::RcDisconnectPlayer => assert(all[56] == id),
        FromClientPacketId::RcUpdateLevels => assert(all[57] == id),
        FromClientPacketId::RcAdminMessage => assert(all[58] == id),
        FromClientPacketId::RcPrivAdminMessage => assert(all[59] == id),
        FromClientPacketId::RcListRcs => assert(all[60] == id),
        FromClientPacketId::RcDisconnectRc => assert(all[61] == id),
        FromClientPacketId::RcApplyReason => assert(all[62] == id),
        FromClientPacketId::RcServerFlagsGet => assert(all[63] == id),
        FromClientPacketId::RcServerFlagsSet => assert(all[64] == id),
        FromClientPacketId::RcAccountAdd => assert(all[65] == id),
        FromClientPacketId::RcAccountDel => assert(all[66] == id),
        FromClientPacketId::RcAccountListGet => assert(all[67] == id),
        FromClientPacketId::RcPlayerPropsGet2 => assert(all[68] == id),
        FromClientPacketId::RcPlayerPropsGet3 => assert(all[69] == id),
        FromClientPacketId::RcPlayerPropsReset => assert(all[70] == id),
        FromClientPacketId::RcPlayerPropsSet2 => assert(all[71] == id),
        FromClientPacketId::RcAccountGet => assert(all[72] == id),
        FromClientPacketId::RcAccountSet => assert(all[73] == id),
        FromClientPacketId::RcChat => assert(all[74] == id),
        FromClientPacketId::ProfileGet => assert(all[75] == id),
        FromClientPacketId::ProfileSet => assert(all[76] == id),
        FromClientPacketId::RcWarpPlayer => assert(all[77] == id),
        FromClientPacketId::RcPlayerRightsGet => assert(all[78] == id),
        FromClientPacketId::RcPlayerRightsSet => assert(all[79] == id),
        FromClientPacketId::RcPlayerCommentsGet => assert(all[80] == id),
        FromClientPacketId::RcPlayerCommentsSet => assert(all[81] == id),
        FromClientPacketId::RcPlayerBanGet => assert(all[82] == id),
        FromClientPacketId::RcPlayerBanSet => assert(all[83] == id),
        FromClientPacketId::RcFileBrowserStart => assert(all[84] == id),
        FromClientPacketId::RcFileBrowserCd => assert(all[85] == id),
        FromClientPacketId::RcFileBrowserEnd => assert(all[86] == id),
        FromClientPacketId::RcFileBrowserDown => assert(all[87] == id),
        FromClientPacketId::RcFileBrowserUp => assert(all[88] == id),
        FromClientPacketId::NpcServerQuery => assert(all[89] == id),
        FromClientPacketId::RcFileBrowserMove => assert(all[90] == id),
        FromClientPacketId::RcFileBrowserDelete => assert(all[91] == id),
        FromClientPacketId::RcFileBrowserRename => assert(all[92] == id),
        FromClientPacketId::NcNpcGet => assert(all[93] == id),
        FromClientPacketId::NcNpcDelete => assert(all[94] == id),
        FromClientPacketId::NcNpcReset => assert(all[95] == id),
        FromClientPacketId::NcNpcScriptGet => assert(all[96] == id),
        FromClientPacketId::NcNpcWarp => assert(all[97] == id),
        FromClientPacketId::NcNpcFlagsGet => assert(all[98] == id),
        FromClientPacketId::NcNpcScriptSet => assert(all[99] == id),
        FromClientPacketId::NcNpcFlagsSet => assert(all[100] == id),
        FromClientPacketId::NcNpcAdd => assert(all[101] == id),
        FromClientPacketId::NcClassEdit => assert(all[102] == id),
        FromClientPacketId::NcClassAdd => assert(all[103] == id),
        FromClientPacketId::NcLocalNpcsGet => assert(all[104] == id),
        FromClientPacketId::NcWeaponListGet => assert(all[105] == id),
        FromClientPacketId::NcWeaponGet => assert(all[106] == id),
        FromClientPacketId::NcWeaponAdd => assert(all[107] == id),
        FromClientPacketId::NcWeaponDelete => assert(all[108] == id),
        FromClientPacketId::NcClassDelete => assert(all[109] == id),
        FromClientPacketId::RequestUpdateBoard => assert(all[110] == id),
        FromClientPacketId::NcLevelListGet => assert(all[111] == id),
        FromClientPacketId::NcLevelListSet => assert(all[112] == id),
        FromClientPacketId::RequestText => assert(all[113] == id),
        FromClientPacketId::SendText => assert(all[114] == id),
        FromClientPacketId::RcLargeFileStart => assert(all[115] == id),
        FromClientPacketId::RcLargeFileEnd => assert(all[116] == id),
        FromClientPacketId::UpdateGani => assert(all[117] == id),
        FromClientPacketId::UpdateScript => assert(all[118] == id),
        FromClientPacketId::UpdatePackageRequestFile => assert(all[119] == id),
        FromClientPacketId::RcFolderDelete => assert(all[120] == id),
        FromClientPacketId::UpdateClass => assert(all[121] == id),
        FromClientPacketId::SetEncKey => assert(all[122] == id),
        FromClientPacketId::Bundle => assert(all[123] == id),
    }
}

/// Each packet sent by the client has the byte that the protocol gives it on
/// the wire (`V6Login` is 5 and `V5Login` is 6, for instance), and that byte
/// stands for it alone.
pub proof fn lemma_from_client_protocol_values()
    ensures
        FromClientPacketId::LevelWarp.spec_value() == 0,
        FromClientPacketId::BoardModify.spec_value() == 1,
        FromClientPacketId::PlayerProps.spec_value() == 2,
        FromClientPacketId::V4Login.spec_value() == 3,
        FromClientPacketId::BombAdd.spec_value() == 4,
        FromClientPacketId::V6Login.spec_value() == 5,
        FromClientPacketId::V5Login.spec_value() == 6,
        FromClientPacketId::HorseAdd.spec_value() == 7,
        FromClientPacketId::HorseDel.spec_value() == 8,
        FromClientPacketId::ArrowAdd.spec_value() == 9,
        FromClientPacketId::FireSpy.spec_value() == 10,
        FromClientPacketId::ThrowCarried.spec_value() == 11,
        FromClientPacketId::ItemAdd.spec_value() == 12,
        FromClientPacketId::ItemDel.spec_value() == 13,
        FromClientPacketId::ClaimPker.spec_value() == 14,
        FromClientPacketId::BaddyProps.spec_value() == 15,
        FromClientPacketId::BaddyHurt.spec_value() == 16,
        FromClientPacketId::BaddyAdd.spec_value() == 17,
        FromClientPacketId::FlagSet.spec_value() == 18,
        FromClientPacketId::FlagDel.spec_value() == 19,
        FromClientPacketId::OpenChest.spec_value() == 20,
        FromClientPacketId::PutNpc.spec_value() == 21,
        FromClientPacketId::NpcDel.spec_value() == 22,
        FromClientPacketId::WantFile.spec_value() == 23,
        FromClientPacketId::ShowImg.spec_value() == 24,
        FromClientPacketId::HurtPlayer.spec_value() == 26,
        FromClientPacketId::Explosion.spec_value() == 27,
        FromClientPacketId::PrivateMessage.spec_value() == 28,
        FromClientPacketId::NpcWeaponDel.spec_value() == 29,
        FromClientPacketId::LevelWarpMod.spec_value() == 30,
        FromClientPacketId::PacketCount.spec_value() == 31,
        FromClientPacketId::ItemTake.spec_value() == 32,
        FromClientPacketId::WeaponAdd.spec_value() == 33,
        FromClientPacketId::UpdateFile.spec_value() == 34,
        FromClientPacketId::AdjacentLevel.spec_value() == 35,
        FromClientPacketId::HitObjects.spec_value() == 36,
        FromClientPacketId::Lang.spec_value() == 37,
        FromClientPacketId::TriggerAction.spec_value() == 38,
        FromClientPacketId::MapInfo.spec_value() == 39,
        FromClientPacketId::Shoot.spec_value() == 40,
        FromClientPacketId::ServerWarp.spec_value() == 41,
        FromClientPacketId::MutePlayer.spec_value() == 43,
        FromClientPacketId::ProcessList.spec_value() == 44,
        FromClientPacketId::VerifyWantSend.spec_value() == 47,
        FromClientPacketId::Shoot2.spec_value() == 48,
        FromClientPacketId::RawData.spec_value() == 50,
        FromClientPacketId::RcServerOptionsGet.spec_value() == 51,
        FromClientPacketId::RcServerOptionsSet.spec_value() == 52,
        FromClientPacketId::RcFolderConfigGet.spec_value() == 53,
        FromClientPacketId::RcFolderConfigSet.spec_value() == 54,
        FromClientPacketId::RcRespawnSet.spec_value() == 55,
        FromClientPacketId::RcHorseLifeSet.spec_value() == 56,
        FromClientPacketId::RcApIncrementSet.spec_value() == 57,
        FromClientPacketId::RcBaddyRespawnSet.spec_value() == 58,
        FromClientPacketId::RcPlayerPropsGet.spec_value() == 59,
        FromClientPacketId::RcPlayerPropsSet.spec_value() == 60,
        FromClientPacketId::RcDisconnectPlayer.spec_value() == 61,
        FromClientPacketId::RcUpdateLevels.spec_value() == 62,
        FromClientPacketId::RcAdminMessage.spec_value() == 63,
        FromClientPacketId::RcPrivAdminMessage.spec_value() == 64,
        FromClientPacketId::RcListRcs.spec_value() == 65,
        FromClientPacketId::RcDisconnectRc.spec_value() == 66,
        FromClientPacketId::RcApplyReason.spec_value() == 67,
        FromClientPacketId::RcServerFlagsGet.spec_value() == 68,
        FromClientPacketId::RcServerFlagsSet.spec_value() == 69,
        FromClientPacketId::RcAccountAdd.spec_value() == 70,
        FromClientPacketId::RcAccountDel.spec_value() == 71,
        FromClientPacketId::RcAccountListGet.spec_value() == 72,
        FromClientPacketId::RcPlayerPropsGet2.spec_value() == 73,
        FromClientPacketId::RcPlayerPropsGet3.spec_value() == 74,
        FromClientPacketId::RcPlayerPropsReset.spec_value() == 75,
        FromClientPacketId::RcPlayerPropsSet2.spec_value() == 76,
        FromClientPacketId::RcAccountGet.spec_value() == 77,
        FromClientPacketId::RcAccountSet.spec_value() == 78,
        FromClientPacketId::RcChat.spec_value() == 79,
        FromClientPacketId::ProfileGet.spec_value() == 80,
        FromClientPacketId::ProfileSet.spec_value() == 81,
        FromClientPacketId::RcWarpPlayer.spec_value() == 82,
        FromClientPacketId::RcPlayerRightsGet.spec_value() == 83,
        FromClientPacketId::RcPlayerRightsSet.spec_value() == 84,
        FromClientPacketId::RcPlayerCommentsGet.spec_value() == 85,
        FromClientPacketId::RcPlayerCommentsSet.spec_value() == 86,
        FromClientPacketId::RcPlayerBanGet.spec_value() == 87,
        FromClientPacketId::RcPlayerBanSet.spec_value() == 88,
        FromClientPacketId::RcFileBrowserStart.spec_value() == 89,
        FromClientPacketId::RcFileBrowserCd.spec_value() == 90,
        FromClientPacketId::RcFileBrowserEnd.spec_value() == 91,
        FromClientPacketId::RcFileBrowserDown.spec_value() == 92,
        FromClientPacketId::RcFileBrowserUp.spec_value() == 93,
        FromClientPacketId::NpcServerQuery.spec_value() == 94,
        FromClientPacketId::RcFileBrowserMove.spec_value() == 96,
        FromClientPacketId::RcFileBrowserDelete.spec_value() == 97,
        FromClientPacketId::RcFileBrowserRename.spec_value() == 98,
        FromClientPacketId::NcNpcGet.spec_value() == 103,
        FromClientPacketId::NcNpcDelete.spec_value() == 104,
        FromClientPacketId::NcNpcReset.spec_value() == 105,
        FromClientPacketId::NcNpcScriptGet.spec_value() == 106,
        FromClientPacketId::NcNpcWarp.spec_value() == 107,
        FromClientPacketId::NcNpcFlagsGet.spec_value() == 108,
        FromClientPacketId::NcNpcScriptSet.spec_value() == 109,
        FromClientPacketId::NcNpcFlagsSet.spec_value() == 110,
        FromClientPacketId::NcNpcAdd.spec_value() == 111,
        FromClientPacketId::NcClassEdit.spec_value() == 112,
        FromClientPacketId::NcClassAdd.spec_value() == 113,
        FromClientPacketId::NcLocalNpcsGet.spec_value() == 114,
        FromClientPacketId::NcWeaponListGet.spec_value() == 115,
        FromClientPacketId::NcWeaponGet.spec_value() == 116,
        FromClientPacketId::NcWeaponAdd.spec_value() == 117,
        FromClientPacketId::NcWeaponDelete.spec_value() == 118,
        FromClientPacketId::NcClassDelete.spec_value() == 119,
        FromClientPacketId::RequestUpdateBoard.spec_value() == 130,
        FromClientPacketId::NcLevelListGet.spec_value() == 150,
        FromClientPacketId::NcLevelListSet.spec_value() == 151,
        FromClientPacketId::RequestText.spec_value() == 152,
        FromClientPacketId::SendText.spec_value() == 154,
        FromClientPacketId::RcLargeFileStart.spec_value() == 155,
        FromClientPacketId::RcLargeFileEnd.spec_value() == 156,
        FromClientPacketId::UpdateGani.spec_value() == 157,
        FromClientPacketId::UpdateScript.spec_value() == 158,
        FromClientPacketId::UpdatePackageRequestFile.spec_value() == 159,
        FromClientPacketId::RcFolderDelete.spec_value() == 160,
        FromClientPacketId::UpdateClass.spec_value() == 161,
        FromClientPacketId::SetEncKey.spec_value() == 252,
        FromClientPacketId::Bundle.spec_value() == 253,
        forall|b: u8| #[trigger] FromClientPacketId::spec_from_value(b) is Some ==> FromClientPacketId::spec_from_value(b)->0.spec_value() == b,
        forall|id: FromClientPacketId| #[trigger] FromClientPacketId::spec_from_value(id.spec_value()) == Some(id),
{
}

/// The byte of a packet stands for that packet, and only a packet's own byte does.
pub proof fn lemma_from_client_value_roundtrip(id: FromClientPacketId, b: u8)
    ensures
        FromClientPacketId::spec_from_value(id.spec_value()) == Some(id),
        FromClientPacketId::spec_from_value(b) == Some(id) ==> id.spec_value() == b,
{
}

impl PacketIdTrait for FromClientPacketId {
    fn count() -> (n: usize)
        ensures
            n == Self::spec_all().len(),
    {
        124
    }

    fn all() -> (v: Vec<FromClientPacketId>)
        ensures
            v@ == Self::spec_all(),
    {
        let mut v: Vec<FromClientPacketId> = Vec::new();
        v.push(FromClientPacketId::LevelWarp);
        proof {
            assert(v@ =~= Self::spec_all().take(1));
        }
        v.push(FromClientPacketId::BoardModify);
        proof {
            assert(v@ =~= Self::spec_all().take(2));
        }
        v.push(FromClientPacketId::PlayerProps);
        proof {
            assert(v@ =~= Self::spec_all().take(3));
        }
        v.push(FromClientPacketId::V4Login);
        proof {
            assert(v@ =~= Self::spec_all().take(4));
        }
        v.push(FromClientPacketId::BombAdd);
        proof {
            assert(v@ =~= Self::spec_all().take(5));
        }
        v.push(FromClientPacketId::V6Login);
        proof {
            assert(v@ =~= Self::spec_all().take(6));
        }
        v.push(FromClientPacketId::V5Login);
        proof {
            assert(v@ =~= Self::spec_all().take(7));
        }
        v.push(FromClientPacketId::HorseAdd);
        proof {
            assert(v@ =~= Self::spec_all().take(8));
        }
        v.push(FromClientPacketId::HorseDel);
        proof {
            assert(v@ =~= Self::spec_all().take(9));
        }
        v.push(FromClientPacketId::ArrowAdd);
        proof {
            assert(v@ =~= Self::spec_all().take(10));
        }
        v.push(FromClientPacketId::FireSpy);
        proof {
            assert(v@ =~= Self::spec_all().take(11));
        }
        v.push(FromClientPacketId::ThrowCarried);
        proof {
            assert(v@ =~= Self::spec_all().take(12));
        }
        v.push(FromClientPacketId::ItemAdd);
        proof {
            assert(v@ =~= Self::spec_all().take(13));
        }
        v.push(FromClientPacketId::ItemDel);
        proof {
            assert(v@ =~= Self::spec_all().take(14));
        }
        v.push(FromClientPacketId::ClaimPker);
        proof {
            assert(v@ =~= Self::spec_all().take(15));
        }
        v.push(FromClientPacketId::BaddyProps);
        proof {
            assert(v@ =~= Self::spec_all().take(16));
        }
        v.push(FromClientPacketId::BaddyHurt);
        proof {
            assert(v@ =~= Self::spec_all().take(17));
        }
        v.push(FromClientPacketId::BaddyAdd);
        proof {
            assert(v@ =~= Self::spec_all().take(18));
        }
        v.push(FromClientPacketId::FlagSet);
        proof {
            assert(v@ =~= Self::spec_all().take(19));
        }
        v.push(FromClientPacketId::FlagDel);
        proof {
            assert(v@ =~= Self::spec_all().take(20));
        }
        v.push(FromClientPacketId::OpenChest);
        proof {
            assert(v@ =~= Self::spec_all().take(21));
        }
        v.push(FromClientPacketId::PutNpc);
        proof {
            assert(v@ =~= Self::spec_all().take(22));
        }
        v.push(FromClientPacketId::NpcDel);
        proof {
            assert(v@ =~= Self::spec_all().take(23));
        }
        v.push(FromClientPacketId::WantFile);
        proof {
            assert(v@ =~= Self::spec_all().take(24));
        }
        v.push(FromClientPacketId::ShowImg);
        proof {
            assert(v@ =~= Self::spec_all().take(25));
        }
        v.push(FromClientPacketId::HurtPlayer);
        proof {
            assert(v@ =~= Self::spec_all().take(26));
        }
        v.push(FromClientPacketId::Explosion);
        proof {
            assert(v@ =~= Self::spec_all().take(27));
        }
        v.push(FromClientPacketId::PrivateMessage);
        proof {
            assert(v@ =~= Self::spec_all().take(28));
        }
        v.push(FromClientPacketId::NpcWeaponDel);
        proof {
            assert(v@ =~= Self::spec_all().take(29));
        }
        v.push(FromClientPacketId::LevelWarpMod);
        proof {
            assert(v@ =~= Self::spec_all().take(30));
        }
        v.push(FromClientPacketId::PacketCount);
        proof {
            assert(v@ =~= Self::spec_all().take(31));
        }
        v.push(FromClientPacketId::ItemTake);
        proof {
            assert(v@ =~= Self::spec_all().take(32));
        }
        v.push(FromClientPacketId::WeaponAdd);
        proof {
            assert(v@ =~= Self::spec_all().take(33));
        }
        v.push(FromClientPacketId::UpdateFile);
        proof {
            assert(v@ =~= Self::spec_all().take(34));
        }
        v.push(FromClientPacketId::AdjacentLevel);
        proof {
            assert(v@ =~= Self::spec_all().take(35));
        }
        v.push(FromClientPacketId::HitObjects);
        proof {
            assert(v@ =~= Self::spec_all().take(36));
        }
        v.push(FromClientPacketId::Lang);
        proof {
            assert(v@ =~= Self::spec_all().take(37));
        }
        v.push(FromClientPacketId::TriggerAction);
        proof {
            assert(v@ =~= Self::spec_all().take(38));
        }
        v.push(FromClientPacketId::MapInfo);
        proof {
            assert(v@ =~= Self::spec_all().take(39));
        }
        v.push(FromClientPacketId::Shoot);
        proof {
            assert(v@ =~= Self::spec_all().take(40));
        }
        v.push(FromClientPacketId::ServerWarp);
        proof {
            assert(v@ =~= Self::spec_all().take(41));
        }
        v.push(FromClientPacketId::MutePlayer);
        proof {
            assert(v@ =~= Self::spec_all().take(42));
        }
        v.push(FromClientPacketId::ProcessList);
        proof {
            assert(v@ =~= Self::spec_all().take(43));
        }
        v.push(FromClientPacketId::VerifyWantSend);
        proof {
            assert(v@ =~= Self::spec_all().take(44));
        }
        v.push(FromClientPacketId::Shoot2);
        proof {
            assert(v@ =~= Self::spec_all().take(45));
        }
        v.push(FromClientPacketId::RawData);
        proof {
            assert(v@ =~= Self::spec_all().take(46));
        }
        v.push(FromClientPacketId::RcServerOptionsGet);
        proof {
            assert(v@ =~= Self::spec_all().take(47));
        }
        v.push(FromClientPacketId::RcServerOptionsSet);
        proof {
            assert(v@ =~= Self::spec_all().take(48));
        }
        v.push(FromClientPacketId::RcFolderConfigGet);
        proof {
            assert(v@ =~= Self::spec_all().take(49));
        }
        v.push(FromClientPacketId::RcFolderConfigSet);
        proof {
            assert(v@ =~= Self::spec_all().take(50));
        }
        v.push(FromClientPacketId::RcRespawnSet);
        proof {
            assert(v@ =~= Self::spec_all().take(51));
        }
        v.push(FromClientPacketId::RcHorseLifeSet);
        proof {
            assert(v@ =~= Self::spec_all().take(52));
        }
        v.push(FromClientPacketId::RcApIncrementSet);
        proof {
            assert(v@ =~= Self::spec_all().take(53));
        }
        v.push(FromClientPacketId::RcBaddyRespawnSet);
        proof {
            assert(v@ =~= Self::spec_all().take(54));
        }
        v.push(FromClientPacketId::RcPlayerPropsGet);
        proof {
            assert(v@ =~= Self::spec_all().take(55));
        }
        v.push(FromClientPacketId::RcPlayerPropsSet);
        proof {
            assert(v@ =~= Self::spec_all().take(56));
        }
        v.push(FromClientPacketId::RcDisconnectPlayer);
        proof {
            assert(v@ =~= Self::spec_all().take(57));
        }
        v.push(FromClientPacketId::RcUpdateLevels);
        proof {
            assert(v@ =~= Self::spec_all().take(58));
        }
        v.push(FromClientPacketId::RcAdminMessage);
        proof {
            assert(v@ =~= Self::spec_all().take(59));
        }
        v.push(FromClientPacketId::RcPrivAdminMessage);
        proof {
            assert(v@ =~= Self::spec_all().take(60));
        }
        v.push(FromClientPacketId::RcListRcs);
        proof {
            assert(v@ =~= Self::spec_all().take(61));
        }
        v.push(FromClientPacketId::RcDisconnectRc);
        proof {
            assert(v@ =~= Self::spec_all().take(62));
        }
        v.push(FromClientPacketId::RcApplyReason);
        proof {
            assert(v@ =~= Self::spec_all().take(63));
        }
        v.push(FromClientPacketId::RcServerFlagsGet);
        proof {
            assert(v@ =~= Self::spec_all().take(64));
        }
        v.push(FromClientPacketId::RcServerFlagsSet);
        proof {
            assert(v@ =~= Self::spec_all().take(65));
        }
        v.push(FromClientPacketId::RcAccountAdd);
        proof {
            assert(v@ =~= Self::spec_all().take(66));
        }
        v.push(FromClientPacketId::RcAccountDel);
        proof {
            assert(v@ =~= Self::spec_all().take(67));
        }
        v.push(FromClientPacketId::RcAccountListGet);
        proof {
            assert(v@ =~= Self::spec_all().take(68));
        }
        v.push(FromClientPacketId::RcPlayerPropsGet2);
        proof {
            assert(v@ =~= Self::spec_all().take(69));
        }
        v.push(FromClientPacketId::RcPlayerPropsGet3);
        proof {
            assert(v@ =~= Self::spec_all().take(70));
        }
        v.push(FromClientPacketId::RcPlayerPropsReset);
        proof {
            assert(v@ =~= Self::spec_all().take(71));
        }
        v.push(FromClientPacketId::RcPlayerPropsSet2);
        proof {
            assert(v@ =~= Self::spec_all().take(72));
        }
        v.push(FromClientPacketId::RcAccountGet);
        proof {
            assert(v@ =~= Self::spec_all().take(73));
        }
        v.push(FromClientPacketId::RcAccountSet);
        proof {
            assert(v@ =~= Self::spec_all().take(74));
        }
        v.push(FromClientPacketId::RcChat);
        proof {
            assert(v@ =~= Self::spec_all().take(75));
        }
        v.push(FromClientPacketId::ProfileGet);
        proof {
            assert(v@ =~= Self::spec_all().take(76));
        }
        v.push(FromClientPacketId::ProfileSet);
        proof {
            assert(v@ =~= Self::spec_all().take(77));
        }
        v.push(FromClientPacketId::RcWarpPlayer);
        proof {
            assert(v@ =~= Self::spec_all().take(78));
        }
        v.push(FromClientPacketId::RcPlayerRightsGet);
        proof {
            assert(v@ =~= Self::spec_all().take(79));
        }
        v.push(FromClientPacketId::RcPlayerRightsSet);
        proof {
            assert(v@ =~= Self::spec_all().take(80));
        }
        v.push(FromClientPacketId::RcPlayerCommentsGet);
        proof {
            assert(v@ =~= Self::spec_all().take(81));
        }
        v.push(FromClientPacketId::RcPlayerCommentsSet);
        proof {
            assert(v@ =~= Self::spec_all().take(82));
        }
        v.push(FromClientPacketId::RcPlayerBanGet);
        proof {
            assert(v@ =~= Self::spec_all().take(83));
        }
        v.push(FromClientPacketId::RcPlayerBanSet);
        proof {
            assert(v@ =~= Self::spec_all().take(84));
        }
        v.push(FromClientPacketId::RcFileBrowserStart);
        proof {
            assert(v@ =~= Self::spec_all().take(85));
        }
        v.push(FromClientPacketId::RcFileBrowserCd);
        proof {
            assert(v@ =~= Self::spec_all().take(86));
        }
        v.push(FromClientPacketId::RcFileBrowserEnd);
        proof {
            assert(v@ =~= Self::spec_all().take(87));
        }
        v.push(FromClientPacketId::RcFileBrowserDown);
        proof {
            assert(v@ =~= Self::spec_all().take(88));
        }
        v.push(FromClientPacketId::RcFileBrowserUp);
        proof {
            assert(v@ =~= Self::spec_all().take(89));
        }
        v.push(FromClientPacketId::NpcServerQuery);
        proof {
            assert(v@ =~= Self::spec_all().take(90));
        }
        v.push(FromClientPacketId::RcFileBrowserMove);
        proof {
            assert(v@ =~= Self::spec_all().take(91));
        }
        v.push(FromClientPacketId::RcFileBrowserDelete);
        proof {
            assert(v@ =~= Self::spec_all().take(92));
        }
        v.push(FromClientPacketId::RcFileBrowserRename);
        proof {
            assert(v@ =~= Self::spec_all().take(93));
        }
        v.push(FromClientPacketId::NcNpcGet);
        proof {
            assert(v@ =~= Self::spec_all().take(94));
        }
        v.push(FromClientPacketId::NcNpcDelete);
        proof {
            assert(v@ =~= Self::spec_all().take(95));
        }
        v.push(FromClientPacketId::NcNpcReset);
        proof {
            assert(v@ =~= Self::spec_all().take(96));
        }
        v.push(FromClientPacketId::NcNpcScriptGet);
        proof {
            assert(v@ =~= Self::spec_all().take(97));
        }
        v.push(FromClientPacketId::NcNpcWarp);
        proof {
            assert(v@ =~= Self::spec_all().take(98));
        }
        v.push(FromClientPacketId::NcNpcFlagsGet);
        proof {
            assert(v@ =~= Self::spec_all().take(99));
        }
        v.push(FromClientPacketId::NcNpcScriptSet);
        proof {
            assert(v@ =~= Self::spec_all().take(100));
        }
        v.push(FromClientPacketId::NcNpcFlagsSet);
        proof {
            assert(v@ =~= Self::spec_all().take(101));
        }
        v.push(FromClientPacketId::NcNpcAdd);
        proof {
            assert(v@ =~= Self::spec_all().take(102));
        }
        v.push(FromClientPacketId::NcClassEdit);
        proof {
            assert(v@ =~= Self::spec_all().take(103));
        }
        v.push(FromClientPacketId::NcClassAdd);
        proof {
            assert(v@ =~= Self::spec_all().take(104));
        }
        v.push(FromClientPacketId::NcLocalNpcsGet);
        proof {
            assert(v@ =~= Self::spec_all().take(105));
        }
        v.push(FromClientPacketId::NcWeaponListGet);
        proof {
            assert(v@ =~= Self::spec_all().take(106));
        }
        v.push(FromClientPacketId::NcWeaponGet);
        proof {
            assert(v@ =~= Self::spec_all().take(107));
        }
        v.push(FromClientPacketId::NcWeaponAdd);
        proof {
            assert(v@ =~= Self::spec_all().take(108));
        }
        v.push(FromClientPacketId::NcWeaponDelete);
        proof {
            assert(v@ =~= Self::spec_all().take(109));
        }
        v.push(FromClientPacketId::NcClassDelete);
        proof {
            assert(v@ =~= Self::spec_all().take(110));
        }
        v.push(FromClientPacketId::RequestUpdateBoard);
        proof {
            assert(v@ =~= Self::spec_all().take(111));
        }
        v.push(FromClientPacketId::NcLevelListGet);
        proof {
            assert(v@ =~= Self::spec_all().take(112));
        }
        v.push(FromClientPacketId::NcLevelListSet);
        proof {
            assert(v@ =~= Self::spec_all().take(113));
        }
        v.push(FromClientPacketId::RequestText);
        proof {
            assert(v@ =~= Self::spec_all().take(114));
        }
        v.push(FromClientPacketId::SendText);
        proof {
            assert(v@ =~= Self::spec_all().take(115));
        }
        v.push(FromClientPacketId::RcLargeFileStart);
        proof {
            assert(v@ =~= Self::spec_all().take(116));
        }
        v.push(FromClientPacketId::RcLargeFileEnd);
        proof {
            assert(v@ =~= Self::spec_all().take(117));
        }
        v.push(FromClientPacketId::UpdateGani);
        proof {
            assert(v@ =~= Self::spec_all().take(118));
        }
        v.push(FromClientPacketId::UpdateScript);
        proof {
            assert(v@ =~= Self::spec_all().take(119));
        }
        v.push(FromClientPacketId::UpdatePackageRequestFile);
        proof {
            assert(v@ =~= Self::spec_all().take(120));
        }
        v.push(FromClientPacketId::RcFolderDelete);
        proof {
            assert(v@ =~= Self::spec_all().take(121));
        }
        v.push(FromClientPacketId::UpdateClass);
        proof {
            assert(v@ =~= Self::spec_all().take(122));
        }
        v.push(FromClientPacketId::SetEncKey);
        proof {
            assert(v@ =~= Self::spec_all().take(123));
        }
        v.push(FromClientPacketId::Bundle);
        proof {
            assert(v@ =~= Self::spec_all().take(124));
        }
        proof {
            assert(v@ =~= Self::spec_all());
        }
        v
    }
}

} // verus!

