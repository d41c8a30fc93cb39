use preagonal::net::packet::from_client::FromClientPacketId;
use preagonal::net::packet::from_client::game_login::GameLogin;
use preagonal::net::packet::from_client::nc_login::NcLogin;
use preagonal::net::packet::from_client::nc_query::RcNcQuery;
use preagonal::net::packet::from_client::nc_weapon_add::NcWeaponAdd;
use preagonal::net::packet::from_client::nc_weapon_get::NcWeaponGet;
use preagonal::net::packet::from_client::rc_chat::RcChat;
use preagonal::net::packet::from_client::rc_login::RcLogin;
use preagonal::net::packet::from_server::FromServerPacketId;
use preagonal::net::packet::from_server::nc_weapon_get::NcWeaponGetImpl;
use preagonal::net::packet::from_server::weapon_script::NpcWeaponScript;
use preagonal::net::packet::{
    GPacket, GPacketBuilder, PacketConversionError, PacketId, PacketIdTrait,
};
use preagonal::io::GraalIoError;

#[test]
fn packet_ids_have_their_bytes() {
    assert_eq!(PacketId::FromClient(FromClientPacketId::RcChat).value(), 0x4F);
    assert_eq!(PacketId::FromServer(FromServerPacketId::Bundle).value(), 0xFD);
    let b: u8 = PacketId::FromClient(FromClientPacketId::NcWeaponGet).into();
    assert_eq!(b, 0x74);
    let w: u64 = PacketId::FromServer(FromServerPacketId::RcChat).into();
    assert_eq!(w, 74);
    let u: usize = PacketId::FromClient(FromClientPacketId::Bundle).into();
    assert_eq!(u, 0xFD);
}

#[test]
fn packet_ids_are_found_by_byte_and_name() {
    assert_eq!(FromServerPacketId::try_from_u8(0xFC).unwrap(), FromServerPacketId::SetEncKey);
    assert!(matches!(FromServerPacketId::try_from_u8(3), Err(PacketConversionError::InvalidId(3))));
    assert_eq!(FromClientPacketId::try_from_u16(0x175).unwrap(), FromClientPacketId::NcWeaponAdd);
    assert_eq!(FromClientPacketId::try_from_u8(0x19).is_err(), true);
    assert_eq!(FromServerPacketId::NcWeaponGet.name(), "NcWeaponGet");
    assert_eq!(FromClientPacketId::from_name("RcChat"), Some(FromClientPacketId::RcChat));
    assert_eq!(FromClientPacketId::from_name("Nothing"), None);
}

#[test]
fn packet_id_lists_are_complete() {
    let all = FromClientPacketId::all();
    assert_eq!(all.len(), FromClientPacketId::count());
    assert_eq!(all.len(), 124);
    assert_eq!(all[0], FromClientPacketId::LevelWarp);
    assert_eq!(FromServerPacketId::all().len(), FromServerPacketId::count());
    for id in FromClientPacketId::all() {
        assert_eq!(FromClientPacketId::try_from_u8(id.value()).unwrap(), id);
        assert_eq!(FromClientPacketId::from_name(id.name()), Some(id));
    }
}

#[test]
fn builder_keeps_id_and_data() {
    let p = GPacketBuilder::new(PacketId::FromServer(FromServerPacketId::RcChat))
        .with_data(b"hello".to_vec())
        .build();
    assert_eq!(p.id(), PacketId::FromServer(FromServerPacketId::RcChat));
    assert_eq!(p.data(), b"hello".to_vec());
    let empty = GPacketBuilder::new(PacketId::FromClient(FromClientPacketId::RcChat)).build();
    assert!(empty.data().is_empty());
}

#[test]
fn game_login_bytes() {
    let p = GameLogin::new(
        "G3D2204D".to_string(),
        "acct".to_string(),
        "pw".to_string(),
        vec!["win".to_string(), "abc".to_string()],
    );
    assert_eq!(p.id(), PacketId::FromClient(FromClientPacketId::V6Login));
    assert_eq!(p.data(), b"G3D2204D$acct\"pw\"win\",\"abc\"".to_vec());
}

#[test]
fn nc_login_bytes() {
    let p = NcLogin::new("NCL21075".to_string(), "acct".to_string(), "pw".to_string());
    assert_eq!(p.id(), PacketId::FromClient(FromClientPacketId::V4Login));
    assert_eq!(p.data(), b"NCL21075$acct\"pw".to_vec());
}

#[test]
fn nc_query_bytes() {
    let p = RcNcQuery::new("location".to_string());
    assert_eq!(p.unknown, 2);
    assert_eq!(p.id(), PacketId::FromClient(FromClientPacketId::NpcServerQuery));
    assert_eq!(p.data(), b" \"location".to_vec());
}

#[test]
fn nc_weapon_packets_bytes() {
    let add = NcWeaponAdd::new("Sword".to_string(), "s.png".to_string(), "a\r\nb".to_string());
    assert_eq!(add.id(), PacketId::FromClient(FromClientPacketId::NcWeaponAdd));
    let mut expected = vec![37u8];
    expected.extend_from_slice(b"Sword");
    expected.push(37);
    expected.extend_from_slice(b"s.png");
    expected.extend_from_slice(&[b'a', 0xA7, b'b']);
    assert_eq!(add.data(), expected);
    let get = NcWeaponGet::new("Sword".to_string());
    assert_eq!(get.id(), PacketId::FromClient(FromClientPacketId::NcWeaponGet));
    assert_eq!(get.data(), b"Sword".to_vec());
    let chat = RcChat::new("hi all".to_string());
    assert_eq!(chat.id(), PacketId::FromClient(FromClientPacketId::RcChat));
    assert_eq!(chat.data(), b"hi all".to_vec());
}

#[test]
fn rc_login_bytes() {
    let p = RcLogin::new(
        0xe,
        "GSERV025".to_string(),
        "Graal1234567".to_string(),
        "12345678".to_string(),
        "win".to_string(),
        vec!["111".to_string(), "222".to_string()],
    );
    assert_eq!(p.id(), PacketId::FromClient(FromClientPacketId::V5Login));
    let expected = b".GSERV025,Graal1234567(12345678win,\"111\",\"222\"".to_vec();
    assert_eq!(p.serialize().unwrap(), expected);
    assert_eq!(p.data(), expected);
}

#[test]
fn rc_login_without_pc_ids() {
    let p = RcLogin::new(1, "V".to_string(), "a".to_string(), "b".to_string(), "win".to_string(), vec![]);
    assert_eq!(p.serialize().unwrap(), b"!V!a!bwin,\"\"".to_vec());
}

#[test]
fn rc_login_refuses_a_key_above_a_gu8() {
    let p = RcLogin::new(300, "V".to_string(), "a".to_string(), "b".to_string(), "w".to_string(), vec![]);
    assert!(matches!(p.serialize(), Err(GraalIoError::ValueExceedsMaximum(300, 0xDF))));
    let long = "x".repeat(230);
    let p = RcLogin::new(1, "V".to_string(), long, "b".to_string(), "w".to_string(), vec![]);
    assert!(matches!(p.serialize(), Err(GraalIoError::ValueExceedsMaximum(230, 0xDF))));
}

#[test]
fn nc_weapon_get_is_read() {
    let mut data = vec![37u8];
    data.extend_from_slice(b"Sword");
    data.push(33);
    data.extend_from_slice(b"i");
    data.extend_from_slice(&[b'x', 0xA7, b'y']);
    let w = NcWeaponGetImpl::from_bytes(data).unwrap();
    assert_eq!(w.script_name, "Sword");
    assert_eq!(w.img, "i");
    assert_eq!(w.script, "x\ny");
}

#[test]
fn nc_weapon_get_errors() {
    assert!(matches!(
        NcWeaponGetImpl::from_bytes(vec![37, b'a']),
        Err(PacketConversionError::GraalIo(GraalIoError::UnexpectedEof))
    ));
    assert!(matches!(
        NcWeaponGetImpl::from_bytes(vec![33, b'a', 32, 0xFF]),
        Err(PacketConversionError::Other(m)) if m.starts_with("Failed to convert script to string: ")
    ));
    let other = GPacketBuilder::new(PacketId::FromServer(FromServerPacketId::RcChat)).build();
    assert!(matches!(
        NcWeaponGetImpl::try_from_packet(&other),
        Err(PacketConversionError::Other(m)) if m == "Expected NcWeaponGet packet"
    ));
    let good = GPacketBuilder::new(PacketId::FromServer(FromServerPacketId::NcWeaponGet))
        .with_data(vec![33, b'a', 33, b'b', b's'])
        .build();
    assert_eq!(NcWeaponGetImpl::try_from_packet(&good).unwrap().script, "s");
}

#[test]
fn npc_weapon_script_is_read() {
    let header = b"weapon,Sword";
    let mut data = vec![32u8, 32 + header.len() as u8];
    data.extend_from_slice(header);
    data.extend_from_slice(&[1, 2, 3]);
    let s = NpcWeaponScript::from_bytes(data).unwrap();
    assert_eq!(s.script_type, "weapon");
    assert_eq!(s.script_name, "Sword");
    assert_eq!(s.weapon_bytecode, vec![1, 2, 3]);
}

#[test]
fn npc_weapon_script_errors() {
    let mut data = vec![32u8, 32 + 6];
    data.extend_from_slice(b"weapon");
    assert!(matches!(
        NpcWeaponScript::from_bytes(data),
        Err(PacketConversionError::Other(m)) if m == "Invalid NpcWeaponScript packet"
    ));
    assert!(matches!(
        NpcWeaponScript::from_bytes(vec![32, 40, b'a']),
        Err(PacketConversionError::GraalIo(GraalIoError::UnexpectedEof))
    ));
    let mut bad = vec![32u8, 32 + 3];
    bad.extend_from_slice(&[0xFF, b',', b'a']);
    assert!(matches!(
        NpcWeaponScript::from_bytes(bad),
        Err(PacketConversionError::Other(m)) if m == "Failed to parse UTF-8 String from script type"
    ));
    let other = GPacketBuilder::new(PacketId::FromServer(FromServerPacketId::RcChat)).build();
    assert!(matches!(
        NpcWeaponScript::try_from_packet(&other),
        Err(PacketConversionError::Other(m)) if m == "Expected NpcWeaponScript packet"
    ));
}

#[test]
fn nc_weapon_add_is_read_back_as_nc_weapon_get() {
    let add = NcWeaponAdd::new("Sword".to_string(), "s.png".to_string(), "line1\nline2".to_string());
    let got = NcWeaponGetImpl::from_bytes(add.data()).unwrap();
    assert_eq!(got.script_name, "Sword");
    assert_eq!(got.img, "s.png");
    assert_eq!(got.script, "line1\nline2");
}
