use std::time::Duration;

use preagonal::config::{
    DEFAULT_NC_AUTO_DISCONNECT_SECS, DEFAULT_TIMEOUT_SECS, default_nc_auto_disconnect, default_timeout,
};
use preagonal::net::client::pending::PendingRequests;
use preagonal::net::client::rc::{
    encryption_key_from_byte, generate_encryption_key, parse_npc_server_addr, parse_u16, rc_login_packet,
};
use preagonal::net::packet::from_server::FromServerPacketId;
use preagonal::net::packet::{GPacket, PacketId};
use preagonal::utils::{compress_bzip2, compress_zlib, decompress_bzip2, decompress_zlib};

#[test]
fn a_response_goes_to_the_request_waiting_for_it() {
    let mut pending: PendingRequests<String> = PendingRequests::new();
    let addr = PacketId::FromServer(FromServerPacketId::NpcServerAddr);
    let weapon = PacketId::FromServer(FromServerPacketId::NcWeaponGet);
    assert_eq!(pending.insert(addr, "first".to_string()), None);
    assert_eq!(pending.insert(weapon, "weapon".to_string()), None);
    assert_eq!(pending.insert(addr, "second".to_string()), Some("first".to_string()));
    assert_eq!(pending.len(), 2);
    assert!(pending.contains(addr));
    assert_eq!(pending.remove(addr), Some("second".to_string()));
    assert_eq!(pending.remove(addr), None);
    assert!(!pending.contains(addr));
    assert_eq!(pending.remove(PacketId::FromServer(FromServerPacketId::RcChat)), None);
    assert_eq!(pending.len(), 1);
}

#[test]
fn npc_server_address_is_parsed() {
    assert_eq!(
        parse_npc_server_addr(b"xx127.0.0.1,14802").unwrap(),
        ("127.0.0.1".to_string(), 14802)
    );
    assert_eq!(
        parse_npc_server_addr(b"..host,+80,extra").unwrap(),
        ("host".to_string(), 80)
    );
    assert_eq!(parse_npc_server_addr(b"..host").unwrap_err(), "Missing NPC port");
    assert_eq!(parse_npc_server_addr(b"..host,70000").unwrap_err(), "Invalid NPC port");
    assert_eq!(parse_npc_server_addr(b"..host,").unwrap_err(), "Invalid NPC port");
    assert_eq!(parse_npc_server_addr(b"..").unwrap_err(), "Missing NPC port");
}

#[test]
fn port_numbers_parse_as_u16_from_str() {
    for s in ["0", "80", "+80", "65535", "0065535", "1a", "", "+", "-1", "65536", " 1"] {
        assert_eq!(parse_u16(s.as_bytes()), s.parse::<u16>().ok(), "{:?}", s);
    }
}

#[test]
fn encryption_keys_are_below_128() {
    for _ in 0..200 {
        assert!(generate_encryption_key() <= 0x7f);
    }
    assert_eq!(encryption_key_from_byte(0xff), 0x7f);
    assert_eq!(encryption_key_from_byte(0x85), 0x05);
    assert_eq!(encryption_key_from_byte(0x42), 0x42);
}

#[test]
fn rc_login_packet_takes_the_platform_first() {
    let ids = vec!["win".to_string(), "111".to_string(), "222".to_string()];
    let p = rc_login_packet(0xe, "GSERV025".to_string(), "acct".to_string(), "pw".to_string(), &ids);
    assert_eq!(p.platform, "win");
    assert_eq!(p.pc_ids, vec!["111".to_string(), "222".to_string()]);
    assert_eq!(p.data(), b".GSERV025$acct\"pwwin,\"111\",\"222\"".to_vec());
    let p = rc_login_packet(1, "V".to_string(), "a".to_string(), "b".to_string(), &vec![]);
    assert_eq!(p.platform, "");
    assert!(p.pc_ids.is_empty());
}

#[test]
fn configuration_defaults() {
    assert_eq!(default_timeout(), Duration::from_secs(DEFAULT_TIMEOUT_SECS));
    assert_eq!(default_timeout(), Duration::from_secs(5));
    assert_eq!(default_nc_auto_disconnect(), Duration::from_secs(DEFAULT_NC_AUTO_DISCONNECT_SECS));
    assert_eq!(default_nc_auto_disconnect(), Duration::from_secs(60));
}

#[test]
fn compression_round_trips() {
    let data: Vec<u8> = b"abcabcabcabcabcabcabcabcabcabc".to_vec();
    let z = compress_zlib(&data).unwrap();
    assert_ne!(z, data);
    assert_eq!(decompress_zlib(&z).unwrap(), data);
    let b = compress_bzip2(&data).unwrap();
    assert_ne!(b, data);
    assert_eq!(decompress_bzip2(&b).unwrap(), data);
    assert!(decompress_bzip2(&data).is_err());
    assert!(decompress_zlib(&data).is_err());
}
