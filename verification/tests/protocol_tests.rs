use std::collections::VecDeque;

use preagonal::config::EncryptionKeys;
use preagonal::io::GraalIoError;
use preagonal::net::packet::from_client::FromClientPacketId;
use preagonal::net::packet::from_server::FromServerPacketId;
use preagonal::net::packet::{GPacket, GPacketImpl, PacketConversionError, PacketId};
use preagonal::net::protocol::proto_v5::{GCompressionTypeV5, GProtocolV5State, V5_ENCRYPTION_START};
use preagonal::net::protocol::proto_v6::GProtocolV6State;
use preagonal::net::protocol::proto_v6_header::{
    GCompressionTypeV6, GProtocolV6HeaderFormat, GProtocolV6PacketHeader, PacketDirection,
};
use preagonal::net::protocol::{
    ProtocolError, is_stream_readable, packet_payload, proto_v4, read_packet_stream,
};
use preagonal::utils::compress_zlib;
use rc4::{KeyInit, StreamCipher};
use rsa::pkcs8::EncodePrivateKey;
use rsa::{Pkcs1v15Encrypt, RsaPrivateKey, RsaPublicKey};

fn chat(data: &[u8]) -> PacketId {
    let _ = data;
    PacketId::FromServer(FromServerPacketId::RcChat)
}

#[test]
fn v5_compression_bytes() {
    assert_eq!(GCompressionTypeV5::try_from_u8(4).unwrap(), GCompressionTypeV5::CompressionZlib);
    assert!(matches!(GCompressionTypeV5::try_from_u8(5), Err(ProtocolError::InvalidCompression(5))));
    let b: u8 = GCompressionTypeV5::CompressionBzip2.into();
    assert_eq!(b, 6);
    assert_eq!(GCompressionTypeV5::CompressionNone.value(), 2);
    assert_eq!(V5_ENCRYPTION_START, 0x4A80B38);
}

#[test]
fn v5_key_stream_masks_the_first_blocks() {
    let mut s = GProtocolV5State::new();
    assert!(!s.has_encryption_key());
    assert_eq!(s.encrypt(&[1, 2, 3], GCompressionTypeV5::CompressionZlib), vec![1, 2, 3]);
    s.set_encryption_key(0x10);
    let out = s.encrypt(&[0u8; 8], GCompressionTypeV5::CompressionZlib);
    assert_eq!(out, vec![40, 24, 209, 214, 216, 24, 202, 3]);
    let mut t = GProtocolV5State::new();
    t.set_encryption_key(0x10);
    let long = t.encrypt(&[0u8; 20], GCompressionTypeV5::CompressionZlib);
    assert_eq!(&long[..8], &out[..]);
    assert_eq!(&long[16..], &[0, 0, 0, 0]);
    let mut u = GProtocolV5State::new();
    u.set_encryption_key(0x10);
    let none = u.encrypt(&[0u8; 52], GCompressionTypeV5::CompressionNone);
    assert_ne!(&none[44..48], &[0, 0, 0, 0]);
    assert_eq!(&none[48..], &[0, 0, 0, 0]);
}

#[test]
fn v5_decrypt_undoes_encrypt() {
    let mut sender = GProtocolV5State::new();
    let mut receiver = GProtocolV5State::new();
    sender.set_encryption_key(0x55);
    receiver.set_encryption_key(0x55);
    for round in 0..3u8 {
        let data: Vec<u8> = (0..37u8).map(|b| b.wrapping_mul(round + 7)).collect();
        let enc = sender.encrypt(&data, GCompressionTypeV5::CompressionZlib);
        assert_ne!(enc, data);
        assert_eq!(receiver.decrypt(&enc, GCompressionTypeV5::CompressionZlib), data);
    }
}

#[test]
fn v5_frame_is_read_back() {
    let mut sender = GProtocolV5State::new();
    let mut receiver = GProtocolV5State::new();
    sender.set_encryption_key(0x21);
    receiver.set_encryption_key(0x21);
    let frame = sender.encode_frame(chat(b""), b"hello there").unwrap();
    let len = (frame[0] as usize) * 256 + frame[1] as usize;
    assert_eq!(len, frame.len() - 2);
    assert_eq!(frame[2], 4);
    let payload = receiver.decode_frame(&frame[2..]).unwrap();
    let mut expected = vec![74 + 32];
    expected.extend_from_slice(b"hello there");
    expected.push(10);
    assert_eq!(payload, expected);
    let mut queue: VecDeque<GPacketImpl> = VecDeque::new();
    read_packet_stream(payload, &mut queue).unwrap();
    assert_eq!(queue.len(), 1);
    assert_eq!(queue[0].id(), chat(b""));
    assert_eq!(queue[0].data(), b"hello there".to_vec());
}

#[test]
fn v5_frame_without_key_has_no_compression_byte() {
    let mut sender = GProtocolV5State::new();
    let frame = sender.encode_frame(chat(b""), b"x").unwrap();
    let len = (frame[0] as usize) * 256 + frame[1] as usize;
    assert_eq!(len, frame.len() - 2);
    assert_eq!(frame[2], 0x78);
}

#[test]
fn v5_decode_errors() {
    let mut s = GProtocolV5State::new();
    assert!(matches!(s.decode_frame(&[9, 1, 2]), Err(ProtocolError::InvalidCompression(9))));
    assert!(matches!(s.decode_frame(&[4, 1, 2, 3]), Err(ProtocolError::Io(_))));
    assert_eq!(s.decode_frame(&[2, 65, 66]).unwrap(), vec![65, 66]);
}

#[test]
fn v5_frame_refuses_an_id_above_a_gu8() {
    let mut s = GProtocolV5State::new();
    assert!(matches!(
        s.encode_frame(PacketId::FromClient(FromClientPacketId::Bundle), b""),
        Err(ProtocolError::GraalIo(GraalIoError::ValueExceedsMaximum(0xFD, 0xDF)))
    ));
}

#[test]
fn v4_frame_is_read_back() {
    let frame = proto_v4::encode_frame(chat(b""), b"abc").unwrap();
    let len = (frame[0] as usize) * 256 + frame[1] as usize;
    assert_eq!(len, frame.len() - 2);
    let payload = proto_v4::decode_frame(&frame[2..]).unwrap();
    assert_eq!(payload, packet_payload(chat(b""), b"abc").unwrap());
    assert!(matches!(proto_v4::decode_frame(&[1, 2, 3]), Err(ProtocolError::Io(_))));
}

#[test]
fn payloads_one_after_another_are_read_in_order() {
    let addr = PacketId::FromServer(FromServerPacketId::NpcServerAddr);
    let mut data = packet_payload(chat(b""), b"first").unwrap();
    data.extend(packet_payload(addr, b"127.0.0.1,14802").unwrap());
    data.extend(packet_payload(chat(b""), b"").unwrap());
    let mut queue: VecDeque<GPacketImpl> = VecDeque::new();
    read_packet_stream(data, &mut queue).unwrap();
    assert_eq!(queue.len(), 3);
    assert_eq!(queue[0].id(), chat(b""));
    assert_eq!(queue[0].data(), b"first".to_vec());
    assert_eq!(queue[1].id(), addr);
    assert_eq!(queue[1].data(), b"127.0.0.1,14802".to_vec());
    assert_eq!(queue[2].id(), chat(b""));
    assert!(queue[2].data().is_empty());
}

#[test]
fn packet_stream_keeps_packets_before_an_error() {
    let mut data = vec![74 + 32];
    data.extend_from_slice(b"one\n");
    data.push(79 + 32);
    data.extend_from_slice(b"two\n");
    data.push(33);
    data.extend_from_slice(b"bad\n");
    assert!(is_stream_readable(&data));
    let mut queue: VecDeque<GPacketImpl> = VecDeque::new();
    let r = read_packet_stream(data, &mut queue);
    assert!(matches!(
        r,
        Err(ProtocolError::PacketConversion(PacketConversionError::InvalidId(1)))
    ));
    assert_eq!(queue.len(), 2);
    assert_eq!(queue[1].id(), PacketId::FromServer(FromServerPacketId::NpcServerAddr));
    assert_eq!(queue[1].data(), b"two".to_vec());
    let mut queue: VecDeque<GPacketImpl> = VecDeque::new();
    let r = read_packet_stream(vec![74 + 32, b'x'], &mut queue);
    assert!(matches!(r, Err(ProtocolError::GraalIo(GraalIoError::ByteNotFound(10)))));
    assert!(queue.is_empty());
    assert!(!is_stream_readable(&[5, 10]));
}

fn format() -> GProtocolV6HeaderFormat {
    GProtocolV6HeaderFormat::try_from("ELLLIT").unwrap()
}

fn keys() -> (EncryptionKeys, RsaPublicKey) {
    let mut rng = rand::thread_rng();
    let key = RsaPrivateKey::new(&mut rng, 512).unwrap();
    let public = RsaPublicKey::from(&key);
    let der = key.to_pkcs8_der().unwrap().as_bytes().to_vec();
    (EncryptionKeys { rsa_private_key: der }, public)
}

fn frame(compression: u8, checksum: u8, id: u8, body: &[u8]) -> Vec<u8> {
    let len = 6 + body.len();
    let mut v = vec![compression, (len >> 16) as u8, (len >> 8) as u8, len as u8, checksum, id];
    v.extend_from_slice(body);
    v
}

#[test]
fn v6_header_format_from_string() {
    let f = format();
    assert_eq!(f.header_length, 6);
    assert_eq!((f.compression_index, f.compression_size), (0, 1));
    assert_eq!((f.length_index, f.length_size), (1, 3));
    assert_eq!((f.checksum_index, f.checksum_size), (4, 1));
    assert_eq!((f.type_index, f.type_size), (5, 1));
    assert!(matches!(
        GProtocolV6HeaderFormat::try_from("ELX"),
        Err(ProtocolError::InvalidHeaderFormat(m)) if m == "ELX"
    ));
    assert!(GProtocolV6HeaderFormat::try_from("ELT").is_err());
}

#[test]
fn v6_header_is_parsed_back() {
    let f = format();
    let header = GProtocolV6PacketHeader {
        compression: GCompressionTypeV6::CompressionZlib,
        checksum: 7,
        length: 300,
        id: PacketId::FromServer(FromServerPacketId::NcWeaponGet),
    };
    let bytes = f.create_header(&header).unwrap();
    assert_eq!(bytes, vec![1, 0, 1, 44, 7, 192]);
    let back = f.parse_header(PacketDirection::Incoming, &bytes).unwrap();
    assert_eq!(back.length, 300);
    assert_eq!(back.checksum, 7);
    assert_eq!(back.id, header.id);
    assert!(matches!(
        f.parse_header(PacketDirection::Incoming, &bytes[..5]),
        Err(ProtocolError::InvalidHeaderLength(5, 6))
    ));
    assert!(matches!(
        f.parse_header(PacketDirection::Incoming, &[5, 0, 0, 0, 0, 0]),
        Err(ProtocolError::InvalidCompression(5))
    ));
}

#[test]
fn v6_sent_packet_is_received() {
    let (k1, _) = keys();
    let (k2, _) = keys();
    let mut sender = GProtocolV6State::new(format(), k1);
    let mut receiver = GProtocolV6State::new(format(), k2);
    let bytes = sender.prepare_packet(chat(b""), b"hello").unwrap();
    assert_eq!(bytes, frame(0, 1, 74, b"hello"));
    assert_eq!(sender.outgoing_checksum(), 2);
    let mut queue: VecDeque<GPacketImpl> = VecDeque::new();
    receiver.process_packet_bundle(&bytes, &mut queue).unwrap();
    assert_eq!(queue.len(), 1);
    assert_eq!(queue[0].data(), b"hello".to_vec());
    assert_eq!(receiver.incoming_checksum(), 2);
    let long: Vec<u8> = (0..200u8).collect();
    let bytes = sender.prepare_packet(chat(b""), &long).unwrap();
    assert_eq!(bytes[0], 1);
    receiver.process_packet_bundle(&bytes, &mut queue).unwrap();
    assert_eq!(queue.len(), 2);
    assert_eq!(queue[1].data(), long);
}

#[test]
fn v6_frames_sent_one_after_another_are_received_in_order() {
    let (k1, _) = keys();
    let (k2, _) = keys();
    let mut sender = GProtocolV6State::new(format(), k1);
    let mut receiver = GProtocolV6State::new(format(), k2);
    let addr = PacketId::FromServer(FromServerPacketId::NpcServerAddr);
    let mut bytes = sender.prepare_packet(chat(b""), b"one").unwrap();
    bytes.extend(sender.prepare_packet(addr, b"two").unwrap());
    assert_eq!(sender.outgoing_checksum(), 3);
    let mut queue: VecDeque<GPacketImpl> = VecDeque::new();
    receiver.process_packet_bundle(&bytes, &mut queue).unwrap();
    assert_eq!(queue.len(), 2);
    assert_eq!(queue[0].id(), chat(b""));
    assert_eq!(queue[0].data(), b"one".to_vec());
    assert_eq!(queue[1].id(), addr);
    assert_eq!(queue[1].data(), b"two".to_vec());
    assert_eq!(receiver.incoming_checksum(), 3);
}

#[test]
fn v6_outgoing_checksum_moves_on_by_one_per_packet_modulo_256() {
    let (k, _) = keys();
    let mut sender = GProtocolV6State::new(format(), k);
    for _ in 0..300 {
        sender.prepare_packet(chat(b""), b"x").unwrap();
    }
    assert_eq!(sender.outgoing_checksum(), ((1 + 300) % 256) as u8);
}

#[test]
fn v6_bundles_are_unpacked_and_not_queued() {
    let (k, _) = keys();
    let mut s = GProtocolV6State::new(format(), k);
    let mut inner = frame(0, 5, 74, b"a");
    inner.extend(frame(0, 6, 79, b"bc"));
    let compressed = compress_zlib(&inner).unwrap();
    let outer = frame(1, 255, 0xFD, &compressed);
    let mut queue: VecDeque<GPacketImpl> = VecDeque::new();
    s.process_packet_bundle(&outer, &mut queue).unwrap();
    assert_eq!(queue.len(), 2);
    assert_eq!(queue[0].data(), b"a".to_vec());
    assert_eq!(queue[1].id(), PacketId::FromServer(FromServerPacketId::NpcServerAddr));
    assert_eq!(s.incoming_checksum(), 0);
}

#[test]
fn v6_incomplete_packet_waits() {
    let (k, _) = keys();
    let mut s = GProtocolV6State::new(format(), k);
    let mut bytes = frame(0, 1, 74, b"abcdef");
    bytes.truncate(9);
    let mut queue: VecDeque<GPacketImpl> = VecDeque::new();
    s.process_packet_bundle(&bytes, &mut queue).unwrap();
    assert!(queue.is_empty());
    assert_eq!(s.incoming_checksum(), 1);
}

#[test]
fn v6_header_only_packets_are_processed() {
    let (k, _) = keys();
    let mut s = GProtocolV6State::new(format(), k);
    let mut bytes = frame(0, 1, 74, b"");
    bytes.extend(frame(0, 2, 74, b""));
    let mut queue: VecDeque<GPacketImpl> = VecDeque::new();
    s.process_packet_bundle(&bytes, &mut queue).unwrap();
    assert_eq!(queue.len(), 2);
    assert!(queue[0].data().is_empty());
    assert!(queue[1].data().is_empty());
    assert_eq!(s.incoming_checksum(), 3);
}

#[test]
fn v6_type_field_above_a_byte_is_no_packet_id() {
    let fmt = GProtocolV6HeaderFormat::try_from("EILTT").unwrap();
    let r = fmt.parse_header(PacketDirection::Outgoing, &[0, 1, 7, 0x01, 0x4F]);
    assert!(matches!(
        r,
        Err(ProtocolError::PacketConversion(PacketConversionError::IdOutOfRange(335)))
    ));
}

#[test]
fn v6_key_packet_with_a_key_that_does_not_decode_fails() {
    let mut s = GProtocolV6State::new(format(), EncryptionKeys { rsa_private_key: vec![1, 2, 3] });
    let mut queue: VecDeque<GPacketImpl> = VecDeque::new();
    assert!(matches!(
        s.process_packet_bundle(&frame(0, 1, 0xFC, &[9, 9, 9]), &mut queue),
        Err(ProtocolError::RsaDecryption(_))
    ));
    assert!(queue.is_empty());
}

#[test]
fn v6_errors() {
    let (k, _) = keys();
    let mut s = GProtocolV6State::new(format(), k);
    let mut queue: VecDeque<GPacketImpl> = VecDeque::new();
    let short_len = vec![0, 0, 0, 3, 1, 74, 1, 2];
    assert!(matches!(
        s.process_packet_bundle(&short_len, &mut queue),
        Err(ProtocolError::InvalidPacketLength(6, 3))
    ));
    let bad = frame(1, 1, 74, b"not zlib");
    assert!(matches!(s.process_packet_bundle(&bad, &mut queue), Err(ProtocolError::Io(_))));
    let unknown = frame(0, 1, 3, b"x");
    assert!(matches!(
        s.process_packet_bundle(&unknown, &mut queue),
        Err(ProtocolError::PacketConversion(PacketConversionError::InvalidId(3)))
    ));
    assert!(queue.is_empty());
}

#[test]
fn v6_key_packet_sets_the_rc4_key() {
    let (k, public) = keys();
    let mut s = GProtocolV6State::new(format(), k);
    assert_eq!(s.decrypt_incoming(b"plain"), b"plain".to_vec());
    let mut rng = rand::thread_rng();
    let mut payload = vec![33u8, 32 + 16];
    payload.extend_from_slice(&[7u8; 16]);
    payload.push(32 + 2);
    payload.extend_from_slice(&[1, 2]);
    let ciphertext = public.encrypt(&mut rng, Pkcs1v15Encrypt, &payload).unwrap();
    let bytes = frame(0, 1, 0xFC, &ciphertext);
    let mut queue: VecDeque<GPacketImpl> = VecDeque::new();
    s.process_packet_bundle(&bytes, &mut queue).unwrap();
    assert!(queue.is_empty());
    let mut expected: Vec<u8> = b"stream bytes, read in two parts".to_vec();
    let mut cipher = rc4::Rc4::<rc4::consts::U16>::new(&[7u8; 16].into());
    cipher.apply_keystream(&mut expected);
    let mut got = s.decrypt_incoming(b"stream bytes");
    got.extend(s.decrypt_incoming(b", read in two parts"));
    assert_eq!(got, expected);
    let aes = public.encrypt(&mut rng, Pkcs1v15Encrypt, &[32u8, 32]).unwrap();
    assert!(matches!(
        s.process_packet_bundle(&frame(0, 2, 0xFC, &aes), &mut queue),
        Err(ProtocolError::Other(m)) if m == "AES is not supported, consider using RC4."
    ));
    let short_key = public.encrypt(&mut rng, Pkcs1v15Encrypt, &[33u8, 34, 1, 2, 32]).unwrap();
    assert!(matches!(
        s.process_packet_bundle(&frame(0, 3, 0xFC, &short_key), &mut queue),
        Err(ProtocolError::Other(m)) if m == "Failed to create RC4 key"
    ));
    assert!(matches!(
        s.process_packet_bundle(&frame(0, 4, 0xFC, &[1, 2, 3]), &mut queue),
        Err(ProtocolError::RsaDecryption(_))
    ));
}

#[test]
fn v6_bundles_nest_at_most_sixteen_deep() {
    let (k, _) = keys();
    let mut s = GProtocolV6State::new(format(), k);
    let mut bytes = frame(0, 1, 74, b"deep");
    for _ in 0..16 {
        bytes = frame(0, 1, 0xFD, &bytes);
    }
    let mut queue: VecDeque<GPacketImpl> = VecDeque::new();
    s.process_packet_bundle(&bytes, &mut queue).unwrap();
    assert_eq!(queue.len(), 1);
    assert_eq!(queue[0].data(), b"deep".to_vec());
    let deeper = frame(0, 1, 0xFD, &bytes);
    let mut queue: VecDeque<GPacketImpl> = VecDeque::new();
    assert!(matches!(
        s.process_packet_bundle(&deeper, &mut queue),
        Err(ProtocolError::Other(m)) if m == "Bundles nested too deeply"
    ));
}
