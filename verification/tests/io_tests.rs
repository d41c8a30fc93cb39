use preagonal::io::io_sync::{SyncGraalReader, SyncGraalWriter};
use preagonal::io::io_vec::{
    InMemoryGraalReaderExt, IntoSyncGraalReader, IntoSyncGraalReaderRef, IntoSyncGraalWriter,
    IntoSyncGraalWriterRef,
};
use preagonal::io::{
    GUINT8_MAX, GUINT16_MAX, GUINT24_MAX, GUINT32_MAX, GUINT40_MAX, GraalCodec, GraalIoError,
};

#[test]
fn encode_bits_gives_base_128_digits_plus_32() {
    assert_eq!(GraalCodec::encode_bits(0, 1), vec![32]);
    assert_eq!(GraalCodec::encode_bits(5, 1), vec![37]);
    assert_eq!(GraalCodec::encode_bits(300, 2), vec![32 + 2, 32 + 44]);
    assert_eq!(GraalCodec::encode_bits(0x1234, 3), vec![32, 32 + 0x24, 32 + 0x34]);
}

#[test]
fn decode_bits_reads_base_128_digits() {
    assert_eq!(GraalCodec::decode_bits(&[32]), 0);
    assert_eq!(GraalCodec::decode_bits(&[37]), 5);
    assert_eq!(GraalCodec::decode_bits(&[34, 76]), 300);
    assert_eq!(GraalCodec::decode_bits(&[]), 0);
}

#[test]
fn decode_of_encode_gives_the_value_back() {
    for &(v, n) in &[(0u64, 1usize), (127, 1), (128, 2), (16383, 2), (2097151, 3), (12345678, 4)] {
        assert_eq!(GraalCodec::decode_bits(&GraalCodec::encode_bits(v, n)), v);
    }
}

#[test]
fn every_gu8_up_to_the_maximum_is_one_byte_plus_32() {
    let mut w = SyncGraalWriter::from_writer(Vec::new());
    w.write_gu8(14).unwrap();
    w.write_gu8(200).unwrap();
    w.write_gu8(0xDF).unwrap();
    let bytes = w.into_inner();
    assert_eq!(bytes, vec![0x2E, 232, 255]);
    let mut r = SyncGraalReader::from_reader(bytes);
    assert_eq!(r.read_gu8().unwrap(), 14);
    assert_eq!(r.read_gu8().unwrap(), 200);
    assert_eq!(r.read_gu8().unwrap(), 0xDF);
}

#[test]
fn gu8_written_is_read_back() {
    let mut w = SyncGraalWriter::from_writer(Vec::new());
    w.write_gu8(100).unwrap();
    w.write_gu16(1000).unwrap();
    w.write_gu24(70000).unwrap();
    w.write_gu32(1_000_000).unwrap();
    w.write_gu40(30_000_000_000 & 0xFFFF_FFFF).unwrap();
    let bytes = w.into_inner();
    let mut r = SyncGraalReader::from_reader(bytes);
    assert_eq!(r.read_gu8().unwrap(), 100);
    assert_eq!(r.read_gu16().unwrap(), 1000);
    assert_eq!(r.read_gu24().unwrap(), 70000);
    assert_eq!(r.read_gu32().unwrap(), 1_000_000);
    assert_eq!(r.read_gu40().unwrap(), 30_000_000_000 & 0xFFFF_FFFF);
    assert!(!r.has_remaining());
}

#[test]
fn every_graal_maximum_is_written_and_read_back() {
    let mut w = SyncGraalWriter::from_writer(Vec::new());
    w.write_gu16(GUINT16_MAX).unwrap();
    w.write_gu16(20000).unwrap();
    w.write_gu24(GUINT24_MAX).unwrap();
    w.write_gu32(GUINT32_MAX).unwrap();
    w.write_gu40(GUINT40_MAX).unwrap();
    let bytes = w.into_inner();
    assert_eq!(bytes[0..2].to_vec(), vec![255, 255]);
    assert_eq!(bytes[2..4].to_vec(), vec![32 + 156, 32 + 32]);
    let mut r = SyncGraalReader::from_reader(bytes);
    assert_eq!(r.read_gu16().unwrap(), GUINT16_MAX);
    assert_eq!(r.read_gu16().unwrap(), 20000);
    assert_eq!(r.read_gu24().unwrap(), GUINT24_MAX);
    assert_eq!(r.read_gu32().unwrap(), GUINT32_MAX);
    assert_eq!(r.read_gu40().unwrap(), GUINT40_MAX);
}

#[test]
fn write_gu_refuses_values_above_the_maximum() {
    let mut w = SyncGraalWriter::from_writer(Vec::new());
    assert!(matches!(
        w.write_gu8(GUINT8_MAX + 1),
        Err(GraalIoError::ValueExceedsMaximum(224, 0xDF))
    ));
    assert!(matches!(
        w.write_gu16(0x7060),
        Err(GraalIoError::ValueExceedsMaximum(0x7060, 0x705F))
    ));
    assert!(matches!(w.write_gu(6, 1), Err(GraalIoError::UnsupportedByteCount(6))));
    assert!(w.into_inner().is_empty());
}

#[test]
fn read_exact_past_the_end_is_unexpected_eof() {
    let mut r = SyncGraalReader::from_reader(vec![1, 2, 3]);
    assert_eq!(r.read_exact(2).unwrap(), vec![1, 2]);
    assert!(matches!(r.read_exact(2), Err(GraalIoError::UnexpectedEof)));
    assert!(!r.has_remaining());
}

#[test]
fn read_until_consumes_the_delimiter() {
    let mut r = SyncGraalReader::from_reader(b"abc\ndef".to_vec());
    assert_eq!(r.read_until(b'\n').unwrap(), b"abc".to_vec());
    assert!(matches!(r.read_until(b'\n'), Err(GraalIoError::ByteNotFound(10))));
}

#[test]
fn read_until_or_end_takes_the_rest() {
    let mut r = SyncGraalReader::from_reader(b"ab,cd".to_vec());
    assert_eq!(r.read_until_or_end(b','), b"ab".to_vec());
    assert_eq!(r.read_until_or_end(b','), b"cd".to_vec());
    assert_eq!(r.read_until_or_end(b','), Vec::<u8>::new());
}

#[test]
fn read_string_reads_up_to_nul() {
    let mut r = SyncGraalReader::from_reader(vec![b'h', b'i', 0xE9, 0, b'x']);
    let (s, len) = r.read_string().unwrap();
    assert_eq!(s, "hi\u{e9}");
    assert_eq!(len, 3);
    assert_eq!(r.read_u8().unwrap(), b'x');
}

#[test]
fn gstring_written_is_read_back() {
    let mut w = SyncGraalWriter::from_writer(Vec::new());
    w.write_gstring("hello").unwrap();
    w.write_string("z").unwrap();
    let bytes = w.into_inner();
    assert_eq!(bytes, vec![37, b'h', b'e', b'l', b'l', b'o', b'z', 0]);
    let mut r = SyncGraalReader::from_reader(bytes);
    assert_eq!(r.read_gstring().unwrap(), "hello");
    assert_eq!(r.read_string().unwrap(), ("z".to_string(), 1));
}

#[test]
fn gstring_too_long_is_refused() {
    let mut w = SyncGraalWriter::from_writer(Vec::new());
    let long = "a".repeat(300);
    assert!(matches!(
        w.write_gstring(&long),
        Err(GraalIoError::ValueExceedsMaximum(300, 0xDF))
    ));
}

#[test]
fn big_endian_integers_round_trip() {
    let mut w = SyncGraalWriter::from_writer(Vec::new());
    w.write_u8(7).unwrap();
    w.write_u16(0xABCD).unwrap();
    w.write_u32(0x01020304).unwrap();
    let bytes = w.into_inner();
    assert_eq!(bytes, vec![7, 0xAB, 0xCD, 1, 2, 3, 4]);
    let mut r = SyncGraalReader::from_reader(bytes);
    assert_eq!(r.read_u8().unwrap(), 7);
    assert_eq!(r.read_u16().unwrap(), 0xABCD);
    assert_eq!(r.read_u32().unwrap(), 0x01020304);
    assert!(matches!(r.read_u16(), Err(GraalIoError::UnexpectedEof)));
}

#[test]
fn split_vec_stops_at_an_empty_part() {
    let mut r = SyncGraalReader::from_reader(b"weapon,Sword,,rest".to_vec());
    let parts = r.split_vec(b',').unwrap();
    assert_eq!(parts, vec![b"weapon".to_vec(), b"Sword".to_vec()]);
    let mut r = SyncGraalReader::from_reader(b"a,b".to_vec());
    assert_eq!(r.split_vec(b',').unwrap(), vec![b"a".to_vec(), b"b".to_vec()]);
}

#[test]
fn read_to_end_takes_everything() {
    let mut r = vec![1u8, 2, 3].into_sync_graal_reader();
    r.read_u8().unwrap();
    assert_eq!(r.read_to_end().unwrap(), vec![2, 3]);
    assert!(!r.can_read().unwrap());
}

#[test]
fn readers_from_slices_and_vectors_agree() {
    let data = vec![40u8, 41, 42];
    let mut a = data.as_slice().into_sync_graal_reader();
    let mut b = data.clone().into_sync_graal_reader();
    assert!(a.can_read().unwrap());
    assert_eq!(a.read_gu8().unwrap(), b.read_gu8().unwrap());
}

#[test]
fn writer_over_a_buffer_overwrites_from_its_start() {
    let mut buf = vec![9u8, 9, 9, 9];
    {
        let mut w = (&mut buf).into_sync_graal_writer();
        w.write_bytes(&[1, 2]).unwrap();
        w.flush().unwrap();
    }
    assert_eq!(buf, vec![1, 2, 9, 9]);
    let mut w = vec![5u8].into_sync_graal_writer();
    w.write_bytes(&[6, 7]).unwrap();
    assert_eq!(w.into_inner(), vec![6, 7]);
}

#[test]
fn writes_through_a_borrowed_vector_land_in_it() {
    let mut v: Vec<u8> = Vec::new();
    {
        let mut w = (&mut v).into_sync_graal_writer();
        w.write_u16(0x1234).unwrap();
    }
    assert_eq!(v, vec![0x12, 0x34]);
    let mut v: Vec<u8> = Vec::new();
    {
        let mut w = (&mut v).into_sync_graal_writer();
        w.write_u32(0xDEADBEEF).unwrap();
        w.flush().unwrap();
    }
    assert_eq!(v, 0xDEADBEEFu32.to_be_bytes().to_vec());
    assert_eq!(SyncGraalReader::from_reader(v).read_u32().unwrap(), 0xDEADBEEF);
    let mut v: Vec<u8> = Vec::new();
    {
        let mut w = (&mut v).into_sync_graal_writer();
        w.write_gstring("hello").unwrap();
        w.flush().unwrap();
    }
    let mut r = SyncGraalReader::from_reader(v);
    assert_eq!(r.read_gstring().unwrap(), "hello");
    assert!(!r.has_remaining());
}
