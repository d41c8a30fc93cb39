use vstd::prelude::*;

use crate::io::{GUINT8_MAX, GraalIoError};
use crate::net::packet::PacketId;
use crate::net::protocol::{ProtocolError, be16, frame_bytes, packet_payload, spec_packet_payload};
use crate::utils::{compress_zlib, decompress_zlib, zlib_compress_fails, zlib_compressed, zlib_decompressed};

verus! {

/// Decompress the data of a received v4 frame into the payload that carries
/// its packets.
pub fn decode_frame(packet_data: &[u8]) -> (r: Result<Vec<u8>, ProtocolError>)
    ensures
        match zlib_decompressed(packet_data@) {
            Some(p) => r matches Ok(v) && v@ == p,
            None => r matches Err(ProtocolError::Io(_)),
        },
{
    match decompress_zlib(packet_data) {
        Ok(v) => Ok(v),
        Err(e) => Err(ProtocolError::Io(e)),
    }
}

/// Compress a payload with zlib.
fn prepare_send(data: &[u8]) -> (r: Result<Vec<u8>, ProtocolError>)
    ensures
        match r {
            Ok(v) => v@ == zlib_compressed(data@) && zlib_decompressed(v@) == Some(data@),
            Err(e) => e is Io && zlib_compress_fails(data@),
        },
        r is Ok <==> !zlib_compress_fails(data@),
{
    match compress_zlib(data) {
        Ok(v) => Ok(v),
        Err(e) => Err(ProtocolError::Io(e)),
    }
}

/// Build the bytes of the v4 frame that sends one packet: the length, then
/// the packet's payload (see `packet_payload`) compressed with zlib.
pub fn encode_frame(id: PacketId, data: &[u8]) -> (r: Result<Vec<u8>, ProtocolError>)
    ensures
        id.spec_value() > GUINT8_MAX ==> r == Err::<Vec<u8>, ProtocolError>(
            ProtocolError::GraalIo(
                GraalIoError::ValueExceedsMaximum(id.spec_value() as u64, GUINT8_MAX),
            ),
        ),
        match r {
            Ok(v) => {
                let payload = spec_packet_payload(id, data@);
                let compressed = zlib_compressed(payload);
                &&& id.spec_value() <= GUINT8_MAX
                &&& zlib_decompressed(compressed) == Some(payload)
                &&& v@ == be16(compressed.len()) + compressed
            },
            Err(e) => id.spec_value() <= GUINT8_MAX ==> e is Io,
        },
        id.spec_value() <= GUINT8_MAX ==> (r is Ok <==> !zlib_compress_fails(
            spec_packet_payload(id, data@),
        )),
{
    let payload = packet_payload(id, data)?;
    let prepared_buffer = prepare_send(payload.as_slice())?;
    Ok(frame_bytes(prepared_buffer.as_slice(), false))
}

/// A v4 frame built from zlib data is read back: its length counts exactly
/// the bytes that follow it, and they decompress to the payload.
pub proof fn lemma_v4_frame_roundtrip(compressed: Seq<u8>, payload: Seq<u8>)
    requires
        compressed.len() < 0x10000,
        zlib_decompressed(compressed) == Some(payload),
    ensures
        ({
            let frame = be16(compressed.len()) + compressed;
            &&& frame.len() >= 2
            &&& frame[0] * 256 + frame[1] == frame.len() - 2
            &&& frame.skip(2) == compressed
            &&& zlib_decompressed(frame.skip(2)) == Some(payload)
        }),
{
    let frame = be16(compressed.len()) + compressed;
    assert(frame.skip(2) =~= compressed);
    let n = compressed.len();
    assert(n % 0x10000 == n);
    assert((n / 256) as u8 * 256 + (n % 256) as u8 == n);
}

} // verus!
