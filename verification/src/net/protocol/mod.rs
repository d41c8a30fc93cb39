use vstd::prelude::*;

use std::collections::VecDeque;

use crate::io::io_sync::{first_index_of, lemma_first_index_of, lemma_first_index_of_unique};
use crate::io::io_vec::{InMemoryGraalReaderExt, IntoSyncGraalReader, IntoSyncGraalWriterRef};
use crate::io::{GUINT8_MAX, GraalIoError, graal_encoding, gu_encoding, lemma_encoding_shape};
use crate::net::packet::from_server::{FromServerPacketId, lemma_from_server_value_roundtrip};
use crate::net::packet::{GPacket, GPacketBuilder, GPacketImpl, PacketConversionError, PacketId};

/// The v4 protocol: its framing.
pub mod proto_v4;
/// The v5 protocol: its cipher and framing.
pub mod proto_v5;
/// The v6 protocol: bundles, key exchange and framing.
pub mod proto_v6;
/// The v6 protocol header format.
pub mod proto_v6_header;
/// The RC4 cipher of the v6 stream.
pub mod rc4_stream;

verus! {

/// Error type for protocol errors.
#[derive(Debug)]
pub enum ProtocolError {
    /// Invalid compression value.
    InvalidCompression(u8),
    /// An error of a Graal reader or writer.
    GraalIo(GraalIoError),
    /// An error of compression or decompression.
    Io(std::io::Error),
    /// Packet conversion error.
    PacketConversion(PacketConversionError),
    /// Unexpected empty packet queue.
    EmptyPacketQueue,
    /// Invalid header format.
    InvalidHeaderFormat(String),
    /// A header of the wrong length (the length given, the length of the format).
    InvalidHeaderLength(usize, usize),
    /// Invalid packet length.
    InvalidPacketLength(usize, usize),
    /// Rsa decryption error.
    RsaDecryption(rsa::errors::Error),
    /// General decryption error.
    Decryption(String),
    /// Other error.
    Other(String),
}


/// Whether the packets of a decompressed v4/v5 payload can be read: each packet
/// that is reached starts with a Graal digit, a byte of at least 32. Reading
/// stops at the first packet without a newline or with an unknown id.
pub open spec fn stream_readable(s: Seq<u8>) -> bool
    decreases s.len(),
{
    if s.len() == 0 {
        true
    } else if s[0] < 32 {
        false
    } else {
        let rest = s.skip(1);
        let k = first_index_of(rest, 10);
        if k < 0 {
            true
        } else if FromServerPacketId::spec_from_value((s[0] - 32) as u8) is None {
            true
        } else {
            proof {
                lemma_first_index_of(rest, 10);
            }
            stream_readable(rest.skip(k + 1))
        }
    }
}

/// The packets, as ids and payloads, that reading a decompressed v4/v5 payload
/// gives before it ends or stops: each is a Graal-encoded id byte followed by
/// its payload up to a newline.
pub open spec fn stream_packets(s: Seq<u8>) -> Seq<(FromServerPacketId, Seq<u8>)>
    decreases s.len(),
{
    if s.len() == 0 || s[0] < 32 {
        Seq::empty()
    } else {
        let rest = s.skip(1);
        let k = first_index_of(rest, 10);
        if k < 0 {
            Seq::empty()
        } else {
            match FromServerPacketId::spec_from_value((s[0] - 32) as u8) {
                None => Seq::empty(),
                Some(id) => {
                    proof {
                        lemma_first_index_of(rest, 10);
                    }
                    seq![(id, rest.take(k))] + stream_packets(rest.skip(k + 1))
                },
            }
        }
    }
}

/// The error that stops reading a decompressed v4/v5 payload, if any: a
/// packet without a newline, or with an unknown id.
pub open spec fn stream_error(s: Seq<u8>) -> Option<ProtocolError>
    decreases s.len(),
{
    if s.len() == 0 || s[0] < 32 {
        None
    } else {
        let rest = s.skip(1);
        let k = first_index_of(rest, 10);
        if k < 0 {
            Some(ProtocolError::GraalIo(GraalIoError::ByteNotFound(10)))
        } else {
            match FromServerPacketId::spec_from_value((s[0] - 32) as u8) {
                None => Some(
                    ProtocolError::PacketConversion(
                        PacketConversionError::InvalidId((s[0] - 32) as u8),
                    ),
                ),
                Some(id) => {
                    proof {
                        lemma_first_index_of(rest, 10);
                    }
                    stream_error(rest.skip(k + 1))
                },
            }
        }
    }
}

/// `after` is `before` with one packet appended for each id and payload of `ps`.
pub open spec fn appended_packets(
    before: Seq<GPacketImpl>,
    after: Seq<GPacketImpl>,
    ps: Seq<(FromServerPacketId, Seq<u8>)>,
) -> bool {
    &&& after.len() == before.len() + ps.len()
    &&& forall|i: int| 0 <= i < before.len() ==> #[trigger] after[i] == before[i]
    &&& forall|i: int|
        0 <= i < ps.len() ==> {
            &&& (#[trigger] after[before.len() + i]).spec_id() == PacketId::FromServer(ps[i].0)
            &&& after[before.len() + i].spec_data() == ps[i].1
        }
}

/// Whether the packets of a decompressed v4/v5 payload can be read (see
/// `stream_readable`).
pub fn is_stream_readable(payload: &[u8]) -> (r: bool)
    ensures
        r == stream_readable(payload@),
{
    let n = payload.len();
    let mut pos: usize = 0;
    proof {
        assert(payload@.skip(0) =~= payload@);
    }
    while pos < n
        invariant
            n == payload@.len(),
            pos <= n,
            stream_readable(payload@) == stream_readable(payload@.skip(pos as int)),
        decreases n - pos,
    {
        let s = Ghost(payload@.skip(pos as int));
        let b = payload[pos];
        if b < 32 {
            return false;
        }
        let mut k = pos + 1;
        while k < n && payload[k] != 10
            invariant
                pos < n,
                n == payload@.len(),
                pos + 1 <= k <= n,
                forall|j: int| pos + 1 <= j < k ==> payload@[j] != 10,
            decreases n - k,
        {
            k = k + 1;
        }
        let ghost rest = s@.skip(1);
        proof {
            assert(rest =~= payload@.skip(pos + 1));
            assert forall|j: int| 0 <= j < k - pos - 1 implies rest[j] != 10 by {
                assert(rest[j] == payload@[pos + 1 + j]);
            }
            if k < n {
                assert(rest[k - pos - 1] == payload@[k as int]);
                lemma_first_index_of_unique(rest, 10, k - pos - 1);
            } else {
                lemma_first_index_of(rest, 10);
                if first_index_of(rest, 10) >= 0 {
                    assert(rest[first_index_of(rest, 10)] != 10);
                }
            }
        }
        if k == n {
            return true;
        }
        if FromServerPacketId::try_from_u8(b - 32).is_err() {
            return true;
        }
        proof {
            assert(rest.skip(k - pos) =~= payload@.skip(k + 1));
        }
        pos = k + 1;
    }
    true
}

/// Reads the packets of a decompressed v4/v5 payload into the queue: each is a
/// Graal-encoded id byte followed by its payload up to a newline. Reading stops
/// with an error at a packet without a newline or with an unknown id; the
/// packets before it stay queued.
pub fn read_packet_stream(payload: Vec<u8>, queue: &mut VecDeque<GPacketImpl>) -> (r: Result<
    (),
    ProtocolError,
>)
    requires
        stream_readable(payload@),
    ensures
        appended_packets(old(queue)@, final(queue)@, stream_packets(payload@)),
        match stream_error(payload@) {
            None => r is Ok,
            Some(e) => r == Err::<(), ProtocolError>(e),
        },
{
    let ghost s0 = payload@;
    let ghost q0 = queue@;
    let ghost mut done: Seq<(FromServerPacketId, Seq<u8>)> = Seq::empty();
    let mut pack_data = payload.into_sync_graal_reader();
    loop
        invariant
            s0 == payload@,
            q0 == old(queue)@,
            stream_readable(pack_data@),
            stream_packets(s0) == done + stream_packets(pack_data@),
            stream_error(s0) == stream_error(pack_data@),
            appended_packets(q0, queue@, done),
        ensures
            appended_packets(q0, queue@, stream_packets(s0)),
            stream_error(s0) is None,
        decreases pack_data@.len(),
    {
        let more = match pack_data.can_read() {
            Ok(b) => b,
            Err(e) => {
                return Err(ProtocolError::GraalIo(e));
            },
        };
        if !more {
            proof {
                assert(done + stream_packets(pack_data@) =~= done);
            }
            break;
        }
        let ghost s = pack_data@;
        proof {
            assert(s.take(1) =~= seq![s[0]]);
        }
        let packet_type = match pack_data.read_gu8() {
            Ok(v) => v,
            Err(e) => {
                return Err(ProtocolError::GraalIo(e));
            },
        };
        let ghost old_rest = pack_data@;
        proof {
            lemma_first_index_of(s.skip(1), 10);
        }
        let payload_bytes = match pack_data.read_until(0xA) {
            Ok(v) => v,
            Err(e) => {
                proof {
                    assert(s.len() > 0 && s[0] >= 32);
                    assert(s.skip(1) =~= old_rest);
                    assert(first_index_of(s.skip(1), 10) == -1);
                    assert(stream_packets(s) =~= Seq::<(FromServerPacketId, Seq<u8>)>::empty());
                    assert(done + stream_packets(s) =~= done);
                    assert(stream_packets(s0) == done);
                    assert(e == GraalIoError::ByteNotFound(10));
                    assert(stream_error(s) == Some(ProtocolError::GraalIo(GraalIoError::ByteNotFound(10))));
                }
                return Err(ProtocolError::GraalIo(e));
            },
        };
        let id = match FromServerPacketId::try_from_u64(packet_type) {
            Ok(id) => id,
            Err(e) => {
                proof {
                    assert(stream_packets(s) =~= Seq::<(FromServerPacketId, Seq<u8>)>::empty());
                    assert(done + stream_packets(s) =~= done);
                }
                return Err(ProtocolError::PacketConversion(e));
            },
        };
        let ghost item = (id, payload_bytes@);
        let packet = GPacketBuilder::new(PacketId::FromServer(id)).with_data(payload_bytes).build();
        let ghost qb = queue@;
        queue.push_back(packet);
        proof {
            assert(stream_packets(s) == seq![item] + stream_packets(pack_data@));
            assert(done + stream_packets(s) =~= done.push(item) + stream_packets(pack_data@));
            let before = done;
            done = done.push(item);
            assert forall|i: int| 0 <= i < done.len() implies {
                &&& (#[trigger] queue@[q0.len() + i]).spec_id() == PacketId::FromServer(done[i].0)
                &&& queue@[q0.len() + i].spec_data() == done[i].1
            } by {
                if i < before.len() {
                    assert(queue@[q0.len() + i] == qb[q0.len() + i]);
                }
            }
        }
    }
    Ok(())
}

/// The payload of a v4/v5 frame for one packet: its id as a Graal-encoded
/// byte, its data and a newline.
pub open spec fn spec_packet_payload(id: PacketId, data: Seq<u8>) -> Seq<u8> {
    gu_encoding(id.spec_value() as u64, 1) + data + seq![10u8]
}

/// Builds the payload of a v4/v5 frame for one packet: its id as a
/// Graal-encoded byte, its data and a newline. An id above the largest gu8
/// cannot be written.
pub fn packet_payload(id: PacketId, data: &[u8]) -> (r: Result<Vec<u8>, ProtocolError>)
    ensures
        id.spec_value() <= GUINT8_MAX ==> (r matches Ok(v) && v@ == spec_packet_payload(id, data@)),
        id.spec_value() > GUINT8_MAX ==> r == Err::<Vec<u8>, ProtocolError>(
            ProtocolError::GraalIo(
                GraalIoError::ValueExceedsMaximum(id.spec_value() as u64, GUINT8_MAX),
            ),
        ),
{
    let mut vec: Vec<u8> = Vec::new();
    let mut payload_stream = (&mut vec).into_sync_graal_writer();
    let v: u64 = id.into();
    proof {
        lemma_encoding_shape(v, 1);
    }
    if let Err(e) = payload_stream.write_gu8(v) {
        return Err(ProtocolError::GraalIo(e));
    }
    let _ = payload_stream.write_bytes(data);
    let newline: [u8; 1] = [0xA];
    let _ = payload_stream.write_bytes(&newline);
    let _ = payload_stream.flush();
    proof {
        assert(newline@ =~= seq![10u8]);
    }
    Ok(vec)
}


/// The payload built for a packet from the server with an id up to the largest gu8 and
/// data without a newline is read back as exactly that packet, and whatever
/// follows it is read as it would be on its own: packets written one after
/// another are read back in order.
pub proof fn lemma_packet_payload_read_back(id: FromServerPacketId, data: Seq<u8>, rest: Seq<u8>)
    requires
        id.spec_value() <= GUINT8_MAX,
        forall|i: int| 0 <= i < data.len() ==> data[i] != 10,
    ensures
        ({
            let s = spec_packet_payload(PacketId::FromServer(id), data) + rest;
            &&& stream_readable(s) == stream_readable(rest)
            &&& stream_packets(s) == seq![(id, data)] + stream_packets(rest)
            &&& stream_error(s) == stream_error(rest)
        }),
{
    let v = id.spec_value() as u64;
    let s = spec_packet_payload(PacketId::FromServer(id), data) + rest;
    assert(gu_encoding(v, 1) =~= seq![(v + 32) as u8]);
    let after = s.skip(1);
    assert(after =~= data + seq![10u8] + rest);
    assert(after[data.len() as int] == 10);
    assert forall|j: int| 0 <= j < data.len() implies after[j] != 10 by {
        assert(after[j] == data[j]);
    }
    lemma_first_index_of_unique(after, 10, data.len() as int);
    lemma_from_server_value_roundtrip(id, 0);
    assert((s[0] - 32) as u8 == id.spec_value());
    assert(after.take(data.len() as int) =~= data);
    assert(after.skip(data.len() as int + 1) =~= rest);
    assert(s.len() > 0 && s[0] >= 32);
    assert(stream_readable(s) == stream_readable(rest));
    assert(stream_error(s) == stream_error(rest));
    assert(stream_packets(s) =~= seq![(id, data)] + stream_packets(rest));
}

/// The two big-endian bytes of the low 16 bits of `n`.
pub open spec fn be16(n: nat) -> Seq<u8> {
    let v = (n % 0x10000) as int;
    seq![(v / 256) as u8, (v % 256) as u8]
}

proof fn lemma_u16_truncate(x: usize)
    by (bit_vector)
    ensures
        (x as u16) as int == (x as int) % 0x10000,
{
}

/// The bytes of a frame around already prepared data: the length, then with a
/// key the zlib compression byte (counted by the length), then the data.
pub(crate) fn frame_bytes(prepared: &[u8], keyed: bool) -> (v: Vec<u8>)
    ensures
        v@ == if keyed {
            be16(prepared@.len() + 1) + seq![4u8] + prepared@
        } else {
            be16(prepared@.len()) + prepared@
        },
{
    let base: u16 = prepared.len() as u16;
    proof {
        lemma_u16_truncate(prepared.len());
    }
    let length: u16 = if keyed {
        base.wrapping_add(1)
    } else {
        base
    };
    let mut send_vec: Vec<u8> = Vec::new();
    let mut send_stream = (&mut send_vec).into_sync_graal_writer();
    let _ = send_stream.write_u16(length);
    if keyed {
        let _ = send_stream.write_u8(4u8);
    }
    let _ = send_stream.write_bytes(prepared);
    let _ = send_stream.flush();
    proof {
        let n: nat = if keyed { (prepared@.len() + 1) as nat } else { prepared@.len() };
        assert(length as int == (n as int) % 0x10000);
        if keyed {
            assert(send_vec@ =~= be16(n) + seq![4u8] + prepared@);
        } else {
            assert(send_vec@ =~= be16(n) + prepared@);
        }
    }
    send_vec
}

} // verus!
