use vstd::prelude::*;
use vstd::wrapping::u32_specs;

use crate::io::{GUINT8_MAX, GraalIoError};
use crate::net::packet::PacketId;
use crate::net::protocol::{ProtocolError, be16, frame_bytes, packet_payload, spec_packet_payload};
use crate::utils::{
    bzip2_decompressed, compress_zlib, decompress_bzip2, decompress_zlib, zlib_compress_fails,
    zlib_compressed,
    zlib_decompressed,
};

verus! {

/// The encryption start value for the v5 protocol.
pub const V5_ENCRYPTION_START: u32 = 0x4A80B38;

/// The multiplier of the v5 key stream generator.
pub const V5_MULTIPLIER: u32 = 0x8088405;

/// The compression type of a v5 frame; each variant stands for one byte on the wire.
#[derive(Debug, PartialEq, Eq, Clone, Copy, Structural)]
pub enum GCompressionTypeV5 {
    /// No compression (byte 2).
    CompressionNone,
    /// Zlib compression (byte 4).
    CompressionZlib,
    /// Bzip2 compression (byte 6).
    CompressionBzip2,
}

impl GCompressionTypeV5 {
    /// The byte that stands for the compression type on the wire.
    pub open spec fn spec_value(self) -> u8 {
        match self {
            GCompressionTypeV5::CompressionNone => 2u8,
            GCompressionTypeV5::CompressionZlib => 4u8,
            GCompressionTypeV5::CompressionBzip2 => 6u8,
        }
    }

    /// The compression type that a byte stands for, if any.
    pub open spec fn spec_from_value(b: u8) -> Option<GCompressionTypeV5> {
        if b == 2 {
            Some(GCompressionTypeV5::CompressionNone)
        } else if b == 4 {
            Some(GCompressionTypeV5::CompressionZlib)
        } else if b == 6 {
            Some(GCompressionTypeV5::CompressionBzip2)
        } else {
            None
        }
    }

    /// The byte that stands for the compression type on the wire.
    pub fn value(&self) -> (r: u8)
        ensures
            r == self.spec_value(),
    {
        match self {
            GCompressionTypeV5::CompressionNone => 2,
            GCompressionTypeV5::CompressionZlib => 4,
            GCompressionTypeV5::CompressionBzip2 => 6,
        }
    }

    /// The compression type that a byte stands for, or `InvalidCompression`.
    pub fn try_from_u8(byte: u8) -> (r: Result<GCompressionTypeV5, ProtocolError>)
        ensures
            match Self::spec_from_value(byte) {
                Some(c) => r == Ok::<GCompressionTypeV5, ProtocolError>(c),
                None => r == Err::<GCompressionTypeV5, ProtocolError>(
                    ProtocolError::InvalidCompression(byte),
                ),
            },
    {
        match byte {
            2 => Ok(GCompressionTypeV5::CompressionNone),
            4 => Ok(GCompressionTypeV5::CompressionZlib),
            6 => Ok(GCompressionTypeV5::CompressionBzip2),
            _ => Err(ProtocolError::InvalidCompression(byte)),
        }
    }
}

impl From<GCompressionTypeV5> for u8 {
    fn from(c: GCompressionTypeV5) -> (r: u8) {
        c.value()
    }
}

impl vstd::std_specs::convert::FromSpecImpl<GCompressionTypeV5> for u8 {
    open spec fn obeys_from_spec() -> bool {
        true
    }

    open spec fn from_spec(c: GCompressionTypeV5) -> u8 {
        c.spec_value()
    }
}

/// One step of the v5 key stream generator: `state * 0x8088405 + key`, wrapping.
pub open spec fn lcg_step(state: u32, key: u8) -> u32 {
    u32_specs::wrapping_add(u32_specs::wrapping_mul(state, V5_MULTIPLIER), key as u32)
}

/// The generator state after `n` steps from `state`.
pub open spec fn lcg_steps(state: u32, key: u8, n: nat) -> u32
    decreases n,
{
    if n == 0 {
        state
    } else {
        lcg_step(lcg_steps(state, key, (n - 1) as nat), key)
    }
}

/// The byte that masks position `i`: byte `i % 4` (lowest first) of the state
/// reached after one step per started block of four bytes.
pub open spec fn keystream_byte(state: u32, key: u8, i: int) -> u8 {
    (lcg_steps(state, key, (i / 4 + 1) as nat) >> (((i % 4) * 8) as u32)) as u8
}

/// How many blocks of four bytes a buffer of `len` bytes starts, at most `limit`.
pub open spec fn blocks_processed(len: nat, limit: nat) -> nat {
    if (len + 3) / 4 <= limit {
        ((len + 3) / 4) as nat
    } else {
        limit
    }
}

/// The v5 transform of `buf`: the first `4 * limit` bytes are masked with the
/// key stream, the rest are left as they are.
pub open spec fn v5_transform(buf: Seq<u8>, state: u32, key: u8, limit: nat) -> Seq<u8> {
    Seq::new(
        buf.len(),
        |i: int|
            if i < 4 * limit {
                buf[i] ^ keystream_byte(state, key, i)
            } else {
                buf[i]
            },
    )
}

/// How many blocks of four bytes a frame of this compression type transforms.
pub open spec fn iterator_limit(compression: GCompressionTypeV5) -> nat {
    match compression {
        GCompressionTypeV5::CompressionNone => 12,
        _ => 4,
    }
}

proof fn lemma_xor_twice(a: u8, k: u8)
    by (bit_vector)
    ensures
        (a ^ k) ^ k == a,
{
}

/// Applying the v5 transform twice from the same state gives the buffer back.
pub proof fn lemma_v5_transform_involution(buf: Seq<u8>, state: u32, key: u8, limit: nat)
    ensures
        v5_transform(v5_transform(buf, state, key, limit), state, key, limit) == buf,
{
    let once = v5_transform(buf, state, key, limit);
    let twice = v5_transform(once, state, key, limit);
    assert forall|i: int| 0 <= i < buf.len() implies twice[i] == buf[i] by {
        if i < 4 * limit {
            lemma_xor_twice(buf[i], keystream_byte(state, key, i));
        }
    }
    assert(twice =~= buf);
}

/// How many key stream steps processing `len` bytes takes: one for each block
/// of four bytes that the buffer starts, but no more than `limit`. So it is at
/// most `limit`, it covers the buffer unless the limit stops it, it starts no
/// block beyond the buffer, and a buffer that is not empty, with a limit, moves
/// the key stream on at least once.
pub proof fn lemma_blocks_processed(len: nat, limit: nat)
    ensures
        blocks_processed(len, limit) <= limit,
        4 * blocks_processed(len, limit) < len + 4,
        blocks_processed(len, limit) == limit || 4 * blocks_processed(len, limit) >= len,
        len > 0 && limit > 0 ==> blocks_processed(len, limit) >= 1,
{
}

/// Each key stream step is one step of the generator: `n + 1` steps from a
/// state are one step after `n` steps, and no step is no move.
pub proof fn lemma_lcg_steps(state: u32, key: u8, n: nat)
    ensures
        lcg_steps(state, key, 0) == state,
        lcg_steps(state, key, n + 1) == lcg_step(lcg_steps(state, key, n), key),
        lcg_step(state, key) == ((state as int * V5_MULTIPLIER as int + key as int) % 0x1_0000_0000) as u32,
{
    assert(lcg_step(state, key) == ((state as int * V5_MULTIPLIER as int + key as int) % 0x1_0000_0000) as u32) by (bit_vector);
}

/// Packets sent one after the other share one key stream: `a` steps and then
/// `b` more are `a + b` steps, so the second packet starts where the first
/// left the state.
pub proof fn lemma_lcg_steps_add(state: u32, key: u8, a: nat, b: nat)
    ensures
        lcg_steps(lcg_steps(state, key, a), key, b) == lcg_steps(state, key, a + b),
    decreases b,
{
    if b > 0 {
        lemma_lcg_steps_add(state, key, a, (b - 1) as nat);
        assert((a + b - 1) as nat == a + (b - 1) as nat);
    }
}

/// Received v5 data is decompressed by the decompressor of its compression
/// type: none leaves it, zlib and bzip2 decompress it as zlib and bzip2 do;
/// so a frame body that bzip2 decompresses to `x` is received as `x`.
pub proof fn lemma_v5_decompression(d: Seq<u8>)
    ensures
        spec_decompressed(GCompressionTypeV5::CompressionNone, d) == Some(d),
        spec_decompressed(GCompressionTypeV5::CompressionZlib, d) == zlib_decompressed(d),
        spec_decompressed(GCompressionTypeV5::CompressionBzip2, d) == bzip2_decompressed(d),
        GCompressionTypeV5::spec_from_value(2) == Some(GCompressionTypeV5::CompressionNone),
        GCompressionTypeV5::spec_from_value(4) == Some(GCompressionTypeV5::CompressionZlib),
        GCompressionTypeV5::spec_from_value(6) == Some(GCompressionTypeV5::CompressionBzip2),
{
}

/// A keyless v5 frame whose compression byte is 6 (bzip2) and whose body
/// bzip2 decompresses to `x` is decoded as `x`, and one whose byte is 4 (zlib)
/// and whose body zlib decompresses to `x` is decoded as `x`.
pub proof fn lemma_v5_keyless_frame_decoded(s: GProtocolV5State, body: Seq<u8>, x: Seq<u8>)
    requires
        s.key() is None,
    ensures
        bzip2_decompressed(body) == Some(x) ==> spec_decompressed(
            GCompressionTypeV5::spec_from_value(6)->0,
            s.spec_decrypted(body, GCompressionTypeV5::spec_from_value(6)->0),
        ) == Some(x),
        zlib_decompressed(body) == Some(x) ==> spec_decompressed(
            GCompressionTypeV5::spec_from_value(4)->0,
            s.spec_decrypted(body, GCompressionTypeV5::spec_from_value(4)->0),
        ) == Some(x),
{
}

/// A sender and a receiver with the same key, the sender's outgoing key
/// stream state equal to the receiver's incoming one, stay in step: what
/// `process` (or `encrypt`) makes of a buffer in the outgoing direction,
/// `process` (or `decrypt`) in the incoming direction turns back into it, and
/// both key stream states then move to the same value.
pub proof fn lemma_v5_sender_receiver_in_step(
    buf: Seq<u8>,
    state: u32,
    key: u8,
    compression: GCompressionTypeV5,
)
    ensures
        ({
            let limit = iterator_limit(compression);
            let sent = v5_transform(buf, state, key, limit);
            &&& v5_transform(sent, state, key, limit) == buf
            &&& lcg_steps(state, key, blocks_processed(sent.len(), limit)) == lcg_steps(
                state,
                key,
                blocks_processed(buf.len(), limit),
            )
        }),
{
    lemma_v5_transform_involution(buf, state, key, iterator_limit(compression));
}

/// The cipher state of a v5 connection: the key stream states of both
/// directions and the key, once one is set.
pub struct GProtocolV5State {
    encryption_out_state: u32,
    encryption_in_state: u32,
    encryption_key: Option<u8>,
}

impl GProtocolV5State {
    /// The key stream state of the outgoing direction.
    pub closed spec fn out_state(self) -> u32 {
        self.encryption_out_state
    }

    /// The key stream state of the incoming direction.
    pub closed spec fn in_state(self) -> u32 {
        self.encryption_in_state
    }

    /// The encryption key, once one is set.
    pub closed spec fn key(self) -> Option<u8> {
        self.encryption_key
    }

    /// A fresh state: both directions at the start value, no key.
    pub fn new() -> (s: Self)
        ensures
            s.out_state() == V5_ENCRYPTION_START,
            s.in_state() == V5_ENCRYPTION_START,
            s.key() == None::<u8>,
    {
        Self {
            encryption_out_state: V5_ENCRYPTION_START,
            encryption_in_state: V5_ENCRYPTION_START,
            encryption_key: None,
        }
    }

    /// Whether an encryption key is set.
    pub fn has_encryption_key(&self) -> (r: bool)
        ensures
            r == self.key() is Some,
    {
        self.encryption_key.is_some()
    }

    /// Set the encryption key.
    pub fn set_encryption_key(&mut self, key: u8)
        ensures
            final(self).key() == Some(key),
            final(self).out_state() == old(self).out_state(),
            final(self).in_state() == old(self).in_state(),
    {
        self.encryption_key = Some(key);
    }

    /// How many blocks of four bytes a frame of this compression type transforms.
    fn get_iterator_limit(&self, compression_type: GCompressionTypeV5) -> (r: u32)
        ensures
            r == iterator_limit(compression_type),
    {
        match compression_type {
            GCompressionTypeV5::CompressionNone => 0xc,
            _ => 0x4,
        }
    }

    /// Process a buffer (for encryption or decryption): with a key set, the
    /// first blocks are masked with the key stream of one direction, whose
    /// state advances once per block started; without a key the buffer is
    /// returned as it is.
    pub fn process(&mut self, compression_type: GCompressionTypeV5, is_outgoing: bool, buf: &[u8]) -> (r:
        Vec<u8>)
        ensures
            final(self).key() == old(self).key(),
            match old(self).key() {
                None => {
                    &&& r@ == buf@
                    &&& final(self).out_state() == old(self).out_state()
                    &&& final(self).in_state() == old(self).in_state()
                },
                Some(k) => {
                    let limit = iterator_limit(compression_type);
                    let start = if is_outgoing {
                        old(self).out_state()
                    } else {
                        old(self).in_state()
                    };
                    let end = lcg_steps(start, k, blocks_processed(buf@.len(), limit));
                    &&& r@ == v5_transform(buf@, start, k, limit)
                    &&& final(self).out_state() == if is_outgoing {
                        end
                    } else {
                        old(self).out_state()
                    }
                    &&& final(self).in_state() == if is_outgoing {
                        old(self).in_state()
                    } else {
                        end
                    }
                },
            },
    {
        let key = match self.encryption_key {
            None => {
                return crate::io::bytes_to_vec(buf);
            },
            Some(k) => k,
        };
        let mut new_buf = crate::io::bytes_to_vec(buf);
        let limit0 = self.get_iterator_limit(compression_type);
        let mut limit = limit0;
        let start = if is_outgoing {
            self.encryption_out_state
        } else {
            self.encryption_in_state
        };
        let mut state = start;
        let n = new_buf.len();
        let mut i: usize = 0;
        while i < n
            invariant_except_break
                n == buf@.len(),
                new_buf@.len() == n,
                i <= n,
                i <= 4 * limit0,
                limit0 <= 12,
                limit == limit0 - (i + 3) / 4,
                state == lcg_steps(start, key, ((i + 3) / 4) as nat),
                forall|j: int| 0 <= j < i ==> #[trigger] new_buf@[j] == buf@[j] ^ keystream_byte(start, key, j),
                forall|j: int| i <= j < n ==> #[trigger] new_buf@[j] == buf@[j],
            ensures
                n == buf@.len(),
                new_buf@ == v5_transform(buf@, start, key, limit0 as nat),
                state == lcg_steps(start, key, blocks_processed(n as nat, limit0 as nat)),
            decreases n - i,
        {
            if i % 4 == 0 {
                if limit == 0 {
                    proof {
                        assert(i == 4 * limit0);
                        assert(new_buf@ =~= v5_transform(buf@, start, key, limit0 as nat));
                    }
                    break;
                }
                limit = limit - 1;
                state = state.wrapping_mul(V5_MULTIPLIER).wrapping_add(key as u32);
                proof {
                    assert((i + 3) / 4 == i / 4);
                    assert(((i / 4 + 1) as nat) - 1 == ((i + 3) / 4) as nat);
                }
            } else {
                proof {
                    assert((i + 3) / 4 == i / 4 + 1);
                }
            }
            proof {
                assert(state == lcg_steps(start, key, (i / 4 + 1) as nat));
            }
            let shift = ((i % 4) * 8) as u32;
            let mask = (state >> shift) as u8;
            let b = new_buf[i];
            new_buf.set(i, b ^ mask);
            i = i + 1;
            proof {
                assert(((i + 3) / 4) as nat == ((i - 1) / 4 + 1) as nat);
            }
        }
        proof {
            if i == n {
                assert(new_buf@ =~= v5_transform(buf@, start, key, limit0 as nat));
            }
        }
        if is_outgoing {
            self.encryption_out_state = state;
        } else {
            self.encryption_in_state = state;
        }
        new_buf
    }

    /// Encrypt a buffer with the outgoing key stream.
    pub fn encrypt(&mut self, buf: &[u8], compression: GCompressionTypeV5) -> (r: Vec<u8>)
        ensures
            final(self).key() == old(self).key(),
            final(self).in_state() == old(self).in_state(),
            match old(self).key() {
                None => r@ == buf@ && final(self).out_state() == old(self).out_state(),
                Some(k) => {
                    &&& r@ == v5_transform(buf@, old(self).out_state(), k, iterator_limit(compression))
                    &&& final(self).out_state() == lcg_steps(
                        old(self).out_state(),
                        k,
                        blocks_processed(buf@.len(), iterator_limit(compression)),
                    )
                },
            },
    {
        self.process(compression, true, buf)
    }

    /// Decrypt a buffer with the incoming key stream.
    pub fn decrypt(&mut self, buf: &[u8], compression: GCompressionTypeV5) -> (r: Vec<u8>)
        ensures
            final(self).key() == old(self).key(),
            final(self).out_state() == old(self).out_state(),
            match old(self).key() {
                None => r@ == buf@ && final(self).in_state() == old(self).in_state(),
                Some(k) => {
                    &&& r@ == v5_transform(buf@, old(self).in_state(), k, iterator_limit(compression))
                    &&& final(self).in_state() == lcg_steps(
                        old(self).in_state(),
                        k,
                        blocks_processed(buf@.len(), iterator_limit(compression)),
                    )
                },
            },
    {
        self.process(compression, false, buf)
    }
}


/// What decompressing data of a v5 frame with this compression type gives, or
/// `None` when the data is not a valid stream of that kind.
pub open spec fn spec_decompressed(compression: GCompressionTypeV5, data: Seq<u8>) -> Option<Seq<u8>> {
    match compression {
        GCompressionTypeV5::CompressionNone => Some(data),
        GCompressionTypeV5::CompressionZlib => zlib_decompressed(data),
        GCompressionTypeV5::CompressionBzip2 => bzip2_decompressed(data),
    }
}

impl GProtocolV5State {
    /// What encrypting `buf` in the outgoing direction gives.
    pub open spec fn spec_encrypted(self, buf: Seq<u8>, compression: GCompressionTypeV5) -> Seq<u8> {
        match self.key() {
            None => buf,
            Some(k) => v5_transform(buf, self.out_state(), k, iterator_limit(compression)),
        }
    }

    /// What decrypting `buf` in the incoming direction gives.
    pub open spec fn spec_decrypted(self, buf: Seq<u8>, compression: GCompressionTypeV5) -> Seq<u8> {
        match self.key() {
            None => buf,
            Some(k) => v5_transform(buf, self.in_state(), k, iterator_limit(compression)),
        }
    }

    /// The outgoing state after encrypting `len` bytes.
    pub open spec fn spec_out_after(self, len: nat, compression: GCompressionTypeV5) -> u32 {
        match self.key() {
            None => self.out_state(),
            Some(k) => lcg_steps(self.out_state(), k, blocks_processed(len, iterator_limit(compression))),
        }
    }

    /// The incoming state after decrypting `len` bytes.
    pub open spec fn spec_in_after(self, len: nat, compression: GCompressionTypeV5) -> u32 {
        match self.key() {
            None => self.in_state(),
            Some(k) => lcg_steps(self.in_state(), k, blocks_processed(len, iterator_limit(compression))),
        }
    }

    /// The bytes of the frame that carries the zlib data `compressed`: its
    /// length, then (with a key) the compression byte, then the encrypted
    /// data. With a key the length counts the compression byte.
    pub open spec fn spec_frame(self, compressed: Seq<u8>) -> Seq<u8> {
        let enc = self.spec_encrypted(compressed, GCompressionTypeV5::CompressionZlib);
        if self.key() is Some {
            be16(enc.len() + 1) + seq![4u8] + enc
        } else {
            be16(enc.len()) + enc
        }
    }

    /// Decrypt and decompress the data of a received frame (its compression
    /// byte, then the encrypted data) into the payload that carries its packets.
    pub fn decode_frame(&mut self, packet_data: &[u8]) -> (r: Result<Vec<u8>, ProtocolError>)
        requires
            packet_data@.len() >= 1,
        ensures
            final(self).key() == old(self).key(),
            final(self).out_state() == old(self).out_state(),
            match GCompressionTypeV5::spec_from_value(packet_data@[0]) {
                None => {
                    &&& r == Err::<Vec<u8>, ProtocolError>(
                        ProtocolError::InvalidCompression(packet_data@[0]),
                    )
                    &&& final(self).in_state() == old(self).in_state()
                },
                Some(c) => {
                    let body = packet_data@.skip(1);
                    &&& final(self).in_state() == old(self).spec_in_after(body.len(), c)
                    &&& match spec_decompressed(c, old(self).spec_decrypted(body, c)) {
                        Some(p) => r matches Ok(v) && v@ == p,
                        None => r matches Err(ProtocolError::Io(_)),
                    }
                },
            },
    {
        let compression_type = GCompressionTypeV5::try_from_u8(packet_data[0])?;
        let n = packet_data.len();
        let body = &packet_data[1..n];
        proof {
            assert(body@ =~= packet_data@.skip(1));
        }
        let decrypted_packet = self.decrypt(body, compression_type);
        match compression_type {
            GCompressionTypeV5::CompressionNone => Ok(decrypted_packet),
            GCompressionTypeV5::CompressionZlib => match decompress_zlib(decrypted_packet.as_slice()) {
                Ok(v) => Ok(v),
                Err(e) => Err(ProtocolError::Io(e)),
            },
            GCompressionTypeV5::CompressionBzip2 => match decompress_bzip2(decrypted_packet.as_slice()) {
                Ok(v) => Ok(v),
                Err(e) => Err(ProtocolError::Io(e)),
            },
        }
    }

    /// Compress a payload with zlib and encrypt it in the outgoing direction.
    fn prepare_send(&mut self, data: &[u8]) -> (r: Result<Vec<u8>, ProtocolError>)
        ensures
            final(self).key() == old(self).key(),
            final(self).in_state() == old(self).in_state(),
            match r {
                Ok(v) => {
                    &&& zlib_decompressed(zlib_compressed(data@)) == Some(data@)
                    &&& v@ == old(self).spec_encrypted(
                        zlib_compressed(data@),
                        GCompressionTypeV5::CompressionZlib,
                    )
                    &&& final(self).out_state() == old(self).spec_out_after(
                        zlib_compressed(data@).len(),
                        GCompressionTypeV5::CompressionZlib,
                    )
                },
                Err(e) => e is Io && final(self).out_state() == old(self).out_state(),
            },
            r is Ok <==> !zlib_compress_fails(data@),
    {
        let compressed_payload = match compress_zlib(data) {
            Ok(v) => v,
            Err(e) => {
                return Err(ProtocolError::Io(e));
            },
        };
        Ok(self.encrypt(compressed_payload.as_slice(), GCompressionTypeV5::CompressionZlib))
    }

    /// Build the bytes of the frame that sends one packet: its payload (see
    /// `packet_payload`) compressed with zlib and encrypted, behind the length
    /// and, with a key, the compression byte.
    pub fn encode_frame(&mut self, id: PacketId, data: &[u8]) -> (r: Result<Vec<u8>, ProtocolError>)
        ensures
            final(self).key() == old(self).key(),
            final(self).in_state() == old(self).in_state(),
            id.spec_value() > GUINT8_MAX ==> r == Err::<Vec<u8>, ProtocolError>(
                ProtocolError::GraalIo(
                    GraalIoError::ValueExceedsMaximum(id.spec_value() as u64, GUINT8_MAX),
                ),
            ),
            match r {
                Ok(v) => {
                    let payload = spec_packet_payload(id, data@);
                    let compressed = zlib_compressed(payload);
                    &&& id.spec_value() <= GUINT8_MAX
                    &&& zlib_decompressed(compressed) == Some(payload)
                    &&& v@ == old(self).spec_frame(compressed)
                    &&& final(self).out_state() == old(self).spec_out_after(
                        compressed.len(),
                        GCompressionTypeV5::CompressionZlib,
                    )
                },
                Err(e) => {
                    &&& final(self).out_state() == old(self).out_state()
                    &&& id.spec_value() <= GUINT8_MAX ==> e is Io
                },
            },
            id.spec_value() <= GUINT8_MAX ==> (r is Ok <==> !zlib_compress_fails(
                spec_packet_payload(id, data@),
            )),
    {
        let payload = packet_payload(id, data)?;
        let prepared_buffer = self.prepare_send(payload.as_slice())?;
        let keyed = self.encryption_key.is_some();
        Ok(frame_bytes(prepared_buffer.as_slice(), keyed))
    }
}


/// A frame that a v5 sender with a key builds from zlib data is read back by a
/// receiver with the same key whose incoming state is the sender's outgoing
/// state: the length counts exactly the bytes that follow it, the compression
/// byte is zlib, the data decrypts and decompresses to the payload, and both
/// key streams end in the same state.
pub proof fn lemma_v5_frame_roundtrip(
    sender: GProtocolV5State,
    receiver: GProtocolV5State,
    compressed: Seq<u8>,
    payload: Seq<u8>,
)
    requires
        sender.key() is Some,
        receiver.key() == sender.key(),
        receiver.in_state() == sender.out_state(),
        compressed.len() + 1 < 0x10000,
        zlib_decompressed(compressed) == Some(payload),
    ensures
        ({
            let frame = sender.spec_frame(compressed);
            let body = frame.skip(3);
            &&& frame.len() >= 3
            &&& frame[0] * 256 + frame[1] == frame.len() - 2
            &&& GCompressionTypeV5::spec_from_value(frame[2]) == Some(GCompressionTypeV5::CompressionZlib)
            &&& spec_decompressed(
                GCompressionTypeV5::CompressionZlib,
                receiver.spec_decrypted(body, GCompressionTypeV5::CompressionZlib),
            ) == Some(payload)
            &&& receiver.spec_in_after(body.len(), GCompressionTypeV5::CompressionZlib)
                == sender.spec_out_after(compressed.len(), GCompressionTypeV5::CompressionZlib)
        }),
{
    let k = sender.key()->0;
    let enc = sender.spec_encrypted(compressed, GCompressionTypeV5::CompressionZlib);
    let frame = sender.spec_frame(compressed);
    assert(frame.skip(3) =~= enc);
    lemma_v5_transform_involution(compressed, sender.out_state(), k, 4);
    let n = enc.len() + 1;
    assert(n % 0x10000 == n);
    assert((n / 256) as u8 * 256 + (n % 256) as u8 == n);
}

} // verus!
