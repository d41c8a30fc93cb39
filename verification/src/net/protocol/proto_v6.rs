use vstd::prelude::*;
use vstd::string::StringSliceAdditionalSpecFns;

use rsa::pkcs8::DecodePrivateKey;
use std::collections::VecDeque;

use crate::config::EncryptionKeys;
use crate::io::GraalIoError;
use crate::io::io_vec::IntoSyncGraalReader;
use crate::net::packet::from_server::FromServerPacketId;
use crate::net::packet::{GPacketBuilder, GPacketImpl, PacketId};
use crate::net::protocol::ProtocolError;
use crate::net::protocol::proto_v6_header::{
    GCompressionTypeV6, GProtocolV6HeaderFormat, GProtocolV6PacketHeader, PacketDirection,
    fields_disjoint, fields_fit_usize, fields_in_header, lemma_parse_create_header,
    spec_create_header, spec_parse_header,
};
use crate::net::protocol::rc4_stream::{
    Rc4Cipher, rc4_applied, rc4_apply, rc4_cipher_key, rc4_cipher_offset, rc4_new,
};
use vstd::arithmetic::power2::pow2;
use vstd::arithmetic::div_mod::{lemma_add_mod_noop, lemma_small_mod};
use crate::utils::{
    bzip2_decompressed, compress_zlib, decompress_bzip2, decompress_zlib, zlib_compress_fails,
    zlib_compressed,
    zlib_decompressed,
};

verus! {

/// The length in bytes of the RC4 key of the v6 protocol (the key size of
/// `rc4::Rc4<U16>`).
pub const RC4_KEY_LENGTH: usize = 16;

/// How deeply bundles may be nested inside bundles.
pub const MAX_BUNDLE_DEPTH: usize = 16;

/// Outgoing packet data longer than this is compressed with zlib.
pub const COMPRESSION_THRESHOLD: usize = 55;

/// How processing received v6 data fails.
pub enum V6Failure {
    /// This error, exactly.
    Error(ProtocolError),
    /// A header field runs past the end of the header.
    ShortHeader,
    /// A packet does not decompress.
    Decompression,
    /// The private key does not decrypt a key packet.
    KeyDecryption,
    /// A length or type byte of a decrypted key packet is not a Graal digit.
    MalformedKey,
    /// A key packet asks for AES.
    AesUnsupported,
    /// The RC4 key of a key packet does not have 16 bytes.
    BadRc4Key,
    /// Bundles are nested more deeply than `MAX_BUNDLE_DEPTH`.
    TooDeep,
}

/// Whether `r` is the failure `f`.
pub open spec fn fails_with<T>(r: Result<T, ProtocolError>, f: V6Failure) -> bool {
    match f {
        V6Failure::Error(e) => r == Err::<T, ProtocolError>(e),
        V6Failure::ShortHeader => (r matches Err(ProtocolError::InvalidHeaderFormat(m)) && m@
            == "Buffer too short"@),
        V6Failure::Decompression => r matches Err(ProtocolError::Io(_)),
        V6Failure::KeyDecryption => r matches Err(ProtocolError::RsaDecryption(_)),
        V6Failure::MalformedKey => r matches Err(ProtocolError::Decryption(_)),
        V6Failure::AesUnsupported => (r matches Err(ProtocolError::Other(m)) && m@
            == "AES is not supported, consider using RC4."@),
        V6Failure::BadRc4Key => (r matches Err(ProtocolError::Other(m)) && m@
            == "Failed to create RC4 key"@),
        V6Failure::TooDeep => (r matches Err(ProtocolError::Other(m)) && m@
            == "Bundles nested too deeply"@),
    }
}

/// The RC4 key that a decrypted key packet carries, or how reading it fails.
/// The packet holds a gu8 encryption type (0 asks for AES), a gu8 key length
/// and the key, then a gu8 length and an initialisation vector, which is not used.
pub open spec fn enc_key_outcome(p: Seq<u8>) -> Result<Seq<u8>, V6Failure> {
    let eof = V6Failure::Error(ProtocolError::GraalIo(GraalIoError::UnexpectedEof));
    if p.len() < 1 {
        Err(eof)
    } else if p[0] < 32 {
        Err(V6Failure::MalformedKey)
    } else if p[0] == 32 {
        Err(V6Failure::AesUnsupported)
    } else if p.len() < 2 {
        Err(eof)
    } else if p[1] < 32 {
        Err(V6Failure::MalformedKey)
    } else {
        let kl = p[1] - 32;
        if p.len() < 2 + kl {
            Err(eof)
        } else if p.len() < 3 + kl {
            Err(eof)
        } else if p[2 + kl] < 32 {
            Err(V6Failure::MalformedKey)
        } else if p.len() < 3 + kl + (p[2 + kl] - 32) {
            Err(eof)
        } else if kl != RC4_KEY_LENGTH {
            Err(V6Failure::BadRc4Key)
        } else {
            Ok(p.subrange(2, 2 + kl))
        }
    }
}

/// Reads the RC4 key from a decrypted key packet (see `enc_key_outcome`) and
/// makes the cipher of it, at the start of its keystream.
pub fn parse_enc_key(payload: Vec<u8>) -> (r: Result<Rc4Cipher, ProtocolError>)
    ensures
        match enc_key_outcome(payload@) {
            Ok(k) => r matches Ok(c) && rc4_cipher_key(c) == k && rc4_cipher_offset(c) == 0,
            Err(f) => fails_with(r, f),
        },
{
    let ghost p = payload@;
    let n = payload.len();
    if n >= 1 && payload[0] < 32 {
        return Err(ProtocolError::Decryption("Malformed encryption type".to_owned()));
    }
    if n >= 2 && payload[0] != 32 {
        if payload[1] < 32 {
            return Err(ProtocolError::Decryption("Malformed key length".to_owned()));
        }
        let kl = (payload[1] - 32) as usize;
        if n >= 3 + kl && payload[2 + kl] < 32 {
            return Err(ProtocolError::Decryption("Malformed init length".to_owned()));
        }
    }
    let mut enc_packet_queue = payload.into_sync_graal_reader();
    proof {
        assert(enc_packet_queue@.take(1) =~= p.take(1));
    }
    let encryption_type = match enc_packet_queue.read_gu8() {
        Ok(v) => v,
        Err(e) => {
            return Err(ProtocolError::GraalIo(e));
        },
    };
    if encryption_type == 0 {
        return Err(ProtocolError::Other("AES is not supported, consider using RC4.".to_owned()));
    }
    proof {
        assert(enc_packet_queue@ =~= p.skip(1));
        assert(enc_packet_queue@.take(1) =~= p.skip(1).take(1));
    }
    let key_length = match enc_packet_queue.read_gu8() {
        Ok(v) => v,
        Err(e) => {
            return Err(ProtocolError::GraalIo(e));
        },
    };
    let key = match enc_packet_queue.read_exact(key_length as usize) {
        Ok(v) => v,
        Err(e) => {
            return Err(ProtocolError::GraalIo(e));
        },
    };
    let ghost kl = key_length as int;
    proof {
        assert(enc_packet_queue@ =~= p.skip(2 + kl));
        assert(enc_packet_queue@.take(1) =~= p.skip(2 + kl).take(1));
    }
    let init_length = match enc_packet_queue.read_gu8() {
        Ok(v) => v,
        Err(e) => {
            return Err(ProtocolError::GraalIo(e));
        },
    };
    let _init = match enc_packet_queue.read_exact(init_length as usize) {
        Ok(v) => v,
        Err(e) => {
            return Err(ProtocolError::GraalIo(e));
        },
    };
    proof {
        assert(key@ =~= p.subrange(2, 2 + kl));
    }
    match rc4_new(key.as_slice()) {
        Some(c) => Ok(c),
        None => Err(ProtocolError::Other("Failed to create RC4 key".to_owned())),
    }
}


/// What decompressing a v6 packet with this compression type gives, or `None`
/// when the data is not a valid stream of that kind.
pub open spec fn spec_decompressed_v6(compression: GCompressionTypeV6, data: Seq<u8>) -> Option<Seq<u8>> {
    match compression {
        GCompressionTypeV6::CompressionNone => Some(data),
        GCompressionTypeV6::CompressionZlib => zlib_decompressed(data),
        GCompressionTypeV6::CompressionBzip2 => bzip2_decompressed(data),
    }
}

/// The id of a bundle packet.
pub open spec fn bundle_id() -> PacketId {
    PacketId::FromServer(FromServerPacketId::Bundle)
}

/// The id of a key packet.
pub open spec fn enc_key_id() -> PacketId {
    PacketId::FromServer(FromServerPacketId::SetEncKey)
}

/// The checksum expected after a packet with this checksum: one more, and 0 after 255.
pub open spec fn next_checksum(checksum: u8) -> u8 {
    if checksum == 255 {
        0
    } else {
        (checksum + 1) as u8
    }
}

/// The checksum after `k` packets, starting from `c`: each packet moves it on by one.
pub open spec fn checksum_after(c: u8, k: nat) -> u8
    decreases k,
{
    if k == 0 {
        c
    } else {
        next_checksum(checksum_after(c, (k - 1) as nat))
    }
}

/// The checksum moves on by one for each packet, modulo 256: after `k` packets
/// (so after `k` calls of `prepare_packet`, each moving the outgoing checksum
/// to `next_checksum` of it) it is `(c + k) % 256`.
pub proof fn lemma_checksum_after(c: u8, k: nat)
    ensures
        checksum_after(c, k) as int == (c + k) % 256,
    decreases k,
{
    if k == 0 {
        lemma_small_mod(c as nat, 256);
    } else {
        lemma_checksum_after(c, (k - 1) as nat);
        let x = checksum_after(c, (k - 1) as nat);
        lemma_add_mod_noop(c + k - 1, 1, 256);
        lemma_small_mod(1, 256);
        if x != 255 {
            lemma_small_mod((x + 1) as nat, 256);
        }
    }
}

/// Where processing received v6 data ends: the incoming checksum, the RC4 key
/// that the processing set (if a key packet did), the packets queued (ids and
/// payloads), and how it failed if it did.
pub type BundleRun = (u8, Option<Seq<u8>>, Seq<(PacketId, Seq<u8>)>, Option<V6Failure>);

/// The RC4 stream after processing that set the key `k`, if it set one: a new
/// stream of that key, at the start of its keystream; otherwise `st`.
pub open spec fn stream_after(st: Option<(Seq<u8>, nat)>, k: Option<Seq<u8>>) -> Option<(Seq<u8>, nat)> {
    match k {
        Some(k) => Some((k, 0nat)),
        None => st,
    }
}

/// `tail`, after `queued`.
pub open spec fn after_run(queued: Seq<(PacketId, Seq<u8>)>, tail: BundleRun) -> BundleRun {
    (tail.0, tail.1, queued + tail.2, tail.3)
}

/// What a key packet's payload gives under the private key `sk` (its PKCS#8
/// DER bytes): the RC4 key it carries, or how reading it fails.
pub open spec fn key_packet_outcome(sk: Seq<u8>, p: Seq<u8>) -> Result<Seq<u8>, V6Failure> {
    match rsa_pkcs1v15_decrypted(sk, p) {
        Some(pl) => enc_key_outcome(pl),
        None => Err(V6Failure::KeyDecryption),
    }
}

/// Processing received v6 data: packets one after another, each a header of
/// the format then its data, while a whole header remains and the packet is
/// complete. Each packet is decompressed; a bundle is processed in turn,
/// nested at most `depth` deep, and is not queued; a key packet is decrypted
/// with the private key `sk`, carries the RC4 key and is not queued; every
/// other packet is queued. After each packet the checksum follows the
/// packet's own.
pub open spec fn bundle_run(
    fmt: GProtocolV6HeaderFormat,
    depth: nat,
    chk: u8,
    key: Option<Seq<u8>>,
    data: Seq<u8>,
    sk: Seq<u8>,
) -> BundleRun
    decreases depth, data.len(),
{
    let hl = fmt.header_length as int;
    let nothing = Seq::<(PacketId, Seq<u8>)>::empty();
    if hl == 0 || data.len() < hl {
        (chk, key, nothing, None)
    } else {
        match spec_parse_header(fmt, PacketDirection::Incoming, data.take(hl)) {
            None => (chk, key, nothing, Some(V6Failure::ShortHeader)),
            Some(Err(e)) => (chk, key, nothing, Some(V6Failure::Error(e))),
            Some(Ok(h)) => {
                if data.len() < h.length {
                    (chk, key, nothing, None)
                } else if h.length < hl {
                    (
                        chk,
                        key,
                        nothing,
                        Some(
                            V6Failure::Error(
                                ProtocolError::InvalidPacketLength(fmt.header_length, h.length),
                            ),
                        ),
                    )
                } else {
                    match spec_decompressed_v6(h.compression, data.subrange(hl, h.length as int)) {
                        None => (chk, key, nothing, Some(V6Failure::Decompression)),
                        Some(p) => {
                            let inner: BundleRun = if h.id == bundle_id() {
                                if depth == 0 {
                                    (chk, key, nothing, Some(V6Failure::TooDeep))
                                } else {
                                    bundle_run(fmt, (depth - 1) as nat, chk, key, p, sk)
                                }
                            } else {
                                (chk, key, nothing, None)
                            };
                            if inner.3 is Some {
                                inner
                            } else {
                                let dec: Result<Seq<u8>, V6Failure> = if h.id == enc_key_id() {
                                    key_packet_outcome(sk, p)
                                } else {
                                    Ok(Seq::empty())
                                };
                                match dec {
                                    Err(f) => (inner.0, inner.1, inner.2, Some(f)),
                                    Ok(k) => {
                                        let key2 = if h.id == enc_key_id() {
                                            Some(k)
                                        } else {
                                            inner.1
                                        };
                                        let queued = if h.id == bundle_id() || h.id == enc_key_id() {
                                            inner.2
                                        } else {
                                            inner.2.push((h.id, p))
                                        };
                                        after_run(
                                            queued,
                                            bundle_run(
                                                fmt,
                                                depth,
                                                next_checksum(h.checksum),
                                                key2,
                                                data.skip(h.length as int),
                                                sk,
                                            ),
                                        )
                                    },
                                }
                            }
                        },
                    }
                }
            },
        }
    }
}

/// `after` is `before` with one packet appended for each id and payload of `ps`.
pub open spec fn appended_v6(
    before: Seq<GPacketImpl>,
    after: Seq<GPacketImpl>,
    ps: Seq<(PacketId, Seq<u8>)>,
) -> bool {
    &&& after.len() == before.len() + ps.len()
    &&& forall|i: int| 0 <= i < before.len() ==> #[trigger] after[i] == before[i]
    &&& forall|i: int|
        0 <= i < ps.len() ==> {
            &&& (#[trigger] after[before.len() + i]).spec_id() == ps[i].0
            &&& after[before.len() + i].spec_data() == ps[i].1
        }
}

proof fn lemma_appended_trans(
    a: Seq<GPacketImpl>,
    b: Seq<GPacketImpl>,
    c: Seq<GPacketImpl>,
    x: Seq<(PacketId, Seq<u8>)>,
    y: Seq<(PacketId, Seq<u8>)>,
)
    requires
        appended_v6(a, b, x),
        appended_v6(b, c, y),
    ensures
        appended_v6(a, c, x + y),
{
    let xy = x + y;
    assert forall|i: int| 0 <= i < xy.len() implies {
        &&& (#[trigger] c[a.len() + i]).spec_id() == xy[i].0
        &&& c[a.len() + i].spec_data() == xy[i].1
    } by {
        if i < x.len() {
            assert(c[a.len() + i] == b[a.len() + i]);
        } else {
            assert(c[b.len() + (i - x.len())] == c[a.len() + i]);
        }
    }
}

proof fn lemma_appended_push(
    a: Seq<GPacketImpl>,
    b: Seq<GPacketImpl>,
    x: Seq<(PacketId, Seq<u8>)>,
    pkt: GPacketImpl,
)
    requires
        appended_v6(a, b, x),
    ensures
        appended_v6(a, b.push(pkt), x.push((pkt.spec_id(), pkt.spec_data()))),
{
    let c = b.push(pkt);
    let y = x.push((pkt.spec_id(), pkt.spec_data()));
    assert forall|i: int| 0 <= i < y.len() implies {
        &&& (#[trigger] c[a.len() + i]).spec_id() == y[i].0
        &&& c[a.len() + i].spec_data() == y[i].1
    } by {
        if i < x.len() {
            assert(c[a.len() + i] == b[a.len() + i]);
        }
    }
    assert forall|i: int| 0 <= i < a.len() implies #[trigger] c[i] == a[i] by {
        assert(c[i] == b[i]);
    }
}

/// One packet processed without failure: what it queued and the checksum
/// and key after it.
pub open spec fn packet_step(
    fmt: GProtocolV6HeaderFormat,
    depth: nat,
    chk: u8,
    key: Option<Seq<u8>>,
    sk: Seq<u8>,
    h: GProtocolV6PacketHeader,
    p: Seq<u8>,
    qstep: Seq<(PacketId, Seq<u8>)>,
    chk2: u8,
    key2: Option<Seq<u8>>,
) -> bool {
    &&& chk2 == next_checksum(h.checksum)
    &&& if h.id == bundle_id() {
        let o = bundle_run(fmt, (depth - 1) as nat, chk, key, p, sk);
        &&& depth > 0
        &&& o.3 is None
        &&& qstep == o.2
        &&& key2 == o.1
    } else if h.id == enc_key_id() {
        &&& key_packet_outcome(sk, p) is Ok
        &&& key2 == Some(key_packet_outcome(sk, p)->Ok_0)
        &&& qstep == Seq::<(PacketId, Seq<u8>)>::empty()
    } else {
        &&& key2 == key
        &&& qstep == seq![(h.id, p)]
    }
}

/// The packet at the front of `d` whose header is `h` and whose decompressed
/// data is `p`.
pub open spec fn front_packet(
    fmt: GProtocolV6HeaderFormat,
    d: Seq<u8>,
    h: GProtocolV6PacketHeader,
    p: Seq<u8>,
) -> bool {
    let hl = fmt.header_length as int;
    &&& hl > 0
    &&& d.len() >= hl
    &&& spec_parse_header(fmt, PacketDirection::Incoming, d.take(hl)) == Some(
        Ok::<GProtocolV6PacketHeader, ProtocolError>(h),
    )
    &&& hl <= h.length <= d.len()
    &&& spec_decompressed_v6(h.compression, d.subrange(hl, h.length as int)) == Some(p)
}

/// Advancing past one packet keeps the relation between the whole run and the
/// run of what remains.
proof fn lemma_advance(
    fmt: GProtocolV6HeaderFormat,
    depth: nat,
    chk0: u8,
    key0: Option<Seq<u8>>,
    d0: Seq<u8>,
    sk: Seq<u8>,
    acc: Seq<(PacketId, Seq<u8>)>,
    chk: u8,
    key: Option<Seq<u8>>,
    pos: int,
    h: GProtocolV6PacketHeader,
    p: Seq<u8>,
    qstep: Seq<(PacketId, Seq<u8>)>,
    chk2: u8,
    key2: Option<Seq<u8>>,
)
    requires
        0 <= pos <= d0.len(),
        bundle_run(fmt, depth, chk0, key0, d0, sk) == after_run(
            acc,
            bundle_run(fmt, depth, chk, key, d0.skip(pos), sk),
        ),
        front_packet(fmt, d0.skip(pos), h, p),
        packet_step(fmt, depth, chk, key, sk, h, p, qstep, chk2, key2),
    ensures
        bundle_run(fmt, depth, chk0, key0, d0, sk) == after_run(
            acc + qstep,
            bundle_run(fmt, depth, chk2, key2, d0.skip(pos + h.length), sk),
        ),
{
    let d_now = d0.skip(pos);
    assert(d_now.skip(h.length as int) =~= d0.skip(pos + h.length));
    let tail = bundle_run(fmt, depth, chk2, key2, d0.skip(pos + h.length), sk);
    assert(bundle_run(fmt, depth, chk, key, d_now, sk) == after_run(qstep, tail));
    assert(acc + (qstep + tail.2) =~= (acc + qstep) + tail.2);
}

/// What the format needs for reading: a header that is not empty, and fields
/// whose ends are `usize`s.
pub open spec fn format_readable(fmt: GProtocolV6HeaderFormat) -> bool {
    &&& fmt.header_length > 0
    &&& fmt.compression_index + fmt.compression_size <= usize::MAX
    &&& fmt.checksum_index + fmt.checksum_size <= usize::MAX
    &&& fmt.length_index + fmt.length_size <= usize::MAX
    &&& fmt.type_index + fmt.type_size <= usize::MAX
}

/// What PKCS#1 v1.5 decryption of `ciphertext` under the RSA private key whose
/// PKCS#8 DER encoding is `key_der` gives: the plaintext, or `None` when the
/// key does not decode or the decryption fails.
pub uninterp spec fn rsa_pkcs1v15_decrypted(key_der: Seq<u8>, ciphertext: Seq<u8>) -> Option<Seq<u8>>;

/// Decrypts a key packet: `rsa::RsaPrivateKey::from_pkcs8_der` on the key's
/// bytes, then `decrypt` with PKCS#1 v1.5 padding. Trusted: without a random
/// source both are functions of their arguments, so the outcome is one of the
/// key's bytes and the ciphertext, named `rsa_pkcs1v15_decrypted`.
#[verifier::external_body]
fn rsa_decrypt(key_der: &[u8], ciphertext: &[u8]) -> (r: Result<Vec<u8>, rsa::errors::Error>)
    ensures
        match r {
            Ok(v) => rsa_pkcs1v15_decrypted(key_der@, ciphertext@) == Some(v@),
            Err(_) => rsa_pkcs1v15_decrypted(key_der@, ciphertext@) is None,
        },
{
    let key = rsa::RsaPrivateKey::from_pkcs8_der(key_der).map_err(rsa::errors::Error::Pkcs8)?;
    key.decrypt(rsa::Pkcs1v15Encrypt, ciphertext)
}

/// The sans-I/O state of a v6 connection: the header format, the private key
/// for key packets, the checksums of both directions and the RC4 cipher that
/// the last key packet set, which decrypts the incoming stream.
pub struct GProtocolV6State {
    header_format: GProtocolV6HeaderFormat,
    encryption_keys: EncryptionKeys,
    from_gserver_checksum: u8,
    to_client_checksum: u8,
    rc4: Option<Rc4Cipher>,
}

impl GProtocolV6State {
    #[verifier::type_invariant]
    spec fn readable_format(self) -> bool {
        format_readable(self.header_format)
    }

    /// The header format.
    pub closed spec fn format(self) -> GProtocolV6HeaderFormat {
        self.header_format
    }

    /// The checksum expected on the next packet from the server.
    pub closed spec fn in_checksum(self) -> u8 {
        self.from_gserver_checksum
    }

    /// The checksum of the next packet sent.
    pub closed spec fn out_checksum(self) -> u8 {
        self.to_client_checksum
    }

    /// The RC4 stream of the incoming bytes, if a key packet set one: its key
    /// and how many keystream bytes it has used.
    pub closed spec fn stream(self) -> Option<(Seq<u8>, nat)> {
        match self.rc4 {
            Some(c) => Some((rc4_cipher_key(c), rc4_cipher_offset(c))),
            None => None,
        }
    }

    /// The private key's PKCS#8 DER bytes.
    pub closed spec fn private_key(self) -> Seq<u8> {
        self.encryption_keys.rsa_private_key@
    }

    /// A fresh state: both checksums at 1, no RC4 key.
    pub fn new(header_format: GProtocolV6HeaderFormat, encryption_keys: EncryptionKeys) -> (s: Self)
        requires
            format_readable(header_format),
        ensures
            s.format() == header_format,
            s.private_key() == encryption_keys.rsa_private_key@,
            s.in_checksum() == 1,
            s.out_checksum() == 1,
            s.stream() == None::<(Seq<u8>, nat)>,
    {
        Self {
            header_format,
            encryption_keys,
            from_gserver_checksum: 1,
            to_client_checksum: 1,
            rc4: None,
        }
    }

    /// The checksum expected on the next packet from the server.
    pub fn incoming_checksum(&self) -> (r: u8)
        ensures
            r == self.in_checksum(),
    {
        self.from_gserver_checksum
    }

    /// The checksum of the next packet sent.
    pub fn outgoing_checksum(&self) -> (r: u8)
        ensures
            r == self.out_checksum(),
    {
        self.to_client_checksum
    }

    /// The header format.
    pub fn header_format(&self) -> (r: GProtocolV6HeaderFormat)
        ensures
            r == self.format(),
    {
        self.header_format
    }

    /// The length of a header.
    pub fn header_length(&self) -> (r: usize)
        ensures
            r == self.format().header_length,
    {
        self.header_format.header_length
    }

    /// Decrypts bytes read from the stream: with an RC4 stream, they are XORed
    /// with its next keystream bytes, which it then has used; without one,
    /// they are as they came.
    pub fn decrypt_incoming(&mut self, data: &[u8]) -> (r: Vec<u8>)
        ensures
            match old(self).stream() {
                Some((k, off)) => {
                    &&& r@ == rc4_applied(k, off, data@)
                    &&& final(self).stream() == Some((k, off + data@.len()))
                },
                None => {
                    &&& r@ == data@
                    &&& final(self).stream() == None::<(Seq<u8>, nat)>
                },
            },
            final(self).format() == old(self).format(),
            final(self).in_checksum() == old(self).in_checksum(),
            final(self).out_checksum() == old(self).out_checksum(),
    {
        proof {
            use_type_invariant(&*self);
        }
        let mut out = crate::io::bytes_to_vec(data);
        let mut cur: Option<Rc4Cipher> = None;
        std::mem::swap(&mut cur, &mut self.rc4);
        match cur {
            Some(mut c) => {
                rc4_apply(&mut c, &mut out);
                self.rc4 = Some(c);
            },
            None => {},
        }
        out
    }
}

impl GProtocolV6State {
    /// Processes received data at a nesting depth (see `bundle_run`), from
    /// the key `kin` that this processing set so far.
    fn process_at(
        &mut self,
        data: &[u8],
        depth: usize,
        queue: &mut VecDeque<GPacketImpl>,
        Ghost(kin): Ghost<Option<Seq<u8>>>,
    ) -> (r: Result<(), ProtocolError>)
        requires
            kin matches Some(k) ==> old(self).stream() == Some((k, 0nat)),
        ensures
            final(self).format() == old(self).format(),
            final(self).out_checksum() == old(self).out_checksum(),
            final(self).private_key() == old(self).private_key(),
            ({
                let o = bundle_run(
                    old(self).format(),
                    depth as nat,
                    old(self).in_checksum(),
                    kin,
                    data@,
                    old(self).private_key(),
                );
                &&& final(self).in_checksum() == o.0
                &&& final(self).stream() == stream_after(old(self).stream(), o.1)
                &&& kin is Some ==> o.1 is Some
                &&& appended_v6(old(queue)@, final(queue)@, o.2)
                &&& match o.3 {
                    None => r is Ok,
                    Some(f) => fails_with(r, f),
                }
            }),
        decreases depth,
    {
        proof {
            use_type_invariant(&*self);
        }
        let ghost fmt = self.header_format;
        let ghost chk0 = self.in_checksum();
        let ghost key0 = kin;
        let ghost st0 = self.stream();
        let ghost sk = self.private_key();
        let ghost mut kcur: Option<Seq<u8>> = kin;
        let ghost d0 = data@;
        let ghost q0 = queue@;
        let ghost mut acc: Seq<(PacketId, Seq<u8>)> = Seq::empty();
        let hl = self.header_format.header_length;
        let n = data.len();
        let mut pos: usize = 0;
        proof {
            assert(d0.skip(0) =~= d0);
            let x = bundle_run(fmt, depth as nat, chk0, key0, d0, sk);
            assert(acc + x.2 =~= x.2);
        }
        loop
            invariant
                n == d0.len(),
                d0 == data@,
                pos <= n,
                hl == fmt.header_length,
                format_readable(fmt),
                fmt == old(self).format(),
                self.format() == fmt,
                self.out_checksum() == old(self).out_checksum(),
                self.private_key() == sk,
                sk == old(self).private_key(),
                chk0 == old(self).in_checksum(),
                key0 == kin,
                st0 == old(self).stream(),
                self.stream() == stream_after(st0, kcur),
                kin matches Some(k) ==> st0 == Some((k, 0nat)),
                kin is Some ==> kcur is Some,
                q0 == old(queue)@,
                bundle_run(fmt, depth as nat, chk0, key0, d0, sk) == after_run(
                    acc,
                    bundle_run(fmt, depth as nat, self.in_checksum(), kcur, d0.skip(pos as int), sk),
                ),
                appended_v6(q0, queue@, acc),
            ensures
                bundle_run(fmt, depth as nat, chk0, key0, d0, sk) == (
                    self.in_checksum(),
                    kcur,
                    acc,
                    None::<V6Failure>,
                ),
                self.stream() == stream_after(st0, kcur),
                kin is Some ==> kcur is Some,
                self.format() == fmt,
                self.out_checksum() == old(self).out_checksum(),
                self.private_key() == sk,
                appended_v6(q0, queue@, acc),
            decreases n - pos,
        {
            let ghost chk_b = self.in_checksum();
            let ghost key_b = kcur;
            let ghost d_now = d0.skip(pos as int);
            if n - pos < hl {
                proof {
                    assert(acc + Seq::<(PacketId, Seq<u8>)>::empty() =~= acc);
                }
                break;
            }
            let header_buffer = &data[pos..pos + hl];
            proof {
                assert(header_buffer@ =~= d_now.take(hl as int));
            }
            let header = match self.header_format.parse_header(PacketDirection::Incoming, header_buffer) {
                Ok(h) => h,
                Err(e) => {
                    proof {
                        assert(acc + Seq::<(PacketId, Seq<u8>)>::empty() =~= acc);
                    }
                    return Err(e);
                },
            };
            if n - pos < header.length {
                proof {
                    assert(acc + Seq::<(PacketId, Seq<u8>)>::empty() =~= acc);
                }
                break;
            }
            if header.length < hl {
                proof {
                    assert(acc + Seq::<(PacketId, Seq<u8>)>::empty() =~= acc);
                }
                return Err(ProtocolError::InvalidPacketLength(hl, header.length));
            }
            let raw = &data[pos + hl..pos + header.length];
            proof {
                assert(raw@ =~= d_now.subrange(hl as int, header.length as int));
            }
            let packet: Vec<u8> = match header.compression {
                GCompressionTypeV6::CompressionNone => crate::io::bytes_to_vec(raw),
                GCompressionTypeV6::CompressionZlib => match decompress_zlib(raw) {
                    Ok(v) => v,
                    Err(e) => {
                        proof {
                            assert(acc + Seq::<(PacketId, Seq<u8>)>::empty() =~= acc);
                        }
                        return Err(ProtocolError::Io(e));
                    },
                },
                GCompressionTypeV6::CompressionBzip2 => match decompress_bzip2(raw) {
                    Ok(v) => v,
                    Err(e) => {
                        proof {
                            assert(acc + Seq::<(PacketId, Seq<u8>)>::empty() =~= acc);
                        }
                        return Err(ProtocolError::Io(e));
                    },
                },
            };
            let ghost p = packet@;
            let ghost q_b = queue@;
            let ghost mut qstep: Seq<(PacketId, Seq<u8>)> = Seq::empty();
            let is_bundle = header.id == PacketId::FromServer(FromServerPacketId::Bundle);
            let is_key = header.id == PacketId::FromServer(FromServerPacketId::SetEncKey);
            if is_bundle {
                if depth == 0 {
                    proof {
                        assert(acc + Seq::<(PacketId, Seq<u8>)>::empty() =~= acc);
                    }
                    return Err(ProtocolError::Other("Bundles nested too deeply".to_owned()));
                }
                let res = self.process_at(packet.as_slice(), depth - 1, queue, Ghost(key_b));
                proof {
                    let o2 = bundle_run(fmt, (depth - 1) as nat, chk_b, key_b, p, sk);
                    qstep = o2.2;
                    kcur = o2.1;
                    lemma_appended_trans(q0, q_b, queue@, acc, o2.2);
                }
                if res.is_err() {
                    proof {
                        let o2 = bundle_run(fmt, (depth - 1) as nat, chk_b, key_b, p, sk);
                        assert(bundle_run(fmt, depth as nat, chk_b, key_b, d_now, sk) == o2);
                    }
                    return res;
                }
            }
            if is_key {
                match rsa_decrypt(self.encryption_keys.rsa_private_key.as_slice(), packet.as_slice()) {
                    Err(e) => {
                        proof {
                            assert(acc + Seq::<(PacketId, Seq<u8>)>::empty() =~= acc);
                        }
                        return Err(ProtocolError::RsaDecryption(e));
                    },
                    Ok(pl) => {
                        match parse_enc_key(pl) {
                            Err(e) => {
                                proof {
                                    assert(acc + Seq::<(PacketId, Seq<u8>)>::empty() =~= acc);
                                }
                                return Err(e);
                            },
                            Ok(c) => {
                                self.rc4 = Some(c);
                                proof {
                                    kcur = Some(rc4_cipher_key(c));
                                }
                            },
                        }
                    },
                }
            }
            self.from_gserver_checksum = if header.checksum == 255 {
                0
            } else {
                header.checksum + 1
            };
            if !is_bundle && !is_key {
                let ghost q_m = queue@;
                let packet_to_queue = GPacketBuilder::new(header.id).with_data(packet).build();
                queue.push_back(packet_to_queue);
                proof {
                    lemma_appended_push(q0, q_m, acc + qstep, packet_to_queue);
                    assert(qstep.len() == 0);
                    assert(acc + qstep =~= acc);
                    qstep = seq![(header.id, p)];
                    assert((acc + Seq::<(PacketId, Seq<u8>)>::empty()).push((header.id, p)) =~= acc + qstep);
                }
            }
            proof {
                lemma_advance(
                    fmt,
                    depth as nat,
                    chk0,
                    key0,
                    d0,
                    sk,
                    acc,
                    chk_b,
                    key_b,
                    pos as int,
                    header,
                    p,
                    qstep,
                    self.in_checksum(),
                    kcur,
                );
                acc = acc + qstep;
            }
            pos = pos + header.length;
        }
        Ok(())
    }
}

/// Processing `data` at most `MAX_BUNDLE_DEPTH` bundles deep, from checksum
/// `chk` and RC4 stream `st`, with the private key `sk`, ends in the checksum
/// `chk2`, the RC4 stream `st2` (a fresh stream of the last key that a key
/// packet set, if one did), the queue `q_after` grown from `q_before`, and the
/// result `r`.
pub open spec fn bundle_outcome_is(
    fmt: GProtocolV6HeaderFormat,
    chk: u8,
    st: Option<(Seq<u8>, nat)>,
    data: Seq<u8>,
    sk: Seq<u8>,
    chk2: u8,
    st2: Option<(Seq<u8>, nat)>,
    q_before: Seq<GPacketImpl>,
    q_after: Seq<GPacketImpl>,
    r: Result<(), ProtocolError>,
) -> bool {
    let o = bundle_run(fmt, MAX_BUNDLE_DEPTH as nat, chk, None, data, sk);
    &&& chk2 == o.0
    &&& st2 == stream_after(st, o.1)
    &&& appended_v6(q_before, q_after, o.2)
    &&& match o.3 {
        None => r is Ok,
        Some(f) => fails_with(r, f),
    }
}

impl GProtocolV6State {
    /// Process received data (see `bundle_run`): packets are queued, bundles
    /// are processed in turn and key packets, decrypted with the private key,
    /// set the RC4 stream, neither being queued, and the incoming checksum
    /// follows each packet. The packets queued before a failure stay queued.
    pub fn process_packet_bundle(&mut self, data_bytes: &[u8], queue: &mut VecDeque<GPacketImpl>) -> (r:
        Result<(), ProtocolError>)
        ensures
            final(self).format() == old(self).format(),
            final(self).out_checksum() == old(self).out_checksum(),
            final(self).private_key() == old(self).private_key(),
            bundle_outcome_is(
                old(self).format(),
                old(self).in_checksum(),
                old(self).stream(),
                data_bytes@,
                old(self).private_key(),
                final(self).in_checksum(),
                final(self).stream(),
                old(queue)@,
                final(queue)@,
                r,
            ),
    {
        self.process_at(data_bytes, MAX_BUNDLE_DEPTH, queue, Ghost(None))
    }
}

/// The compression and the data with which packet data is sent: data longer
/// than `COMPRESSION_THRESHOLD` bytes is compressed with zlib.
pub open spec fn spec_outgoing_body(data: Seq<u8>) -> (GCompressionTypeV6, Seq<u8>) {
    if data.len() > COMPRESSION_THRESHOLD {
        (GCompressionTypeV6::CompressionZlib, zlib_compressed(data))
    } else {
        (GCompressionTypeV6::CompressionNone, data)
    }
}

/// The bytes that send a packet with this id and body: a header with the
/// compression, the checksum, the total length and the id, then the body.
pub open spec fn spec_outgoing_frame(
    fmt: GProtocolV6HeaderFormat,
    checksum: u8,
    id: PacketId,
    compression: GCompressionTypeV6,
    body: Seq<u8>,
) -> Seq<u8> {
    spec_create_header(
        fmt,
        GProtocolV6PacketHeader {
            compression,
            checksum,
            length: (fmt.header_length + body.len()) as usize,
            id,
        },
    ) + body
}

impl GProtocolV6State {
    /// Build the bytes that send a packet: its data, compressed when longer
    /// than `COMPRESSION_THRESHOLD` bytes, behind a header that carries the
    /// outgoing checksum, which then moves on. Outgoing data is not encrypted.
    pub fn prepare_packet(&mut self, id: PacketId, data: &[u8]) -> (r: Result<Vec<u8>, ProtocolError>)
        requires
            fields_in_header(old(self).format()),
            fields_fit_usize(old(self).format()),
        ensures
            final(self).format() == old(self).format(),
            final(self).in_checksum() == old(self).in_checksum(),
            final(self).stream() == old(self).stream(),
            match r {
                Ok(v) => {
                    let (c, body) = spec_outgoing_body(data@);
                    &&& data@.len() > COMPRESSION_THRESHOLD ==> !zlib_compress_fails(data@)
                    &&& c == GCompressionTypeV6::CompressionZlib ==> zlib_decompressed(body) == Some(data@)
                    &&& old(self).format().header_length + body.len() <= usize::MAX
                    &&& v@ == spec_outgoing_frame(old(self).format(), old(self).out_checksum(), id, c, body)
                    &&& final(self).out_checksum() == next_checksum(old(self).out_checksum())
                },
                Err(e) => {
                    &&& final(self).out_checksum() == old(self).out_checksum()
                    &&& data@.len() > COMPRESSION_THRESHOLD ==> if zlib_compress_fails(data@) {
                        e is Io
                    } else {
                        &&& e == ProtocolError::InvalidPacketLength(
                            old(self).format().header_length,
                            zlib_compressed(data@).len() as usize,
                        )
                        &&& old(self).format().header_length + zlib_compressed(data@).len()
                            > usize::MAX
                    }
                    &&& data@.len() <= COMPRESSION_THRESHOLD ==> e == ProtocolError::InvalidPacketLength(
                        old(self).format().header_length,
                        data@.len() as usize,
                    ) && old(self).format().header_length + data@.len() > usize::MAX
                },
            },
    {
        proof {
            use_type_invariant(&*self);
        }
        let mut packet_data = crate::io::bytes_to_vec(data);
        let mut compression = GCompressionTypeV6::CompressionNone;
        if packet_data.len() > COMPRESSION_THRESHOLD {
            packet_data = match compress_zlib(data) {
                Ok(v) => v,
                Err(e) => {
                    return Err(ProtocolError::Io(e));
                },
            };
            compression = GCompressionTypeV6::CompressionZlib;
        }
        let hl = self.header_format.header_length;
        let total_length = match hl.checked_add(packet_data.len()) {
            Some(t) => t,
            None => {
                return Err(ProtocolError::InvalidPacketLength(hl, packet_data.len()));
            },
        };
        let checksum = self.to_client_checksum;
        let header = GProtocolV6PacketHeader { compression, checksum, length: total_length, id };
        let header_bytes = self.header_format.create_header(&header)?;
        self.to_client_checksum = if checksum == 255 {
            0
        } else {
            checksum + 1
        };
        let mut send_buffer = header_bytes;
        let mut i: usize = 0;
        let ghost hb = send_buffer@;
        while i < packet_data.len()
            invariant
                i <= packet_data@.len(),
                send_buffer@ == hb + packet_data@.take(i as int),
            decreases packet_data@.len() - i,
        {
            send_buffer.push(packet_data[i]);
            i = i + 1;
            proof {
                assert(send_buffer@ =~= hb + packet_data@.take(i as int));
            }
        }
        proof {
            assert(packet_data@.take(i as int) =~= packet_data@);
        }
        Ok(send_buffer)
    }
}

/// Whether a frame with this checksum, server packet id, compression and body
/// carries `data`: the packet is neither a bundle nor a key packet, the body
/// decompresses to `data`, and each number of the header fits its field.
pub open spec fn frame_fits(
    fmt: GProtocolV6HeaderFormat,
    chk: u8,
    id: FromServerPacketId,
    c: GCompressionTypeV6,
    body: Seq<u8>,
    data: Seq<u8>,
) -> bool {
    &&& id != FromServerPacketId::Bundle
    &&& id != FromServerPacketId::SetEncKey
    &&& spec_decompressed_v6(c, body) == Some(data)
    &&& fmt.header_length + body.len() <= usize::MAX
    &&& (c.spec_value() as int) < pow2(8 * fmt.compression_size as nat)
    &&& (chk as int) < pow2(8 * fmt.checksum_size as nat)
    &&& fmt.header_length + body.len() < pow2(8 * fmt.length_size as nat)
    &&& (id.spec_value() as int) < pow2(8 * fmt.type_size as nat)
}

/// A frame of a server packet that is neither a bundle nor a key packet, with
/// any compression and any checksum, is processed into exactly that packet,
/// queued, and the incoming checksum then follows the frame's own; bytes after
/// the frame are then processed as they would be on their own, from that
/// checksum. This holds when the header format's fields lie inside the header,
/// apart, each fitting a `usize`, and each number fits its field.
pub proof fn lemma_v6_frame_received(
    fmt: GProtocolV6HeaderFormat,
    chk: u8,
    id: FromServerPacketId,
    c: GCompressionTypeV6,
    body: Seq<u8>,
    data: Seq<u8>,
    rest: Seq<u8>,
    chk_in: u8,
    key: Option<Seq<u8>>,
    sk: Seq<u8>,
)
    requires
        format_readable(fmt),
        fields_in_header(fmt),
        fields_fit_usize(fmt),
        fields_disjoint(fmt),
        frame_fits(fmt, chk, id, c, body, data),
    ensures
        ({
            let frame = spec_outgoing_frame(fmt, chk, PacketId::FromServer(id), c, body);
            &&& bundle_run(fmt, MAX_BUNDLE_DEPTH as nat, chk_in, key, frame, sk) == (
                next_checksum(chk),
                key,
                seq![(PacketId::FromServer(id), data)],
                None::<V6Failure>,
            )
            &&& bundle_run(fmt, MAX_BUNDLE_DEPTH as nat, chk_in, key, frame + rest, sk) == after_run(
                seq![(PacketId::FromServer(id), data)],
                bundle_run(fmt, MAX_BUNDLE_DEPTH as nat, next_checksum(chk), key, rest, sk),
            )
        }),
{
    let hl = fmt.header_length as int;
    let header = GProtocolV6PacketHeader {
        compression: c,
        checksum: chk,
        length: (hl + body.len()) as usize,
        id: PacketId::FromServer(id),
    };
    lemma_parse_create_header(fmt, header, PacketDirection::Incoming);
    let head = spec_create_header(fmt, header);
    assert(head.len() == hl);
    assert(bundle_id() != PacketId::FromServer(id));
    assert(enc_key_id() != PacketId::FromServer(id));
    let frame = head + body;
    assert(frame.take(hl) =~= head);
    assert(frame.subrange(hl, header.length as int) =~= body);
    assert(frame.skip(header.length as int).len() == 0);
    let tail = bundle_run(fmt, MAX_BUNDLE_DEPTH as nat, next_checksum(chk), key, frame.skip(header.length as int), sk);
    assert(tail == (next_checksum(chk), key, Seq::<(PacketId, Seq<u8>)>::empty(), None::<V6Failure>));
    assert(seq![(PacketId::FromServer(id), data)] + tail.2 =~= seq![(PacketId::FromServer(id), data)]);
    let both = frame + rest;
    assert(both.take(hl) =~= head);
    assert(both.subrange(hl, header.length as int) =~= body);
    assert(both.skip(header.length as int) =~= rest);
}

/// What one side sends, the other receives: the frame that `prepare_packet`
/// builds for a server packet that is neither a bundle nor a key packet, its
/// data empty or not, is processed into exactly that packet, queued, and the
/// incoming checksum then follows the one that was sent; bytes after the frame
/// are then processed as they would be on their own, from that checksum. This
/// holds when the header format's fields lie inside the header, apart, each
/// fitting a `usize`, and each number fits its field.
pub proof fn lemma_v6_send_receive(
    fmt: GProtocolV6HeaderFormat,
    chk_out: u8,
    id: FromServerPacketId,
    data: Seq<u8>,
    rest: Seq<u8>,
    chk_in: u8,
    key: Option<Seq<u8>>,
    sk: Seq<u8>,
)
    requires
        format_readable(fmt),
        fields_in_header(fmt),
        fields_fit_usize(fmt),
        fields_disjoint(fmt),
        id != FromServerPacketId::Bundle,
        id != FromServerPacketId::SetEncKey,
        ({
            let (c, body) = spec_outgoing_body(data);
            &&& c == GCompressionTypeV6::CompressionZlib ==> zlib_decompressed(body) == Some(data)
            &&& fmt.header_length + body.len() <= usize::MAX
            &&& (c.spec_value() as int) < pow2(8 * fmt.compression_size as nat)
            &&& (chk_out as int) < pow2(8 * fmt.checksum_size as nat)
            &&& fmt.header_length + body.len() < pow2(8 * fmt.length_size as nat)
            &&& (id.spec_value() as int) < pow2(8 * fmt.type_size as nat)
        }),
    ensures
        ({
            let (c, body) = spec_outgoing_body(data);
            let frame = spec_outgoing_frame(fmt, chk_out, PacketId::FromServer(id), c, body);
            &&& bundle_run(fmt, MAX_BUNDLE_DEPTH as nat, chk_in, key, frame, sk) == (
                next_checksum(chk_out),
                key,
                seq![(PacketId::FromServer(id), data)],
                None::<V6Failure>,
            )
            &&& bundle_run(fmt, MAX_BUNDLE_DEPTH as nat, chk_in, key, frame + rest, sk) == after_run(
                seq![(PacketId::FromServer(id), data)],
                bundle_run(fmt, MAX_BUNDLE_DEPTH as nat, next_checksum(chk_out), key, rest, sk),
            )
        }),
{
    let (c, body) = spec_outgoing_body(data);
    lemma_v6_frame_received(fmt, chk_out, id, c, body, data, rest, chk_in, key, sk);
}

/// Received v6 packet data is decompressed by the decompressor of its
/// compression type: none leaves it, zlib and bzip2 decompress it as zlib and
/// bzip2 do; the header's compression values 0, 1 and 2 stand for none, zlib
/// and bzip2.
pub proof fn lemma_v6_decompression(d: Seq<u8>)
    ensures
        spec_decompressed_v6(GCompressionTypeV6::CompressionNone, d) == Some(d),
        spec_decompressed_v6(GCompressionTypeV6::CompressionZlib, d) == zlib_decompressed(d),
        spec_decompressed_v6(GCompressionTypeV6::CompressionBzip2, d) == bzip2_decompressed(d),
        GCompressionTypeV6::spec_from_value(0) == Some(GCompressionTypeV6::CompressionNone),
        GCompressionTypeV6::spec_from_value(1) == Some(GCompressionTypeV6::CompressionZlib),
        GCompressionTypeV6::spec_from_value(2) == Some(GCompressionTypeV6::CompressionBzip2),
{
}

/// A frame of a server packet (neither a bundle nor a key packet) whose
/// compression is bzip2 and whose body bzip2 decompresses to `data` is
/// received as exactly that packet, queued, with the checksum following the
/// frame's. This holds when the header format's fields lie inside the header,
/// apart, each fitting a `usize`, and each number fits its field.
pub proof fn lemma_v6_bzip2_frame_received(
    fmt: GProtocolV6HeaderFormat,
    chk: u8,
    id: FromServerPacketId,
    body: Seq<u8>,
    data: Seq<u8>,
    chk_in: u8,
    key: Option<Seq<u8>>,
    sk: Seq<u8>,
)
    requires
        format_readable(fmt),
        fields_in_header(fmt),
        fields_fit_usize(fmt),
        fields_disjoint(fmt),
        bzip2_decompressed(body) == Some(data),
        id != FromServerPacketId::Bundle,
        id != FromServerPacketId::SetEncKey,
        fmt.header_length + body.len() <= usize::MAX,
        2 < pow2(8 * fmt.compression_size as nat),
        (chk as int) < pow2(8 * fmt.checksum_size as nat),
        fmt.header_length + body.len() < pow2(8 * fmt.length_size as nat),
        (id.spec_value() as int) < pow2(8 * fmt.type_size as nat),
    ensures
        bundle_run(
            fmt,
            MAX_BUNDLE_DEPTH as nat,
            chk_in,
            key,
            spec_outgoing_frame(
                fmt,
                chk,
                PacketId::FromServer(id),
                GCompressionTypeV6::CompressionBzip2,
                body,
            ),
            sk,
        ) == (next_checksum(chk), key, seq![(PacketId::FromServer(id), data)], None::<V6Failure>),
{
    lemma_v6_decompression(body);
    lemma_v6_frame_received(
        fmt,
        chk,
        id,
        GCompressionTypeV6::CompressionBzip2,
        body,
        data,
        Seq::empty(),
        chk_in,
        key,
        sk,
    );
}

/// A server packet as a frame carries it: its checksum, id, compression, the
/// body on the wire and the data that the body decompresses to.
pub type ServerFrame = (u8, FromServerPacketId, GCompressionTypeV6, Seq<u8>, Seq<u8>);

/// The bytes of frames one after another.
pub open spec fn frames_of(fmt: GProtocolV6HeaderFormat, ps: Seq<ServerFrame>) -> Seq<u8>
    decreases ps.len(),
{
    if ps.len() == 0 {
        Seq::empty()
    } else {
        spec_outgoing_frame(fmt, ps[0].0, PacketId::FromServer(ps[0].1), ps[0].2, ps[0].3) + frames_of(
            fmt,
            ps.drop_first(),
        )
    }
}

/// The ids and data of the packets of frames.
pub open spec fn packets_of(ps: Seq<ServerFrame>) -> Seq<(PacketId, Seq<u8>)> {
    ps.map_values(|p: ServerFrame| (PacketId::FromServer(p.1), p.4))
}

/// Processing the frames of one or more server packets, none a bundle or a
/// key packet, each compressed or not and carrying whatever checksum,
/// succeeds, queues every packet in order, and leaves the incoming checksum
/// one past the checksum of the last frame. This holds when the header
/// format's fields lie inside the header, apart, each fitting a `usize`, and
/// each number fits its field.
#[verifier::spinoff_prover]
#[verifier::rlimit(50)]
pub proof fn lemma_v6_frames_received_in_order(
    fmt: GProtocolV6HeaderFormat,
    ps: Seq<ServerFrame>,
    chk_in: u8,
    key: Option<Seq<u8>>,
    sk: Seq<u8>,
)
    requires
        format_readable(fmt),
        fields_in_header(fmt),
        fields_fit_usize(fmt),
        fields_disjoint(fmt),
        ps.len() >= 1,
        forall|i: int|
            0 <= i < ps.len() ==> #[trigger] frame_fits(fmt, ps[i].0, ps[i].1, ps[i].2, ps[i].3, ps[i].4),
    ensures
        bundle_run(fmt, MAX_BUNDLE_DEPTH as nat, chk_in, key, frames_of(fmt, ps), sk) == (
            next_checksum(ps.last().0),
            key,
            packets_of(ps),
            None::<V6Failure>,
        ),
    decreases ps.len(),
{
    let rest = ps.drop_first();
    assert(frame_fits(fmt, ps[0].0, ps[0].1, ps[0].2, ps[0].3, ps[0].4));
    lemma_v6_frame_received(
        fmt,
        ps[0].0,
        ps[0].1,
        ps[0].2,
        ps[0].3,
        ps[0].4,
        frames_of(fmt, rest),
        chk_in,
        key,
        sk,
    );
    let head = seq![(PacketId::FromServer(ps[0].1), ps[0].4)];
    if rest.len() == 0 {
        assert(frames_of(fmt, rest) =~= Seq::<u8>::empty());
        assert(packets_of(ps) =~= head);
        assert(head + Seq::<(PacketId, Seq<u8>)>::empty() =~= head);
    } else {
        assert forall|i: int| 0 <= i < rest.len() implies #[trigger] frame_fits(
            fmt,
            rest[i].0,
            rest[i].1,
            rest[i].2,
            rest[i].3,
            rest[i].4,
        ) by {
            assert(rest[i] == ps[i + 1]);
            assert(frame_fits(fmt, ps[i + 1].0, ps[i + 1].1, ps[i + 1].2, ps[i + 1].3, ps[i + 1].4));
        }
        lemma_v6_frames_received_in_order(fmt, rest, next_checksum(ps[0].0), key, sk);
        assert(rest.last() == ps.last());
        assert(packets_of(ps) =~= head + packets_of(rest));
    }
}

/// The checksums of packets sent one after another, each sent with the
/// checksum that the one before moved on to (as `prepare_packet` moves the
/// outgoing checksum): the `i`-th is `(c + i) % 256`, where `c` is the first,
/// so a fresh state, whose first is 1, sends `1, 2, ..., 255, 0, 1, ...`.
pub proof fn lemma_sent_checksums(chks: Seq<u8>)
    requires
        chks.len() >= 1,
        forall|i: int| 0 <= i < chks.len() - 1 ==> #[trigger] chks[i + 1] == next_checksum(chks[i]),
    ensures
        forall|i: int| 0 <= i < chks.len() ==> #[trigger] chks[i] as int == (chks[0] + i) % 256,
    decreases chks.len(),
{
    if chks.len() > 1 {
        let front = chks.drop_last();
        assert forall|i: int| 0 <= i < front.len() - 1 implies #[trigger] front[i + 1] == next_checksum(front[i]) by {
            assert(front[i + 1] == chks[i + 1]);
            assert(front[i] == chks[i]);
        }
        lemma_sent_checksums(front);
        assert(front[0] == chks[0]);
        assert forall|i: int| 0 <= i < chks.len() implies #[trigger] chks[i] as int == (chks[0] + i) % 256 by {
            if i < chks.len() - 1 {
                assert(chks[i] == front[i]);
            } else {
                let k = chks.len() - 2;
                assert(chks[k] == front[k]);
                assert(front[0] == chks[0]);
                assert(chks[k] as int == (chks[0] + k) % 256);
                assert(i == k + 1);
                assert(chks[k + 1] == next_checksum(chks[k]));
                lemma_add_mod_noop(chks[0] + k, 1, 256);
                lemma_small_mod(1, 256);
                if chks[k] != 255 {
                    lemma_small_mod((chks[k] + 1) as nat, 256);
                }
            }
        }
    } else {
        lemma_small_mod(chks[0] as nat, 256);
    }
}

} // verus!
