use vstd::prelude::*;
use vstd::string::StringSliceAdditionalSpecFns;
use vstd::arithmetic::power2::{pow2, lemma_pow2_adds, lemma_pow2_pos, lemma2_to64};
use vstd::bits::lemma_usize_shr_is_div;

use crate::io::io_sync::{first_index_of, lemma_first_index_of, lemma_first_index_of_unique};
use crate::net::packet::PacketConversionError;
use crate::net::packet::PacketId;
use crate::net::packet::from_client::{FromClientPacketId, lemma_from_client_value_roundtrip};
use crate::net::packet::from_server::{FromServerPacketId, lemma_from_server_value_roundtrip};
use crate::net::protocol::ProtocolError;

verus! {

/// A header format for protocol v6. The header format is defined by a protocol string
/// (which can only contain the characters 'E', 'I', 'L', and 'T', bytes 69, 73,
/// 76 and 84).
#[derive(Debug, Clone, Copy)]
pub struct GProtocolV6HeaderFormat {
    /// The length of the header.
    pub header_length: usize,
    /// The index of the compression type.
    pub compression_index: usize,
    /// The size of the compression type.
    pub compression_size: usize,
    /// The index of the checksum.
    pub checksum_index: usize,
    /// The size of the checksum.
    pub checksum_size: usize,
    /// The index of the length.
    pub length_index: usize,
    /// The size of the length.
    pub length_size: usize,
    /// The index of the packet type.
    pub type_index: usize,
    /// The size of the packet type.
    pub type_size: usize,
}

/// How often `b` occurs in `s`.
pub open spec fn count_byte(s: Seq<u8>, b: u8) -> nat
    decreases s.len(),
{
    if s.len() == 0 {
        0
    } else {
        count_byte(s.drop_last(), b) + if s.last() == b {
            1nat
        } else {
            0nat
        }
    }
}

/// The letters of a header format: 'E', 'I', 'L' and 'T'.
pub open spec fn is_format_letter(b: u8) -> bool {
    b == 69 || b == 73 || b == 76 || b == 84
}

/// The header format that a format string (given by its bytes) describes, if it is one:
/// only the four letters, each at least once; each field starts at the first
/// occurrence of its letter and is as long as the letter occurs.
pub open spec fn header_format_of(s: Seq<u8>) -> Option<GProtocolV6HeaderFormat> {
    if (forall|i: int| 0 <= i < s.len() ==> is_format_letter(#[trigger] s[i])) && first_index_of(
        s,
        69,
    ) >= 0 && first_index_of(s, 73) >= 0 && first_index_of(s, 76) >= 0 && first_index_of(s, 84)
        >= 0 {
        Some(
            GProtocolV6HeaderFormat {
                header_length: s.len() as usize,
                compression_index: first_index_of(s, 69) as usize,
                compression_size: count_byte(s, 69) as usize,
                checksum_index: first_index_of(s, 73) as usize,
                checksum_size: count_byte(s, 73) as usize,
                length_index: first_index_of(s, 76) as usize,
                length_size: count_byte(s, 76) as usize,
                type_index: first_index_of(s, 84) as usize,
                type_size: count_byte(s, 84) as usize,
            },
        )
    } else {
        None
    }
}

/// The index of the first occurrence of `b`, if any.
fn index_of_byte(bytes: &[u8], b: u8) -> (r: Option<usize>)
    ensures
        match r {
            Some(k) => first_index_of(bytes@, b) == k,
            None => first_index_of(bytes@, b) == -1,
        },
{
    let mut k: usize = 0;
    while k < bytes.len()
        invariant
            k <= bytes@.len(),
            forall|j: int| 0 <= j < k ==> bytes@[j] != b,
        decreases bytes@.len() - k,
    {
        if bytes[k] == b {
            proof {
                lemma_first_index_of_unique(bytes@, b, k as int);
            }
            return Some(k);
        }
        k = k + 1;
    }
    proof {
        lemma_first_index_of(bytes@, b);
        if first_index_of(bytes@, b) >= 0 {
            assert(bytes@[first_index_of(bytes@, b)] != b);
        }
    }
    None
}

/// How often `b` occurs in the bytes.
fn count_of_byte(bytes: &[u8], b: u8) -> (r: usize)
    ensures
        r == count_byte(bytes@, b),
{
    let mut k: usize = 0;
    let mut count: usize = 0;
    while k < bytes.len()
        invariant
            k <= bytes@.len(),
            count == count_byte(bytes@.take(k as int), b),
            count <= k,
        decreases bytes@.len() - k,
    {
        proof {
            assert(bytes@.take(k + 1).drop_last() =~= bytes@.take(k as int));
        }
        if bytes[k] == b {
            count = count + 1;
        }
        k = k + 1;
    }
    proof {
        assert(bytes@.take(k as int) =~= bytes@);
    }
    count
}

impl GProtocolV6HeaderFormat {
    /// Parses a header format from its protocol string.
    pub fn try_from(s: &str) -> (r: Result<GProtocolV6HeaderFormat, ProtocolError>)
        ensures
            match header_format_of(s.spec_bytes()) {
                Some(f) => r == Ok::<GProtocolV6HeaderFormat, ProtocolError>(f),
                None => r matches Err(ProtocolError::InvalidHeaderFormat(m)) && m@ == s@,
            },
            r matches Ok(f) ==> fields_in_header(f),
            r matches Ok(f) ==> (occurs_together(s.spec_bytes(), 69) && occurs_together(
                s.spec_bytes(),
                73,
            ) && occurs_together(s.spec_bytes(), 76) && occurs_together(s.spec_bytes(), 84)
                ==> fields_disjoint(f)),
    {
        let bytes = s.as_bytes();
        let mut i: usize = 0;
        while i < bytes.len()
            invariant
                bytes@ == s.spec_bytes(),
                i <= bytes@.len(),
                forall|j: int| 0 <= j < i ==> is_format_letter(#[trigger] bytes@[j]),
            decreases bytes@.len() - i,
        {
            let c = bytes[i];
            if !(c == 69u8 || c == 73u8 || c == 76u8 || c == 84u8) {
                return Err(ProtocolError::InvalidHeaderFormat(s.to_owned()));
            }
            i = i + 1;
        }
        let header_length = s.len();
        let compression_index = match index_of_byte(bytes, 69u8) {
            Some(k) => k,
            None => {
                return Err(ProtocolError::InvalidHeaderFormat(s.to_owned()));
            },
        };
        let compression_size = count_of_byte(bytes, 69u8);
        let checksum_index = match index_of_byte(bytes, 73u8) {
            Some(k) => k,
            None => {
                return Err(ProtocolError::InvalidHeaderFormat(s.to_owned()));
            },
        };
        let checksum_size = count_of_byte(bytes, 73u8);
        let length_index = match index_of_byte(bytes, 76u8) {
            Some(k) => k,
            None => {
                return Err(ProtocolError::InvalidHeaderFormat(s.to_owned()));
            },
        };
        let length_size = count_of_byte(bytes, 76u8);
        let type_index = match index_of_byte(bytes, 84u8) {
            Some(k) => k,
            None => {
                return Err(ProtocolError::InvalidHeaderFormat(s.to_owned()));
            },
        };
        let type_size = count_of_byte(bytes, 84u8);
        proof {
            assert(header_format_of(s.spec_bytes()) is Some);
            lemma_format_fields_in_header(s.spec_bytes());
            if occurs_together(s.spec_bytes(), 69) && occurs_together(s.spec_bytes(), 73)
                && occurs_together(s.spec_bytes(), 76) && occurs_together(s.spec_bytes(), 84) {
                lemma_format_fields_disjoint(s.spec_bytes());
            }
        }
        Ok(
            Self {
                header_length,
                compression_index,
                compression_size,
                checksum_index,
                checksum_size,
                length_index,
                length_size,
                type_index,
                type_size,
            },
        )
    }
}

/// Supported compression types.
#[derive(Debug, PartialEq, Eq, Clone, Copy, Structural)]
pub enum GCompressionTypeV6 {
    /// No compression.
    CompressionNone,
    /// Zlib compression.
    CompressionZlib,
    /// Bzip2 compression.
    CompressionBzip2,
}

/// Incoming vs outgoing packet types.
#[derive(Debug, PartialEq, Eq, Clone, Copy, Structural)]
pub enum PacketDirection {
    /// Packets coming from the server.
    Incoming,
    /// Packets coming from the client.
    Outgoing,
}

impl GCompressionTypeV6 {
    /// The number that stands for the compression type on the wire.
    pub open spec fn spec_value(self) -> u8 {
        match self {
            GCompressionTypeV6::CompressionNone => 0,
            GCompressionTypeV6::CompressionZlib => 1,
            GCompressionTypeV6::CompressionBzip2 => 2,
        }
    }

    /// The compression type that a number stands for, if any.
    pub open spec fn spec_from_value(v: usize) -> Option<GCompressionTypeV6> {
        if v == 0 {
            Some(GCompressionTypeV6::CompressionNone)
        } else if v == 1 {
            Some(GCompressionTypeV6::CompressionZlib)
        } else if v == 2 {
            Some(GCompressionTypeV6::CompressionBzip2)
        } else {
            None
        }
    }

    /// The number that stands for the compression type on the wire.
    pub fn value(&self) -> (r: u8)
        ensures
            r == self.spec_value(),
    {
        match self {
            GCompressionTypeV6::CompressionNone => 0,
            GCompressionTypeV6::CompressionZlib => 1,
            GCompressionTypeV6::CompressionBzip2 => 2,
        }
    }

    /// The compression type that a number stands for.
    pub fn try_from_usize(value: usize) -> (r: Result<GCompressionTypeV6, ProtocolError>)
        ensures
            match Self::spec_from_value(value) {
                Some(c) => r == Ok::<GCompressionTypeV6, ProtocolError>(c),
                None => r == Err::<GCompressionTypeV6, ProtocolError>(
                    ProtocolError::InvalidCompression(value as u8),
                ),
            },
    {
        match value {
            0 => Ok(GCompressionTypeV6::CompressionNone),
            1 => Ok(GCompressionTypeV6::CompressionZlib),
            2 => Ok(GCompressionTypeV6::CompressionBzip2),
            _ => Err(ProtocolError::InvalidCompression(value as u8)),
        }
    }

    /// The compression type that a byte stands for.
    pub fn try_from_u8(value: u8) -> (r: Result<GCompressionTypeV6, ProtocolError>)
        ensures
            match Self::spec_from_value(value as usize) {
                Some(c) => r == Ok::<GCompressionTypeV6, ProtocolError>(c),
                None => r == Err::<GCompressionTypeV6, ProtocolError>(
                    ProtocolError::InvalidCompression(value),
                ),
            },
    {
        Self::try_from_usize(value as usize)
    }
}

impl From<GCompressionTypeV6> for u8 {
    fn from(comp: GCompressionTypeV6) -> (r: u8) {
        comp.value()
    }
}

impl vstd::std_specs::convert::FromSpecImpl<GCompressionTypeV6> for u8 {
    open spec fn obeys_from_spec() -> bool {
        true
    }

    open spec fn from_spec(comp: GCompressionTypeV6) -> u8 {
        comp.spec_value()
    }
}

impl From<GCompressionTypeV6> for usize {
    fn from(comp: GCompressionTypeV6) -> (r: usize) {
        comp.value() as usize
    }
}

impl vstd::std_specs::convert::FromSpecImpl<GCompressionTypeV6> for usize {
    open spec fn obeys_from_spec() -> bool {
        true
    }

    open spec fn from_spec(comp: GCompressionTypeV6) -> usize {
        comp.spec_value() as usize
    }
}

/// A parsed header for a single packet.
#[derive(Debug)]
pub struct GProtocolV6PacketHeader {
    /// The compression type.
    pub compression: GCompressionTypeV6,
    /// The checksum.
    pub checksum: u8,
    /// The length of the packet.
    pub length: usize,
    /// The packet ID.
    pub id: PacketId,
}

/// The big-endian number that the bytes make, kept in a `usize`: each byte
/// shifts the value left by eight bits, and high bits that leave it are lost.
pub open spec fn be_usize(s: Seq<u8>) -> usize
    decreases s.len(),
{
    if s.len() == 0 {
        0usize
    } else {
        (be_usize(s.drop_last()) << 8usize) | (s.last() as usize)
    }
}

/// The `n` big-endian bytes of `v`, the low byte last.
pub open spec fn be_bytes(v: usize, n: nat) -> Seq<u8> {
    Seq::new(n, |j: int| (v >> ((8 * (n - 1 - j)) as usize)) as u8)
}

/// The number in the field of `size` bytes at `index`, or `None` when it runs
/// past the end of the buffer.
pub open spec fn header_field(buf: Seq<u8>, index: usize, size: usize) -> Option<usize> {
    if index + size > buf.len() {
        None
    } else {
        Some(be_usize(buf.subrange(index as int, index + size)))
    }
}

/// `buf` with the bytes of `part` written from position `at`.
pub open spec fn splice(buf: Seq<u8>, at: int, part: Seq<u8>) -> Seq<u8> {
    buf.take(at) + part + buf.skip(at + part.len())
}

/// What parsing a header gives: the result, or `None` when a field runs past the
/// end of the buffer. A type field above 255 is no packet id.
pub open spec fn spec_parse_header(
    fmt: GProtocolV6HeaderFormat,
    direction: PacketDirection,
    buf: Seq<u8>,
) -> Option<Result<GProtocolV6PacketHeader, ProtocolError>> {
    if buf.len() != fmt.header_length {
        Some(Err(ProtocolError::InvalidHeaderLength(buf.len() as usize, fmt.header_length)))
    } else {
        match header_field(buf, fmt.compression_index, fmt.compression_size) {
            None => None,
            Some(c) => match GCompressionTypeV6::spec_from_value(c) {
                None => Some(Err(ProtocolError::InvalidCompression(c as u8))),
                Some(compression) => match header_field(
                    buf,
                    fmt.checksum_index,
                    fmt.checksum_size,
                ) {
                    None => None,
                    Some(checksum) => match header_field(buf, fmt.length_index, fmt.length_size) {
                        None => None,
                        Some(length) => match header_field(buf, fmt.type_index, fmt.type_size) {
                            None => None,
                            Some(t) => if t > 255 {
                                Some(
                                    Err(
                                        ProtocolError::PacketConversion(
                                            PacketConversionError::IdOutOfRange(t),
                                        ),
                                    ),
                                )
                            } else {
                                let id = match direction {
                                    PacketDirection::Incoming => match FromServerPacketId::spec_from_value(t as u8) {
                                        Some(id) => Some(PacketId::FromServer(id)),
                                        None => None,
                                    },
                                    PacketDirection::Outgoing => match FromClientPacketId::spec_from_value(t as u8) {
                                        Some(id) => Some(PacketId::FromClient(id)),
                                        None => None,
                                    },
                                };
                                match id {
                                    Some(id) => Some(
                                        Ok(
                                            GProtocolV6PacketHeader {
                                                compression,
                                                checksum: checksum as u8,
                                                length,
                                                id,
                                            },
                                        ),
                                    ),
                                    None => Some(
                                        Err(
                                            ProtocolError::PacketConversion(
                                                PacketConversionError::InvalidId(t as u8),
                                            ),
                                        ),
                                    ),
                                }
                            },
                        },
                    },
                },
            },
        }
    }
}

/// The bytes of the header that `create_header` writes: zeros, with each
/// field's big-endian number written at its index, in the order compression,
/// checksum, length, type.
pub open spec fn spec_create_header(
    fmt: GProtocolV6HeaderFormat,
    header: GProtocolV6PacketHeader,
) -> Seq<u8> {
    let b0 = Seq::new(fmt.header_length as nat, |i: int| 0u8);
    let b1 = splice(
        b0,
        fmt.compression_index as int,
        be_bytes(header.compression.spec_value() as usize, fmt.compression_size as nat),
    );
    let b2 = splice(
        b1,
        fmt.checksum_index as int,
        be_bytes(header.checksum as usize, fmt.checksum_size as nat),
    );
    let b3 = splice(b2, fmt.length_index as int, be_bytes(header.length, fmt.length_size as nat));
    splice(b3, fmt.type_index as int, be_bytes(header.id.spec_value() as usize, fmt.type_size as nat))
}

/// The fields of the format lie inside the header.
pub open spec fn fields_in_header(fmt: GProtocolV6HeaderFormat) -> bool {
    &&& fmt.compression_index + fmt.compression_size <= fmt.header_length
    &&& fmt.checksum_index + fmt.checksum_size <= fmt.header_length
    &&& fmt.length_index + fmt.length_size <= fmt.header_length
    &&& fmt.type_index + fmt.type_size <= fmt.header_length
}

/// Each field of the format fits in a `usize`.
pub open spec fn fields_fit_usize(fmt: GProtocolV6HeaderFormat) -> bool {
    &&& 8 * fmt.compression_size <= usize::BITS
    &&& 8 * fmt.checksum_size <= usize::BITS
    &&& 8 * fmt.length_size <= usize::BITS
    &&& 8 * fmt.type_size <= usize::BITS
}

proof fn lemma_be_usize_step(s: Seq<u8>, b: u8)
    ensures
        be_usize(s.push(b)) == (be_usize(s) << 8usize) | (b as usize),
{
    assert(s.push(b).drop_last() =~= s);
}

/// Writes `src` into `buffer` from position `start`.
fn copy_into(buffer: &mut Vec<u8>, start: usize, src: &[u8])
    requires
        start + src@.len() <= old(buffer)@.len(),
    ensures
        final(buffer)@ == splice(old(buffer)@, start as int, src@),
{
    let blen = buffer.len();
    let mut i: usize = 0;
    while i < src.len()
        invariant
            blen == buffer@.len(),
            start + src@.len() <= buffer@.len(),
            buffer@.len() == old(buffer)@.len(),
            i <= src@.len(),
            buffer@ == splice(old(buffer)@, start as int, src@.take(i as int)),
        decreases src@.len() - i,
    {
        buffer.set(start + i, src[i]);
        i = i + 1;
        proof {
            assert(buffer@ =~= splice(old(buffer)@, start as int, src@.take(i as int)));
        }
    }
    proof {
        assert(src@.take(i as int) =~= src@);
    }
}


proof fn lemma_usize_shr_shr(v: usize, k: usize)
    by (bit_vector)
    requires
        k <= 1000,
    ensures
        (v >> 8usize) >> k == v >> ((k + 8) as usize),
{
}

proof fn lemma_usize_split_low_byte(v: usize)
    by (bit_vector)
    ensures
        ((v >> 8usize) << 8usize) | ((v as u8) as usize) == v,
        v >> 0usize == v,
{
}

/// Reading back the big-endian bytes of a number gives the number, when it fits
/// in them and they fit in a `usize`.
pub proof fn lemma_be_usize_be_bytes(v: usize, n: nat)
    requires
        8 * n <= usize::BITS,
        (v as int) < pow2(8 * n),
    ensures
        be_usize(be_bytes(v, n)) == v,
    decreases n,
{
    lemma_usize_split_low_byte(v);
    if n == 0 {
        lemma2_to64();
        assert(be_bytes(v, n) =~= Seq::<u8>::empty());
    } else {
        let bb = be_bytes(v, n);
        let rest = be_bytes(v >> 8usize, (n - 1) as nat);
        assert forall|j: int| 0 <= j < n - 1 implies #[trigger] bb.drop_last()[j] == rest[j] by {
            let k = (8 * (n - 2 - j)) as usize;
            lemma_usize_shr_shr(v, k);
            assert((8 * (n - 1 - j)) as usize == (k + 8) as usize);
        }
        assert(bb.drop_last() =~= rest);
        assert(bb.last() == (v >> 0usize) as u8);
        lemma_usize_shr_is_div(v, 8);
        lemma2_to64();
        lemma_pow2_adds((8 * (n - 1)) as nat, 8);
        assert(8 * n == 8 * (n - 1) + 8);
        let p = pow2((8 * (n - 1)) as nat) as int;
        lemma_pow2_pos((8 * (n - 1)) as nat);
        assert((v as int) / 256 < p) by (nonlinear_arith)
            requires
                (v as int) < p * 256,
                p > 0,
                v >= 0,
        ;
        lemma_be_usize_be_bytes(v >> 8usize, (n - 1) as nat);
        lemma_be_usize_step(bb.drop_last(), bb.last());
        assert(bb.drop_last().push(bb.last()) =~= bb);
    }
}

/// Writing a part into a buffer leaves every range that does not overlap it as it
/// was, and the part's own range then holds the part.
pub proof fn lemma_splice_ranges(buf: Seq<u8>, at: int, part: Seq<u8>, a: int, len: int)
    requires
        0 <= at,
        at + part.len() <= buf.len(),
        0 <= a,
        0 <= len,
        a + len <= buf.len(),
    ensures
        splice(buf, at, part).len() == buf.len(),
        a + len <= at || at + part.len() <= a ==> splice(buf, at, part).subrange(a, a + len)
            == buf.subrange(a, a + len),
        splice(buf, at, part).subrange(at, at + part.len()) == part,
{
    if a + len <= at || at + part.len() <= a {
        assert(splice(buf, at, part).subrange(a, a + len) =~= buf.subrange(a, a + len));
    }
    assert(splice(buf, at, part).subrange(at, at + part.len()) =~= part);
}

/// No two fields of the format overlap.
pub open spec fn fields_disjoint(fmt: GProtocolV6HeaderFormat) -> bool {
    let ranges_apart = |a: int, n: int, b: int, m: int| a + n <= b || b + m <= a;
    &&& ranges_apart(
        fmt.compression_index as int,
        fmt.compression_size as int,
        fmt.checksum_index as int,
        fmt.checksum_size as int,
    )
    &&& ranges_apart(
        fmt.compression_index as int,
        fmt.compression_size as int,
        fmt.length_index as int,
        fmt.length_size as int,
    )
    &&& ranges_apart(
        fmt.compression_index as int,
        fmt.compression_size as int,
        fmt.type_index as int,
        fmt.type_size as int,
    )
    &&& ranges_apart(
        fmt.checksum_index as int,
        fmt.checksum_size as int,
        fmt.length_index as int,
        fmt.length_size as int,
    )
    &&& ranges_apart(
        fmt.checksum_index as int,
        fmt.checksum_size as int,
        fmt.type_index as int,
        fmt.type_size as int,
    )
    &&& ranges_apart(
        fmt.length_index as int,
        fmt.length_size as int,
        fmt.type_index as int,
        fmt.type_size as int,
    )
}

/// Parsing the bytes that `create_header` writes gives the header back, when
/// the format's fields lie inside the header without overlapping and fit a
/// `usize`, each number of the header fits its field, and the direction is that
/// of the packet id.
pub proof fn lemma_parse_create_header(
    fmt: GProtocolV6HeaderFormat,
    header: GProtocolV6PacketHeader,
    direction: PacketDirection,
)
    requires
        fields_in_header(fmt),
        fields_fit_usize(fmt),
        fields_disjoint(fmt),
        (header.compression.spec_value() as int) < pow2(8 * fmt.compression_size as nat),
        (header.checksum as int) < pow2(8 * fmt.checksum_size as nat),
        (header.length as int) < pow2(8 * fmt.length_size as nat),
        (header.id.spec_value() as int) < pow2(8 * fmt.type_size as nat),
        direction == PacketDirection::Incoming <==> header.id is FromServer,
    ensures
        spec_parse_header(fmt, direction, spec_create_header(fmt, header)) == Some(
            Ok::<GProtocolV6PacketHeader, ProtocolError>(header),
        ),
{
    let pc = be_bytes(header.compression.spec_value() as usize, fmt.compression_size as nat);
    let pk = be_bytes(header.checksum as usize, fmt.checksum_size as nat);
    let pl = be_bytes(header.length, fmt.length_size as nat);
    let pt = be_bytes(header.id.spec_value() as usize, fmt.type_size as nat);
    let ci = fmt.compression_index as int;
    let cs = fmt.compression_size as int;
    let ki = fmt.checksum_index as int;
    let ks = fmt.checksum_size as int;
    let li = fmt.length_index as int;
    let ls = fmt.length_size as int;
    let ti = fmt.type_index as int;
    let ts = fmt.type_size as int;
    let b0 = Seq::new(fmt.header_length as nat, |i: int| 0u8);
    let b1 = splice(b0, ci, pc);
    let b2 = splice(b1, ki, pk);
    let b3 = splice(b2, li, pl);
    let b4 = splice(b3, ti, pt);
    assert(b4 == spec_create_header(fmt, header));
    // the compression field
    lemma_splice_ranges(b0, ci, pc, ci, cs);
    lemma_splice_ranges(b1, ki, pk, ci, cs);
    lemma_splice_ranges(b2, li, pl, ci, cs);
    lemma_splice_ranges(b3, ti, pt, ci, cs);
    // the checksum field
    lemma_splice_ranges(b1, ki, pk, ki, ks);
    lemma_splice_ranges(b2, li, pl, ki, ks);
    lemma_splice_ranges(b3, ti, pt, ki, ks);
    // the length field
    lemma_splice_ranges(b2, li, pl, li, ls);
    lemma_splice_ranges(b3, ti, pt, li, ls);
    // the type field
    lemma_splice_ranges(b3, ti, pt, ti, ts);
    lemma_be_usize_be_bytes(header.compression.spec_value() as usize, fmt.compression_size as nat);
    lemma_be_usize_be_bytes(header.checksum as usize, fmt.checksum_size as nat);
    lemma_be_usize_be_bytes(header.length, fmt.length_size as nat);
    lemma_be_usize_be_bytes(header.id.spec_value() as usize, fmt.type_size as nat);
    assert(header_field(b4, fmt.compression_index, fmt.compression_size) == Some(
        header.compression.spec_value() as usize,
    ));
    assert(header_field(b4, fmt.checksum_index, fmt.checksum_size) == Some(header.checksum as usize));
    assert(header_field(b4, fmt.length_index, fmt.length_size) == Some(header.length));
    assert(header_field(b4, fmt.type_index, fmt.type_size) == Some(
        header.id.spec_value() as usize,
    ));
    match header.id {
        PacketId::FromServer(id) => lemma_from_server_value_roundtrip(id, 0),
        PacketId::FromClient(id) => lemma_from_client_value_roundtrip(id, 0),
    }
}

impl GProtocolV6HeaderFormat {
    /// Parse the header from a given byte slice.
    pub fn parse_header(&self, packet_direction: PacketDirection, buffer: &[u8]) -> (r: Result<
        GProtocolV6PacketHeader,
        ProtocolError,
    >)
        requires
            self.compression_index + self.compression_size <= usize::MAX,
            self.checksum_index + self.checksum_size <= usize::MAX,
            self.length_index + self.length_size <= usize::MAX,
            self.type_index + self.type_size <= usize::MAX,
        ensures
            match spec_parse_header(*self, packet_direction, buffer@) {
                Some(res) => r == res,
                None => r matches Err(ProtocolError::InvalidHeaderFormat(m)) && m@
                    == "Buffer too short"@,
            },
    {
        if buffer.len() != self.header_length {
            return Err(ProtocolError::InvalidHeaderLength(buffer.len(), self.header_length));
        }
        let c = Self::get_num_from_buffer(buffer, self.compression_index, self.compression_size)?;
        let compression = GCompressionTypeV6::try_from_usize(c)?;
        let checksum = Self::get_num_from_buffer(buffer, self.checksum_index, self.checksum_size)?;
        let length = Self::get_num_from_buffer(buffer, self.length_index, self.length_size)?;
        let packet_id = Self::get_num_from_buffer(buffer, self.type_index, self.type_size)?;
        if packet_id > 255 {
            return Err(
                ProtocolError::PacketConversion(
                    PacketConversionError::IdOutOfRange(packet_id),
                ),
            );
        }
        let id = match packet_direction {
            PacketDirection::Incoming => match FromServerPacketId::try_from_usize(packet_id) {
                Ok(id) => PacketId::FromServer(id),
                Err(e) => {
                    return Err(ProtocolError::PacketConversion(e));
                },
            },
            PacketDirection::Outgoing => match FromClientPacketId::try_from_usize(packet_id) {
                Ok(id) => PacketId::FromClient(id),
                Err(e) => {
                    return Err(ProtocolError::PacketConversion(e));
                },
            },
        };
        Ok(GProtocolV6PacketHeader { compression, checksum: checksum as u8, length, id })
    }

    /// Create a header buffer from a packet header.
    pub fn create_header(&self, header: &GProtocolV6PacketHeader) -> (r: Result<
        Vec<u8>,
        ProtocolError,
    >)
        requires
            fields_in_header(*self),
            fields_fit_usize(*self),
        ensures
            r matches Ok(v) && v@ == spec_create_header(*self, *header),
    {
        let mut buffer: Vec<u8> = vec![0u8; self.header_length];
        proof {
            assert(buffer@ =~= Seq::new(self.header_length as nat, |i: int| 0u8));
        }
        let compression_buf = Self::get_buffer_from_num(
            header.compression.value() as usize,
            self.compression_size,
        )?;
        let checksum_buf = Self::get_buffer_from_num(header.checksum as usize, self.checksum_size)?;
        let length_buf = Self::get_buffer_from_num(header.length, self.length_size)?;
        let type_buf = Self::get_buffer_from_num(header.id.value() as usize, self.type_size)?;
        copy_into(&mut buffer, self.compression_index, compression_buf.as_slice());
        copy_into(&mut buffer, self.checksum_index, checksum_buf.as_slice());
        copy_into(&mut buffer, self.length_index, length_buf.as_slice());
        copy_into(&mut buffer, self.type_index, type_buf.as_slice());
        Ok(buffer)
    }

    /// Extract a big-endian integer from a buffer at a given index and size.
    fn get_num_from_buffer(buffer: &[u8], index: usize, size: usize) -> (r: Result<
        usize,
        ProtocolError,
    >)
        requires
            index + size <= usize::MAX,
        ensures
            match header_field(buffer@, index, size) {
                Some(v) => r == Ok::<usize, ProtocolError>(v),
                None => r matches Err(ProtocolError::InvalidHeaderFormat(m)) && m@
                    == "Buffer too short"@,
            },
    {
        if index + size > buffer.len() {
            return Err(ProtocolError::InvalidHeaderFormat("Buffer too short".to_owned()));
        }
        let blen = buffer.len();
        let mut value: usize = 0;
        let mut i: usize = 0;
        while i < size
            invariant
                blen == buffer@.len(),
                index + size <= buffer@.len(),
                i <= size,
                value == be_usize(buffer@.subrange(index as int, index + i)),
            decreases size - i,
        {
            proof {
                assert(buffer@.subrange(index as int, index + i + 1) =~= buffer@.subrange(
                    index as int,
                    index + i,
                ).push(buffer@[index + i]));
                lemma_be_usize_step(buffer@.subrange(index as int, index + i), buffer@[index + i]);
            }
            value = (value << 8) | buffer[index + i] as usize;
            i = i + 1;
        }
        Ok(value)
    }

    /// Produce a big-endian byte buffer for an integer.
    fn get_buffer_from_num(value: usize, size: usize) -> (r: Result<Vec<u8>, ProtocolError>)
        requires
            8 * size <= usize::BITS,
        ensures
            r matches Ok(v) && v@ == be_bytes(value, size as nat),
    {
        let mut buffer: Vec<u8> = vec![0u8; size];
        let mut i: usize = 0;
        while i < size
            invariant
                8 * size <= usize::BITS,
                i <= size,
                buffer@.len() == size,
                forall|j: int|
                    size - i <= j < size ==> #[trigger] buffer@[j] == (value >> ((8 * (size - 1
                        - j)) as usize)) as u8,
            decreases size - i,
        {
            buffer.set(size - 1 - i, (value >> (8 * i)) as u8);
            i = i + 1;
        }
        proof {
            assert(buffer@ =~= be_bytes(value, size as nat));
        }
        Ok(buffer)
    }
}

/// Whether the occurrences of `b` in `s` stand together, with no other byte
/// between two of them.
pub open spec fn occurs_together(s: Seq<u8>, b: u8) -> bool {
    forall|i: int, j: int, k: int|
        0 <= i < j < k < s.len() && #[trigger] s[i] == b && #[trigger] s[k] == b ==> #[trigger] s[j]
            == b
}

/// The first position at or after `j` that does not hold `b`, or the end.
spec fn run_end(s: Seq<u8>, b: u8, j: int) -> int
    decreases s.len() - j,
{
    if j >= s.len() {
        s.len() as int
    } else if j < 0 || s[j] != b {
        j
    } else {
        run_end(s, b, j + 1)
    }
}

proof fn lemma_run_end(s: Seq<u8>, b: u8, j: int)
    requires
        0 <= j <= s.len(),
    ensures
        j <= run_end(s, b, j) <= s.len(),
        forall|x: int| j <= x < run_end(s, b, j) ==> s[x] == b,
        run_end(s, b, j) < s.len() ==> s[run_end(s, b, j)] != b,
    decreases s.len() - j,
{
    if j < s.len() && s[j] == b {
        lemma_run_end(s, b, j + 1);
    }
}

proof fn lemma_count_prefix(s: Seq<u8>, b: u8, f: int, g: int, k: int)
    requires
        0 <= f <= g <= s.len(),
        0 <= k <= s.len(),
        forall|x: int| 0 <= x < s.len() ==> (s[x] == b <==> f <= x < g),
    ensures
        count_byte(s.take(k), b) == if k <= f {
            0
        } else if k <= g {
            k - f
        } else {
            g - f
        },
    decreases k,
{
    if k > 0 {
        lemma_count_prefix(s, b, f, g, k - 1);
        assert(s.take(k).drop_last() =~= s.take(k - 1));
        assert(s.take(k).last() == s[k - 1]);
    } else {
        assert(s.take(0).len() == 0);
    }
}

/// A byte that occurs, and occurs together, fills exactly the block from its
/// first occurrence as long as it occurs.
proof fn lemma_letter_block(s: Seq<u8>, b: u8)
    requires
        occurs_together(s, b),
        first_index_of(s, b) >= 0,
    ensures
        forall|x: int|
            0 <= x < s.len() ==> (s[x] == b <==> first_index_of(s, b) <= x < first_index_of(s, b)
                + count_byte(s, b)),
        first_index_of(s, b) + count_byte(s, b) <= s.len(),
        count_byte(s, b) >= 1,
{
    lemma_first_index_of(s, b);
    let f = first_index_of(s, b);
    lemma_run_end(s, b, f);
    let g = run_end(s, b, f);
    assert(g > f);
    assert forall|x: int| 0 <= x < s.len() implies (s[x] == b <==> f <= x < g) by {
        if s[x] == b && x >= g {
            assert(s[f] == b);
            assert(f < g <= x);
            if g < x {
                assert(s[g] == b);
            }
        }
    }
    lemma_count_prefix(s, b, f, g, s.len() as int);
    assert(s.take(s.len() as int) =~= s);
}

proof fn lemma_pow2_byte(n: nat)
    requires
        n >= 1,
    ensures
        pow2(8 * n) >= 256,
{
    lemma2_to64();
    lemma_pow2_adds(8, (8 * n - 8) as nat);
    lemma_pow2_pos((8 * n - 8) as nat);
    assert(8 + (8 * n - 8) == 8 * n);
}

/// The bytes that `create_header` writes for a header, with a format read
/// from a format string, are as long as the header and parse back into that
/// header, when each letter of the string stands together, each field fits a
/// `usize`, the length and the id fit their fields, and the direction is that
/// of the id.
pub proof fn lemma_format_string_header_roundtrip(
    s: Seq<u8>,
    header: GProtocolV6PacketHeader,
    direction: PacketDirection,
)
    requires
        s.len() <= usize::MAX,
        header_format_of(s) is Some,
        occurs_together(s, 69),
        occurs_together(s, 73),
        occurs_together(s, 76),
        occurs_together(s, 84),
        fields_fit_usize(header_format_of(s)->0),
        (header.length as int) < pow2(8 * (header_format_of(s)->0).length_size as nat),
        (header.id.spec_value() as int) < pow2(8 * (header_format_of(s)->0).type_size as nat),
        direction == PacketDirection::Incoming <==> header.id is FromServer,
    ensures
        ({
            let fmt = header_format_of(s)->0;
            &&& spec_create_header(fmt, header).len() == fmt.header_length
            &&& spec_parse_header(fmt, direction, spec_create_header(fmt, header)) == Some(
                Ok::<GProtocolV6PacketHeader, ProtocolError>(header),
            )
        }),
{
    let fmt = header_format_of(s)->0;
    lemma_format_fields_in_header(s);
    lemma_format_fields_disjoint(s);
    lemma_letter_block(s, 69);
    lemma_letter_block(s, 73);
    lemma_pow2_byte(fmt.compression_size as nat);
    lemma_pow2_byte(fmt.checksum_size as nat);
    assert(header.compression.spec_value() <= 2) by {
        match header.compression {
            GCompressionTypeV6::CompressionNone => {},
            GCompressionTypeV6::CompressionZlib => {},
            GCompressionTypeV6::CompressionBzip2 => {},
        }
    }
    lemma_parse_create_header(fmt, header, direction);
}

proof fn lemma_count_after_first(s: Seq<u8>, b: u8, k: int)
    requires
        0 <= k <= s.len(),
        first_index_of(s, b) >= 0,
    ensures
        count_byte(s.take(k), b) <= if k <= first_index_of(s, b) { 0 } else { k - first_index_of(s, b) },
    decreases k,
{
    lemma_first_index_of(s, b);
    if k > 0 {
        lemma_count_after_first(s, b, k - 1);
        assert(s.take(k).drop_last() =~= s.take(k - 1));
        assert(s.take(k).last() == s[k - 1]);
    } else {
        assert(s.take(0).len() == 0);
    }
}

/// Every field of a format read from a format string lies inside the header.
pub proof fn lemma_format_fields_in_header(s: Seq<u8>)
    requires
        s.len() <= usize::MAX,
        header_format_of(s) is Some,
    ensures
        fields_in_header(header_format_of(s)->0),
{
    assert(s.take(s.len() as int) =~= s);
    lemma_first_index_of(s, 69);
    lemma_first_index_of(s, 73);
    lemma_first_index_of(s, 76);
    lemma_first_index_of(s, 84);
    lemma_count_after_first(s, 69, s.len() as int);
    lemma_count_after_first(s, 73, s.len() as int);
    lemma_count_after_first(s, 76, s.len() as int);
    lemma_count_after_first(s, 84, s.len() as int);
}

/// The fields of a format read from a format string whose letters each stand
/// together do not overlap.
pub proof fn lemma_format_fields_disjoint(s: Seq<u8>)
    requires
        s.len() <= usize::MAX,
        header_format_of(s) is Some,
        occurs_together(s, 69),
        occurs_together(s, 73),
        occurs_together(s, 76),
        occurs_together(s, 84),
    ensures
        fields_disjoint(header_format_of(s)->0),
{
    let fmt = header_format_of(s)->0;
    lemma_letter_block(s, 69);
    lemma_letter_block(s, 73);
    lemma_letter_block(s, 76);
    lemma_letter_block(s, 84);
    lemma_first_index_of(s, 69);
    lemma_first_index_of(s, 73);
    lemma_first_index_of(s, 76);
    lemma_first_index_of(s, 84);
    let ci = fmt.compression_index as int;
    let ki = fmt.checksum_index as int;
    let li = fmt.length_index as int;
    let ti = fmt.type_index as int;
    if !(ci + fmt.compression_size <= ki || ki + fmt.checksum_size <= ci) {
        let x = if ci <= ki { ki } else { ci };
        assert(s[x] == 69 && s[x] == 73);
    }
    if !(ci + fmt.compression_size <= li || li + fmt.length_size <= ci) {
        let x = if ci <= li { li } else { ci };
        assert(s[x] == 69 && s[x] == 76);
    }
    if !(ci + fmt.compression_size <= ti || ti + fmt.type_size <= ci) {
        let x = if ci <= ti { ti } else { ci };
        assert(s[x] == 69 && s[x] == 84);
    }
    if !(ki + fmt.checksum_size <= li || li + fmt.length_size <= ki) {
        let x = if ki <= li { li } else { ki };
        assert(s[x] == 73 && s[x] == 76);
    }
    if !(ki + fmt.checksum_size <= ti || ti + fmt.type_size <= ki) {
        let x = if ki <= ti { ti } else { ki };
        assert(s[x] == 73 && s[x] == 84);
    }
    if !(li + fmt.length_size <= ti || ti + fmt.type_size <= li) {
        let x = if li <= ti { ti } else { li };
        assert(s[x] == 76 && s[x] == 84);
    }
}

} // verus!
