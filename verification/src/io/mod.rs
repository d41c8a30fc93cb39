use vstd::prelude::*;
use vstd::arithmetic::power2::{pow2, lemma_pow2_pos, lemma_pow2_adds, lemma2_to64};
use vstd::bits::{lemma_u64_shl_is_mul, lemma_u64_pow2_no_overflow};
use vstd::arithmetic::mul::{lemma_mul_is_associative, lemma_mul_inequality, lemma_mul_nonnegative};
use vstd::arithmetic::div_mod::{lemma_fundamental_div_mod, lemma_mod_pos_bound};

/// Reading from and writing to in-memory Graal streams.
pub mod io_sync;
/// Conversions from byte buffers into Graal readers and writers.
pub mod io_vec;

verus! {

/// An error type for Graal IO operations.
#[derive(Debug)]
pub enum GraalIoError {
    /// The value exceeds the maximum for a Graal-encoded integer (the value, the maximum).
    ValueExceedsMaximum(u64, u64),
    /// The stream ended before the requested bytes could be read.
    UnexpectedEof,
    /// The delimiter was not found before the end of the stream.
    ByteNotFound(u8),
    /// A Graal-encoded integer of this many bytes is not supported.
    UnsupportedByteCount(usize),
}

/// The maximum value for a graal-encoded gu8.
pub const GUINT8_MAX: u64 = 0xDF;
/// The maximum value for a graal-encoded gu16.
pub const GUINT16_MAX: u64 = 0x705F;
/// The maximum value for a graal-encoded gu24.
pub const GUINT24_MAX: u64 = 0x38305F;
/// The maximum value for a graal-encoded gu32.
pub const GUINT32_MAX: u64 = 0x1C18305F;
/// The maximum value for a graal-encoded gu40.
pub const GUINT40_MAX: u64 = 0xFFFFFFFF;

/// A helper for encoding and decoding Graal values.
pub struct GraalCodec;

/// Every byte of `s` lies in the printable range that the Graal encoding uses.
pub open spec fn all_graal_bytes(s: Seq<u8>) -> bool {
    forall|i: int| 0 <= i < s.len() ==> 32 <= #[trigger] s[i]
}

/// The number a Graal-encoded byte string stands for: each byte carries the
/// digit `byte - 32` in base 128, most significant first.
pub open spec fn graal_value(s: Seq<u8>) -> int
    decreases s.len(),
{
    if s.len() == 0 {
        0
    } else {
        graal_value(s.drop_last()) * 128 + (s.last() - 32)
    }
}

/// The `n`-byte Graal encoding of the low `7 * n` bits of `v`.
pub open spec fn graal_encoding(v: u64, n: nat) -> Seq<u8>
    decreases n,
{
    if n == 0 {
        Seq::empty()
    } else {
        graal_encoding(v >> 7u64, (n - 1) as nat).push(((v & 0x7F) + 32) as u8)
    }
}

/// The largest value that `n` Graal digits hold when each digit is at most
/// 223 (its byte at most 255): 223 in each place.
pub open spec fn gu_capacity(n: nat) -> int
    decreases n,
{
    if n == 0 {
        0
    } else {
        223 * pow2((7 * (n - 1)) as nat) + gu_capacity((n - 1) as nat)
    }
}

/// The bytes that a writer puts down for an `n`-byte Graal integer, most
/// significant digit first: each digit but the last is as large as it can be,
/// at most 223 (byte 255), and the last takes what remains. So a gu8 is the
/// byte `v + 32`, and every value up to `gu_capacity(n)` (which the `GUINT*_MAX`
/// maxima do not exceed) is written in digits that read back as it.
pub open spec fn gu_encoding(v: u64, n: nat) -> Seq<u8>
    decreases n,
{
    if n == 0 {
        Seq::empty()
    } else if n == 1 {
        seq![(v + 32) as u8]
    } else {
        let unit = pow2((7 * (n - 1)) as nat) as int;
        let top: int = if (v as int) / unit <= 223 {
            (v as int) / unit
        } else {
            223
        };
        seq![(top + 32) as u8] + gu_encoding((v - top * unit) as u64, (n - 1) as nat)
    }
}

proof fn lemma_capacity_covers(k: nat)
    ensures
        gu_capacity(k) >= pow2(7 * k) - 1,
    decreases k,
{
    lemma2_to64();
    if k > 0 {
        lemma_capacity_covers((k - 1) as nat);
        let e = (7 * (k - 1)) as nat;
        lemma_pow2_adds(e, 7);
        assert(e + 7 == 7 * k);
        lemma_pow2_pos(e);
    }
}

/// What remains after the first digit of `gu_encoding(v, n)` fits the other
/// `n - 1` digits.
pub proof fn lemma_gu_rest(v: u64, n: nat)
    requires
        n >= 2,
        v <= gu_capacity(n),
    ensures
        ({
            let unit = pow2((7 * (n - 1)) as nat) as int;
            let top: int = if (v as int) / unit <= 223 { (v as int) / unit } else { 223 };
            &&& unit > 0
            &&& 0 <= top <= 223
            &&& 0 <= v - top * unit <= gu_capacity((n - 1) as nat)
            &&& v - top * unit <= v
        }),
{
    let unit = pow2((7 * (n - 1)) as nat) as int;
    let vi = v as int;
    lemma_pow2_pos((7 * (n - 1)) as nat);
    lemma_capacity_covers((n - 1) as nat);
    lemma_fundamental_div_mod(vi, unit);
    lemma_mod_pos_bound(vi, unit);
    let q = vi / unit;
    assert(q >= 0) by (nonlinear_arith)
        requires
            vi >= 0,
            unit > 0,
            q == vi / unit,
    ;
    if q <= 223 {
        assert(vi - q * unit == vi % unit) by (nonlinear_arith)
            requires
                vi == unit * q + vi % unit,
        ;
        assert(q * unit >= 0) by (nonlinear_arith)
            requires
                q >= 0,
                unit > 0,
        ;
    } else {
        assert(unit * q >= unit * 224) by (nonlinear_arith)
            requires
                q >= 224,
                unit > 0,
        ;
    }
}

/// Every value up to `gu_capacity(n)` is written in `n` Graal digits that
/// read back as it.
pub proof fn lemma_gu_encoding(v: u64, n: nat)
    requires
        n >= 1,
        v <= gu_capacity(n),
    ensures
        gu_encoding(v, n).len() == n,
        all_graal_bytes(gu_encoding(v, n)),
        graal_value(gu_encoding(v, n)) == v,
    decreases n,
{
    let e = gu_encoding(v, n);
    if n == 1 {
        lemma2_to64();
        assert(gu_capacity(1) == 223);
        reveal_with_fuel(graal_value, 2);
        assert(e.drop_last().len() == 0);
    } else {
        lemma_gu_rest(v, n);
        let unit = pow2((7 * (n - 1)) as nat) as int;
        let top: int = if (v as int) / unit <= 223 { (v as int) / unit } else { 223 };
        let rest = (v - top * unit) as u64;
        lemma_gu_encoding(rest, (n - 1) as nat);
        let tail = gu_encoding(rest, (n - 1) as nat);
        assert(e == seq![(top + 32) as u8] + tail);
        assert(e.drop_first() =~= tail);
        lemma_graal_value_first(e);
        assert(e[0] == (top + 32) as u8);
        assert(all_graal_bytes(e)) by {
            assert forall|i: int| 0 <= i < e.len() implies 32 <= #[trigger] e[i] by {
                if i > 0 {
                    assert(e[i] == tail[i - 1]);
                }
            }
        }
    }
}

/// The maximum of each supported Graal integer fits its digits.
pub proof fn lemma_graal_max_fits(n: nat)
    requires
        1 <= n <= 5,
    ensures
        (if n == 1 {
            GUINT8_MAX
        } else if n == 2 {
            GUINT16_MAX
        } else if n == 3 {
            GUINT24_MAX
        } else if n == 4 {
            GUINT32_MAX
        } else {
            GUINT40_MAX
        }) <= gu_capacity(n),
{
    lemma2_to64();
    reveal_with_fuel(gu_capacity, 6);
}

proof fn lemma_graal_value_nonneg(s: Seq<u8>)
    requires
        all_graal_bytes(s),
    ensures
        graal_value(s) >= 0,
    decreases s.len(),
{
    if s.len() > 0 {
        assert(all_graal_bytes(s.drop_last()));
        lemma_graal_value_nonneg(s.drop_last());
    }
}

/// The value of a Graal string split into its first digit and the rest.
proof fn lemma_graal_value_first(s: Seq<u8>)
    requires
        s.len() > 0,
    ensures
        graal_value(s) == (s[0] - 32) * pow2((7 * (s.len() - 1)) as nat) + graal_value(s.drop_first()),
    decreases s.len(),
{
    if s.len() == 1 {
        assert(s.drop_last().len() == 0);
        assert(s.drop_first().len() == 0);
        lemma2_to64();
        assert(s.last() == s[0]);
        assert(graal_value(s.drop_last()) == 0);
        assert(graal_value(s.drop_first()) == 0);
        assert((7 * (s.len() - 1)) as nat == 0);
        assert(pow2(0) == 1);
        assert(graal_value(s) == s[0] - 32);
        assert((s[0] - 32) * pow2(0) == s[0] - 32);
    } else {
        let d = s.drop_last();
        lemma_graal_value_first(d);
        assert(d.drop_first() =~= s.drop_first().drop_last());
        assert(s.drop_first().last() == s.last());
        let e = (7 * (d.len() - 1)) as nat;
        lemma_pow2_adds(e, 7);
        lemma2_to64();
        assert((7 * (s.len() - 1)) as nat == e + 7);
        lemma_mul_is_associative(d[0] - 32, pow2(e) as int, 128);
        assert(d[0] == s[0]);
        assert(graal_value(s.drop_first()) == graal_value(d.drop_first()) * 128 + (s.last() - 32));
        assert(graal_value(s) == graal_value(d) * 128 + (s.last() - 32));
        assert(pow2(e + 7) == pow2(e) * 128);
        assert((d[0] - 32) * pow2(e + 7) == ((d[0] - 32) * pow2(e)) * 128);
    }
}

proof fn lemma_graal_value_bound(s: Seq<u8>)
    requires
        all_graal_bytes(s),
        s.len() > 0,
    ensures
        (s[0] - 32) * pow2((7 * (s.len() - 1)) as nat) <= graal_value(s),
        graal_value(s.drop_first()) <= graal_value(s),
        0 <= (s[0] - 32) * pow2((7 * (s.len() - 1)) as nat),
{
    lemma_graal_value_first(s);
    assert(all_graal_bytes(s.drop_first()));
    lemma_graal_value_nonneg(s.drop_first());
    lemma_pow2_pos((7 * (s.len() - 1)) as nat);
    lemma_mul_nonnegative(s[0] - 32, pow2((7 * (s.len() - 1)) as nat) as int);
}


proof fn lemma_shr_then_shr(v: u64, s: u64)
    by (bit_vector)
    requires
        s <= 63,
    ensures
        (v >> s) >> 7u64 == v >> ((s + 7) as u64),
{
}

proof fn lemma_chunk_agrees(value: u64, v: u64, s: u64)
    by (bit_vector)
    requires
        s + 7 <= 63,
        value & !(0xffff_ffff_ffff_ffffu64 << ((s + 7) as u64)) == v & !(0xffff_ffff_ffff_ffffu64 << ((s + 7) as u64)),
    ensures
        (value >> s) & 0x7F == (v >> s) & 0x7F,
{
}

proof fn lemma_chunk_removed(value: u64, s: u64)
    by (bit_vector)
    requires
        s <= 63,
    ensures
        ((value >> s) & 0x7F) << s <= value,
        (value - (((value >> s) & 0x7F) << s)) as u64 & !(0xffff_ffff_ffff_ffffu64 << s) == value & !(0xffff_ffff_ffff_ffffu64 << s),
{
}

proof fn lemma_low_mask_narrows(x: u64, y: u64, s: u64)
    by (bit_vector)
    requires
        s + 7 <= 63,
        x & !(0xffff_ffff_ffff_ffffu64 << ((s + 7) as u64)) == y & !(0xffff_ffff_ffff_ffffu64 << ((s + 7) as u64)),
    ensures
        x & !(0xffff_ffff_ffff_ffffu64 << s) == y & !(0xffff_ffff_ffff_ffffu64 << s),
{
}

proof fn lemma_chunk_small(x: u64)
    by (bit_vector)
    ensures
        x & 0x7F <= 0x7F,
        (x >> 7u64) * 128 + (x & 0x7F) == x,
{
}

/// Every byte of a Graal encoding is a printable Graal digit, at most 159,
/// and the encoding has exactly the requested length.
pub proof fn lemma_encoding_shape(v: u64, n: nat)
    ensures
        graal_encoding(v, n).len() == n,
        all_graal_bytes(graal_encoding(v, n)),
        forall|i: int| 0 <= i < n ==> #[trigger] graal_encoding(v, n)[i] <= 159,
    decreases n,
{
    if n > 0 {
        lemma_encoding_shape(v >> 7u64, (n - 1) as nat);
        lemma_chunk_small(v);
    }
}

/// Decoding what `encode_bits` produced gives the value back, for every value
/// that fits in the `7 * n` bits that `n` Graal digits carry.
pub proof fn lemma_decode_encode(v: u64, n: nat)
    requires
        (v as int) < pow2(7 * n),
    ensures
        graal_value(graal_encoding(v, n)) == v,
    decreases n,
{
    lemma_chunk_small(v);
    if n == 0 {
        lemma2_to64();
    } else {
        let p = pow2((7 * (n - 1)) as nat);
        lemma_pow2_adds((7 * (n - 1)) as nat, 7);
        lemma2_to64();
        assert(7 * n == 7 * (n - 1) + 7);
        lemma_pow2_pos((7 * (n - 1)) as nat);
        assert((v >> 7u64) * 128 <= v);
        assert((v >> 7u64) < p) by (nonlinear_arith)
            requires
                (v as int) < p * 128,
                (v >> 7u64) * 128 <= v,
                p > 0,
        ;
        lemma_decode_encode(v >> 7u64, (n - 1) as nat);
        let e = graal_encoding(v, n);
        assert(e.drop_last() =~= graal_encoding(v >> 7u64, (n - 1) as nat));
    }
}


proof fn lemma_graal_value_scaled_bound(s: Seq<u8>)
    requires
        all_graal_bytes(s),
    ensures
        graal_value(s) * 127 <= 223 * (pow2(7 * s.len()) - 1),
    decreases s.len(),
{
    lemma2_to64();
    if s.len() > 0 {
        let d = s.drop_last();
        assert(all_graal_bytes(d));
        lemma_graal_value_scaled_bound(d);
        lemma_pow2_adds(7 * d.len(), 7);
        assert(7 * s.len() == 7 * d.len() + 7);
        let g = graal_value(d);
        let p = pow2(7 * d.len()) as int;
        let c = s.last() - 32;
        assert(0 <= c <= 223);
        assert(graal_value(s) == g * 128 + c);
        assert((g * 128 + c) * 127 <= 223 * (p * 128 - 1)) by (nonlinear_arith)
            requires
                g * 127 <= 223 * (p - 1),
                0 <= c <= 223,
        ;
    }
}

/// A Graal string of at most nine bytes decodes to a value that fits in a `u64`.
pub proof fn lemma_graal_value_small(s: Seq<u8>)
    requires
        all_graal_bytes(s),
        s.len() <= 9,
    ensures
        0 <= graal_value(s) <= u64::MAX,
{
    lemma_graal_value_nonneg(s);
    lemma_graal_value_scaled_bound(s);
    lemma2_to64();
    vstd::arithmetic::power2::lemma2_to64_rest();
    if 7 * s.len() < 63 {
        vstd::arithmetic::power2::lemma_pow2_strictly_increases(7 * s.len(), 63);
    }
    let g = graal_value(s);
    let p = pow2(7 * s.len()) as int;
    assert(p <= 0x8000_0000_0000_0000);
    assert(g <= u64::MAX) by (nonlinear_arith)
        requires
            g * 127 <= 223 * (p - 1),
            p <= 0x8000_0000_0000_0000,
    ;
}

impl GraalCodec {
    /// Encodes a value into a Graal-encoded byte vector of length `byte_count`.
    pub fn encode_bits(value: u64, byte_count: usize) -> (buffer: Vec<u8>)
        requires
            byte_count <= 10,
        ensures
            buffer@ == graal_encoding(value, byte_count as nat),
    {
        let ghost v = value;
        let mut value = value;
        let n = byte_count;
        let mut buffer: Vec<u8> = Vec::with_capacity(byte_count);
        let mut i: usize = 0;
        while i < n
            invariant
                n <= 10,
                i <= n,
                buffer@ == graal_encoding(v >> ((7 * (n - i)) as u64), i as nat),
                i == 0 ==> value == v,
                i > 0 ==> value & !(0xffff_ffff_ffff_ffffu64 << ((7 * (n - i)) as u64)) == v & !(0xffff_ffff_ffff_ffffu64 << ((7 * (n - i)) as u64)),
            decreases n - i,
        {
            let shift: usize = 7 * (n - 1 - i);
            let s: u64 = shift as u64;
            let chunk: u64 = (value >> s) & 0x7F;
            proof {
                lemma_chunk_small(value >> s);
                if i > 0 {
                    lemma_chunk_agrees(value, v, s);
                }
                lemma_shr_then_shr(v, s);
                assert(((7 * (n - i)) as u64) == ((s + 7) as u64));
                lemma_chunk_small(v >> s);
                lemma_chunk_removed(value, s);
                if i > 0 {
                    lemma_low_mask_narrows(value, v, s);
                }
            }
            buffer.push((chunk as u8) + 32);
            let old_value = value;
            value = value - (chunk << s);
            proof {
                assert(((7 * (n - (i + 1))) as u64) == s);
                assert(value & !(0xffff_ffff_ffff_ffffu64 << s) == old_value & !(0xffff_ffff_ffff_ffffu64 << s));
            }
            i = i + 1;
        }
        proof {
            assert(((7 * (n - i)) as u64) == 0u64);
            assert(v >> 0u64 == v) by (bit_vector);
        }
        buffer
    }

    /// Decodes a slice of bytes using the Graal encoding.
    pub fn decode_bits(slice: &[u8]) -> (value: u64)
        requires
            slice@.len() <= 10,
            all_graal_bytes(slice@),
            graal_value(slice@) <= u64::MAX,
        ensures
            value == graal_value(slice@),
    {
        let n = slice.len();
        let mut value: u64 = 0;
        let mut i: usize = 0;
        proof {
            assert(slice@.skip(0) =~= slice@);
        }
        while i < n
            invariant
                n == slice@.len(),
                n <= 10,
                i <= n,
                all_graal_bytes(slice@),
                graal_value(slice@) <= u64::MAX,
                value + graal_value(slice@.skip(i as int)) == graal_value(slice@),
            decreases n - i,
        {
            let byte = slice[i];
            let chunk: u64 = (byte - 32) as u64;
            let shift: usize = 7 * (n - 1 - i);
            proof {
                let rest = slice@.skip(i as int);
                assert(all_graal_bytes(rest));
                assert(rest[0] == byte);
                assert(rest.drop_first() =~= slice@.skip(i + 1));
                assert(rest.len() == n - i);
                lemma_graal_value_bound(rest);
                lemma_graal_value_first(rest);
                lemma_graal_value_nonneg(slice@.skip(i + 1));
                assert(all_graal_bytes(slice@.skip(i + 1)));
                lemma_u64_shl_is_mul(chunk, shift as u64);
            }
            value = value + (chunk << (shift as u64));
            i = i + 1;
        }
        proof {
            assert(slice@.skip(n as int).len() == 0);
        }
        value
    }
}


/// The characters that the Latin-1 reading of `bytes` gives: one per byte.
pub open spec fn latin1_chars(bytes: Seq<u8>) -> Seq<char> {
    bytes.map_values(|b: u8| b as char)
}

/// `String::push`: appends one character.
#[verifier::external_body]
fn string_push(s: &mut String, c: char)
    ensures
        final(s)@ == old(s)@.push(c),
{
    s.push(c);
}

/// Builds a string with one character per byte, each byte read as Latin-1.
pub(crate) fn latin1_to_string(bytes: &[u8]) -> (s: String)
    ensures
        s@ == latin1_chars(bytes@),
{
    let mut s = String::new();
    let mut i: usize = 0;
    while i < bytes.len()
        invariant
            i <= bytes@.len(),
            s@ == latin1_chars(bytes@.take(i as int)),
        decreases bytes@.len() - i,
    {
        let c = bytes[i] as char;
        string_push(&mut s, c);
        i = i + 1;
        proof {
            assert(latin1_chars(bytes@.take(i as int)) =~= latin1_chars(bytes@.take(i - 1)).push(
                bytes@[i - 1] as char,
            ));
        }
    }
    proof {
        assert(bytes@.take(i as int) =~= bytes@);
    }
    s
}

/// Copies the bytes of a slice into a new vector.
pub(crate) fn bytes_to_vec(bytes: &[u8]) -> (v: Vec<u8>)
    ensures
        v@ == bytes@,
{
    let mut v: Vec<u8> = Vec::with_capacity(bytes.len());
    let mut i: usize = 0;
    while i < bytes.len()
        invariant
            i <= bytes@.len(),
            v@ == bytes@.take(i as int),
        decreases bytes@.len() - i,
    {
        v.push(bytes[i]);
        i = i + 1;
        proof {
            assert(v@ =~= bytes@.take(i as int));
        }
    }
    proof {
        assert(bytes@.take(i as int) =~= bytes@);
    }
    v
}

} // verus!
