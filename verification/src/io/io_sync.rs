use vstd::prelude::*;
use vstd::string::StringSliceAdditionalSpecFns;
use vstd::arithmetic::power2::{pow2, lemma_pow2_adds, lemma2_to64};
use vstd::utf8::{encode_utf8, is_ascii_chars, is_ascii_chars_encode_utf8, is_ascii_chars_nat_bound};

use crate::io::{
    GUINT8_MAX, GUINT16_MAX, GUINT24_MAX, GUINT32_MAX, GUINT40_MAX, GraalCodec, GraalIoError,
    all_graal_bytes, graal_value, graal_encoding, gu_capacity, gu_encoding, latin1_chars,
    latin1_to_string, lemma_decode_encode, lemma_encoding_shape, lemma_graal_max_fits,
    lemma_graal_value_small, lemma_gu_encoding, lemma_gu_rest,
};

verus! {

/// The index of the first occurrence of `b` in `s`, or -1 when `b` does not occur.
pub open spec fn first_index_of(s: Seq<u8>, b: u8) -> int
    decreases s.len(),
{
    if s.len() == 0 {
        -1
    } else if s[0] == b {
        0
    } else {
        let k = first_index_of(s.drop_first(), b);
        if k < 0 {
            -1
        } else {
            k + 1
        }
    }
}

/// `first_index_of` finds the first occurrence, and reports -1 exactly when there is none.
pub proof fn lemma_first_index_of(s: Seq<u8>, b: u8)
    ensures
        -1 <= first_index_of(s, b) < s.len(),
        first_index_of(s, b) >= 0 ==> s[first_index_of(s, b)] == b,
        forall|j: int| 0 <= j < first_index_of(s, b) ==> s[j] != b,
        first_index_of(s, b) == -1 ==> forall|j: int| 0 <= j < s.len() ==> s[j] != b,
    decreases s.len(),
{
    if s.len() > 0 && s[0] != b {
        lemma_first_index_of(s.drop_first(), b);
        assert forall|j: int| 0 <= j < first_index_of(s, b) implies s[j] != b by {
            if j > 0 {
                assert(s[j] == s.drop_first()[j - 1]);
            }
        }
        if first_index_of(s, b) == -1 {
            assert forall|j: int| 0 <= j < s.len() implies s[j] != b by {
                if j > 0 {
                    assert(s[j] == s.drop_first()[j - 1]);
                }
            }
        }
    }
}

/// A position at which `b` occurs with no earlier occurrence is what `first_index_of` reports.
pub proof fn lemma_first_index_of_unique(s: Seq<u8>, b: u8, k: int)
    requires
        0 <= k < s.len(),
        s[k] == b,
        forall|j: int| 0 <= j < k ==> s[j] != b,
    ensures
        first_index_of(s, b) == k,
{
    lemma_first_index_of(s, b);
    if first_index_of(s, b) == -1 {
        assert(s[k] != b);
    }
}

/// The big-endian value of two bytes.
pub open spec fn be_u16(b0: u8, b1: u8) -> u16 {
    (b0 as int * 256 + b1 as int) as u16
}

/// The big-endian value of four bytes.
pub open spec fn be_u32(b0: u8, b1: u8, b2: u8, b3: u8) -> u32 {
    (b0 as int * 0x1000000 + b1 as int * 0x10000 + b2 as int * 0x100 + b3 as int) as u32
}

/// A synchronous Graal reader over bytes held in memory.
pub struct SyncGraalReader {
    data: Vec<u8>,
    pos: usize,
}

impl SyncGraalReader {
    #[verifier::type_invariant]
    spec fn position_in_bounds(self) -> bool {
        self.pos <= self.data@.len()
    }
}

impl View for SyncGraalReader {
    /// The bytes that have not been read yet.
    type V = Seq<u8>;

    closed spec fn view(&self) -> Seq<u8> {
        self.data@.subrange(self.pos as int, self.data@.len() as int)
    }
}

/// What the Graal reads of `n` bytes from `s` need to decode without overflow.
pub open spec fn graal_readable(s: Seq<u8>, n: nat) -> bool {
    s.len() >= n ==> {
        &&& n <= 10
        &&& all_graal_bytes(s.take(n as int))
        &&& graal_value(s.take(n as int)) <= u64::MAX
    }
}

impl SyncGraalReader {
    /// Constructs a reader over the given bytes.
    pub fn from_reader(inner: Vec<u8>) -> (reader: Self)
        ensures
            reader@ == inner@,
    {
        let reader = Self { data: inner, pos: 0 };
        proof {
            assert(reader@ =~= inner@);
        }
        reader
    }

    /// Whether bytes remain to be read.
    pub fn has_remaining(&self) -> (r: bool)
        ensures
            r == (self@.len() > 0),
    {
        proof {
            use_type_invariant(self);
        }
        self.pos < self.data.len()
    }

    /// Copies the data between two positions.
    fn copy_range(&self, start: usize, end: usize) -> (v: Vec<u8>)
        requires
            start <= end <= self.data@.len(),
        ensures
            v@ == self.data@.subrange(start as int, end as int),
    {
        let mut buffer: Vec<u8> = Vec::with_capacity(end - start);
        let mut i: usize = start;
        while i < end
            invariant
                start <= i <= end <= self.data@.len(),
                buffer@ == self.data@.subrange(start as int, i as int),
            decreases end - i,
        {
            buffer.push(self.data[i]);
            i = i + 1;
            proof {
                assert(buffer@ =~= self.data@.subrange(start as int, i as int));
            }
        }
        buffer
    }

    /// Reads exactly `n` bytes. When fewer remain, all of them are consumed
    /// and `UnexpectedEof` is returned.
    pub fn read_exact(&mut self, n: usize) -> (r: Result<Vec<u8>, GraalIoError>)
        ensures
            match r {
                Ok(v) => {
                    &&& n <= old(self)@.len()
                    &&& v@ == old(self)@.take(n as int)
                    &&& final(self)@ == old(self)@.skip(n as int)
                },
                Err(e) => {
                    &&& n > old(self)@.len()
                    &&& e == GraalIoError::UnexpectedEof
                    &&& final(self)@ == Seq::<u8>::empty()
                },
            },
    {
        proof {
            use_type_invariant(&*self);
        }
        let ghost start = self@;
        let available = self.data.len() - self.pos;
        if n > available {
            self.pos = self.data.len();
            proof {
                assert(self@ =~= Seq::<u8>::empty());
            }
            return Err(GraalIoError::UnexpectedEof);
        }
        let end = self.pos + n;
        let buffer = self.copy_range(self.pos, end);
        self.pos = end;
        proof {
            assert(buffer@ =~= start.take(n as int));
            assert(self@ =~= start.skip(n as int));
        }
        Ok(buffer)
    }

    /// Reads everything that remains.
    pub fn read_to_end(&mut self) -> (r: Result<Vec<u8>, GraalIoError>)
        ensures
            r matches Ok(v) && v@ == old(self)@,
            final(self)@ == Seq::<u8>::empty(),
    {
        proof {
            use_type_invariant(&*self);
        }
        let n = self.data.len() - self.pos;
        let r = self.read_exact(n);
        proof {
            assert(old(self)@.take(n as int) =~= old(self)@);
            assert(old(self)@.skip(n as int) =~= Seq::<u8>::empty());
        }
        r
    }

    /// Scans for `delimiter` from the current position; returns its index in
    /// the data, or the data's length when it does not occur.
    fn scan_for(&self, delimiter: u8) -> (k: usize)
        ensures
            self.pos <= k <= self.data@.len(),
            k < self.data@.len() ==> first_index_of(self@, delimiter) == k - self.pos,
            k == self.data@.len() ==> first_index_of(self@, delimiter) == -1,
    {
        proof {
            use_type_invariant(self);
        }
        let mut k = self.pos;
        while k < self.data.len() && self.data[k] != delimiter
            invariant
                self.pos <= k <= self.data@.len(),
                forall|j: int| self.pos <= j < k ==> self.data@[j] != delimiter,
            decreases self.data@.len() - k,
        {
            k = k + 1;
        }
        proof {
            let s = self@;
            assert forall|j: int| 0 <= j < k - self.pos implies s[j] != delimiter by {
                assert(s[j] == self.data@[self.pos + j]);
            }
            if k < self.data.len() {
                assert(s[k - self.pos] == self.data@[k as int]);
                lemma_first_index_of_unique(s, delimiter, k - self.pos);
            } else {
                lemma_first_index_of(s, delimiter);
                if first_index_of(s, delimiter) >= 0 {
                    assert(s[first_index_of(s, delimiter)] != delimiter);
                }
            }
        }
        k
    }

    /// Reads until the specified delimiter is found (the delimiter is consumed but
    /// not returned). When it does not occur, everything is consumed and
    /// `ByteNotFound` is returned.
    pub fn read_until(&mut self, delimiter: u8) -> (r: Result<Vec<u8>, GraalIoError>)
        ensures
            ({
                let k = first_index_of(old(self)@, delimiter);
                match r {
                    Ok(v) => {
                        &&& k >= 0
                        &&& v@ == old(self)@.take(k)
                        &&& final(self)@ == old(self)@.skip(k + 1)
                    },
                    Err(e) => {
                        &&& k == -1
                        &&& e == GraalIoError::ByteNotFound(delimiter)
                        &&& final(self)@ == Seq::<u8>::empty()
                    },
                }
            }),
    {
        proof {
            use_type_invariant(&*self);
            lemma_first_index_of(self@, delimiter);
        }
        let k = self.scan_for(delimiter);
        if k == self.data.len() {
            self.pos = k;
            proof {
                assert(self@ =~= Seq::<u8>::empty());
            }
            return Err(GraalIoError::ByteNotFound(delimiter));
        }
        let ghost n = k - self.pos;
        let v = self.copy_range(self.pos, k);
        self.pos = k + 1;
        proof {
            assert(v@ =~= old(self)@.take(n));
            assert(self@ =~= old(self)@.skip(n + 1));
        }
        Ok(v)
    }

    /// Reads until the delimiter (consumed, not returned), or everything that
    /// remains when the delimiter does not occur.
    pub fn read_until_or_end(&mut self, delimiter: u8) -> (v: Vec<u8>)
        ensures
            ({
                let k = first_index_of(old(self)@, delimiter);
                if k >= 0 {
                    &&& v@ == old(self)@.take(k)
                    &&& final(self)@ == old(self)@.skip(k + 1)
                } else {
                    &&& v@ == old(self)@
                    &&& final(self)@ == Seq::<u8>::empty()
                }
            }),
    {
        proof {
            use_type_invariant(&*self);
            lemma_first_index_of(self@, delimiter);
        }
        let k = self.scan_for(delimiter);
        let ghost n = k - self.pos;
        let v = self.copy_range(self.pos, k);
        if k < self.data.len() {
            self.pos = k + 1;
            proof {
                assert(v@ =~= old(self)@.take(n));
                assert(self@ =~= old(self)@.skip(n + 1));
            }
        } else {
            self.pos = k;
            proof {
                assert(v@ =~= old(self)@);
                assert(self@ =~= Seq::<u8>::empty());
            }
        }
        v
    }

    /// Reads a null-terminated string, each byte read as one Latin-1 character;
    /// returns the string and its length in bytes.
    pub fn read_string(&mut self) -> (r: Result<(String, u32), GraalIoError>)
        ensures
            ({
                let k = first_index_of(old(self)@, 0);
                match r {
                    Ok((s, len)) => {
                        &&& k >= 0
                        &&& s@ == latin1_chars(old(self)@.take(k))
                        &&& len == k as u32
                        &&& final(self)@ == old(self)@.skip(k + 1)
                    },
                    Err(e) => {
                        &&& k == -1
                        &&& e == GraalIoError::ByteNotFound(0)
                        &&& final(self)@ == Seq::<u8>::empty()
                    },
                }
            }),
    {
        proof {
            lemma_first_index_of(old(self)@, 0);
        }
        match self.read_until(0) {
            Ok(bytes) => {
                let s = latin1_to_string(bytes.as_slice());
                let len = bytes.len() as u32;
                proof {
                    assert(len == (bytes@.len() as int) as u32);
                }
                Ok((s, len))
            },
            Err(e) => Err(e),
        }
    }

    /// Reads a Graal-encoded unsigned integer of `byte_count` bytes.
    pub fn read_gu(&mut self, byte_count: usize) -> (r: Result<u64, GraalIoError>)
        requires
            graal_readable(old(self)@, byte_count as nat),
        ensures
            match r {
                Ok(v) => {
                    &&& byte_count <= old(self)@.len()
                    &&& v == graal_value(old(self)@.take(byte_count as int))
                    &&& final(self)@ == old(self)@.skip(byte_count as int)
                },
                Err(e) => {
                    &&& byte_count > old(self)@.len()
                    &&& e == GraalIoError::UnexpectedEof
                    &&& final(self)@ == Seq::<u8>::empty()
                },
            },
    {
        let bytes = self.read_exact(byte_count)?;
        Ok(GraalCodec::decode_bits(bytes.as_slice()))
    }

    /// Reads a Graal-encoded unsigned integer with 1 byte.
    pub fn read_gu8(&mut self) -> (r: Result<u64, GraalIoError>)
        requires
            old(self)@.len() >= 1 ==> all_graal_bytes(old(self)@.take(1)),
        ensures
            match r {
                Ok(v) => {
                    &&& 1 <= old(self)@.len()
                    &&& v == graal_value(old(self)@.take(1))
                    &&& v == old(self)@[0] - 32
                    &&& final(self)@ == old(self)@.skip(1)
                },
                Err(e) => {
                    &&& old(self)@.len() == 0
                    &&& e == GraalIoError::UnexpectedEof
                    &&& final(self)@ == Seq::<u8>::empty()
                },
            },
    {
        proof {
            if self@.len() >= 1 {
                lemma_graal_value_small(self@.take(1));
                let t = self@.take(1);
                assert(t.drop_last().len() == 0);
                assert(graal_value(t.drop_last()) == 0);
                assert(t.last() == self@[0]);
            }
        }
        self.read_gu(1)
    }

    /// Reads a Graal-encoded unsigned integer with 2 bytes.
    pub fn read_gu16(&mut self) -> (r: Result<u64, GraalIoError>)
        requires
            old(self)@.len() >= 2 ==> all_graal_bytes(old(self)@.take(2)),
        ensures
            match r {
                Ok(v) => {
                    &&& 2 <= old(self)@.len()
                    &&& v == graal_value(old(self)@.take(2))
                    &&& final(self)@ == old(self)@.skip(2)
                },
                Err(e) => {
                    &&& old(self)@.len() < 2
                    &&& e == GraalIoError::UnexpectedEof
                    &&& final(self)@ == Seq::<u8>::empty()
                },
            },
    {
        proof {
            if self@.len() >= 2 {
                lemma_graal_value_small(self@.take(2));
            }
        }
        self.read_gu(2)
    }

    /// Reads a Graal-encoded unsigned integer with 3 bytes.
    pub fn read_gu24(&mut self) -> (r: Result<u64, GraalIoError>)
        requires
            old(self)@.len() >= 3 ==> all_graal_bytes(old(self)@.take(3)),
        ensures
            match r {
                Ok(v) => {
                    &&& 3 <= old(self)@.len()
                    &&& v == graal_value(old(self)@.take(3))
                    &&& final(self)@ == old(self)@.skip(3)
                },
                Err(e) => {
                    &&& old(self)@.len() < 3
                    &&& e == GraalIoError::UnexpectedEof
                    &&& final(self)@ == Seq::<u8>::empty()
                },
            },
    {
        proof {
            if self@.len() >= 3 {
                lemma_graal_value_small(self@.take(3));
            }
        }
        self.read_gu(3)
    }

    /// Reads a Graal-encoded unsigned integer with 4 bytes.
    pub fn read_gu32(&mut self) -> (r: Result<u64, GraalIoError>)
        requires
            old(self)@.len() >= 4 ==> all_graal_bytes(old(self)@.take(4)),
        ensures
            match r {
                Ok(v) => {
                    &&& 4 <= old(self)@.len()
                    &&& v == graal_value(old(self)@.take(4))
                    &&& final(self)@ == old(self)@.skip(4)
                },
                Err(e) => {
                    &&& old(self)@.len() < 4
                    &&& e == GraalIoError::UnexpectedEof
                    &&& final(self)@ == Seq::<u8>::empty()
                },
            },
    {
        proof {
            if self@.len() >= 4 {
                lemma_graal_value_small(self@.take(4));
            }
        }
        self.read_gu(4)
    }

    /// Reads a Graal-encoded unsigned integer with 5 bytes.
    pub fn read_gu40(&mut self) -> (r: Result<u64, GraalIoError>)
        requires
            old(self)@.len() >= 5 ==> all_graal_bytes(old(self)@.take(5)),
        ensures
            match r {
                Ok(v) => {
                    &&& 5 <= old(self)@.len()
                    &&& v == graal_value(old(self)@.take(5))
                    &&& final(self)@ == old(self)@.skip(5)
                },
                Err(e) => {
                    &&& old(self)@.len() < 5
                    &&& e == GraalIoError::UnexpectedEof
                    &&& final(self)@ == Seq::<u8>::empty()
                },
            },
    {
        proof {
            if self@.len() >= 5 {
                lemma_graal_value_small(self@.take(5));
            }
        }
        self.read_gu(5)
    }

    /// Reads a Graal-encoded string: a one-byte Graal length, then that many
    /// bytes, each read as one Latin-1 character.
    pub fn read_gstring(&mut self) -> (r: Result<String, GraalIoError>)
        requires
            old(self)@.len() >= 1 ==> old(self)@[0] >= 32,
        ensures
            ({
                let s = old(self)@;
                match r {
                    Ok(text) => {
                        &&& s.len() >= 1
                        &&& s.len() >= 1 + (s[0] - 32)
                        &&& text@ == latin1_chars(s.subrange(1, 1 + (s[0] - 32)))
                        &&& final(self)@ == s.skip(1 + (s[0] - 32))
                    },
                    Err(e) => {
                        &&& (s.len() == 0 || s.len() < 1 + (s[0] - 32))
                        &&& e == GraalIoError::UnexpectedEof
                        &&& final(self)@ == Seq::<u8>::empty()
                    },
                }
            }),
    {
        proof {
            if self@.len() >= 1 {
                assert(all_graal_bytes(self@.take(1)));
            }
        }
        let length = self.read_gu8()?;
        let ghost mid = self@;
        let bytes = self.read_exact(length as usize)?;
        proof {
            let s = old(self)@;
            assert(mid == s.skip(1));
            assert(bytes@ =~= s.subrange(1, 1 + (s[0] - 32)));
            assert(s.skip(1).skip(length as int) =~= s.skip(1 + (s[0] - 32)));
        }
        Ok(latin1_to_string(bytes.as_slice()))
    }

    /// Reads a single byte.
    pub fn read_u8(&mut self) -> (r: Result<u8, GraalIoError>)
        ensures
            match r {
                Ok(v) => {
                    &&& old(self)@.len() >= 1
                    &&& v == old(self)@[0]
                    &&& final(self)@ == old(self)@.skip(1)
                },
                Err(e) => {
                    &&& old(self)@.len() == 0
                    &&& e == GraalIoError::UnexpectedEof
                    &&& final(self)@ == Seq::<u8>::empty()
                },
            },
    {
        let bytes = self.read_exact(1)?;
        Ok(bytes[0])
    }

    /// Reads a big-endian unsigned 16-bit integer.
    pub fn read_u16(&mut self) -> (r: Result<u16, GraalIoError>)
        ensures
            match r {
                Ok(v) => {
                    &&& old(self)@.len() >= 2
                    &&& v == be_u16(old(self)@[0], old(self)@[1])
                    &&& final(self)@ == old(self)@.skip(2)
                },
                Err(e) => {
                    &&& old(self)@.len() < 2
                    &&& e == GraalIoError::UnexpectedEof
                    &&& final(self)@ == Seq::<u8>::empty()
                },
            },
    {
        let bytes = self.read_exact(2)?;
        let v: u16 = (bytes[0] as u16) * 256 + (bytes[1] as u16);
        Ok(v)
    }

    /// Reads a big-endian unsigned 32-bit integer.
    pub fn read_u32(&mut self) -> (r: Result<u32, GraalIoError>)
        ensures
            match r {
                Ok(v) => {
                    &&& old(self)@.len() >= 4
                    &&& v == be_u32(old(self)@[0], old(self)@[1], old(self)@[2], old(self)@[3])
                    &&& final(self)@ == old(self)@.skip(4)
                },
                Err(e) => {
                    &&& old(self)@.len() < 4
                    &&& e == GraalIoError::UnexpectedEof
                    &&& final(self)@ == Seq::<u8>::empty()
                },
            },
    {
        let bytes = self.read_exact(4)?;
        let v: u32 = (bytes[0] as u32) * 0x1000000 + (bytes[1] as u32) * 0x10000 + (bytes[2] as u32)
            * 0x100 + (bytes[3] as u32);
        Ok(v)
    }

    /// Splits what remains at each `delimiter`, stopping at the first empty part
    /// or at the end of the data.
    pub fn split_vec(&mut self, delimiter: u8) -> (r: Result<Vec<Vec<u8>>, GraalIoError>)
        ensures
            r matches Ok(parts) && parts@.map_values(|p: Vec<u8>| p@) == split_parts(
                old(self)@,
                delimiter,
            ),
        decreases old(self)@.len(),
    {
        let mut result: Vec<Vec<u8>> = Vec::new();
        loop
            invariant_except_break
                result@.map_values(|p: Vec<u8>| p@) + split_parts(self@, delimiter) == split_parts(
                    old(self)@,
                    delimiter,
                ),
            ensures
                result@.map_values(|p: Vec<u8>| p@) == split_parts(old(self)@, delimiter),
            decreases self@.len(),
        {
            let ghost before = self@;
            let bytes = self.read_until_or_end(delimiter);
            proof {
                lemma_first_index_of(before, delimiter);
            }
            if bytes.len() == 0 {
                proof {
                    assert(split_parts(before, delimiter) =~= Seq::<Seq<u8>>::empty());
                    assert(result@.map_values(|p: Vec<u8>| p@) + Seq::<Seq<u8>>::empty()
                        =~= result@.map_values(|p: Vec<u8>| p@));
                }
                break;
            }
            let ghost old_result = result@;
            result.push(bytes);
            proof {
                assert(result@.map_values(|p: Vec<u8>| p@) =~= old_result.map_values(
                    |p: Vec<u8>| p@,
                ).push(bytes@));
                assert(split_parts(before, delimiter) =~= seq![bytes@] + split_parts(
                    self@,
                    delimiter,
                ));
                assert(old_result.map_values(|p: Vec<u8>| p@).push(bytes@) + split_parts(
                    self@,
                    delimiter,
                ) =~= old_result.map_values(|p: Vec<u8>| p@) + (seq![bytes@] + split_parts(
                    self@,
                    delimiter,
                )));
            }
        }
        Ok(result)
    }
}

/// The parts that `split_vec` returns: the pieces between delimiters, up to the
/// first empty piece; a last piece without a delimiter counts too.
pub open spec fn split_parts(s: Seq<u8>, d: u8) -> Seq<Seq<u8>>
    decreases s.len(),
{
    let k = first_index_of(s, d);
    let part = if k >= 0 { s.take(k) } else { s };
    let rest = if k >= 0 { s.skip(k + 1) } else { Seq::<u8>::empty() };
    if part.len() == 0 || s.len() == 0 {
        Seq::empty()
    } else {
        proof {
            lemma_first_index_of(s, d);
        }
        seq![part] + split_parts(rest, d)
    }
}

/// The bytes after writing `bytes` at position `pos` of `buf`: the bytes there are
/// overwritten and the buffer grows as needed.
pub open spec fn overwrite(buf: Seq<u8>, pos: int, bytes: Seq<u8>) -> Seq<u8> {
    if pos + bytes.len() <= buf.len() {
        buf.take(pos) + bytes + buf.skip(pos + bytes.len())
    } else {
        buf.take(pos) + bytes
    }
}

/// Writing `x` then `y` right after it is writing `x + y`.
proof fn lemma_overwrite_twice(buf: Seq<u8>, pos: int, x: Seq<u8>, y: Seq<u8>)
    requires
        0 <= pos <= buf.len(),
    ensures
        overwrite(overwrite(buf, pos, x), pos + x.len(), y) == overwrite(buf, pos, x + y),
{
    let b1 = overwrite(buf, pos, x);
    assert(b1.take(pos + x.len()) =~= buf.take(pos) + x);
    if pos + x.len() + y.len() <= buf.len() {
        assert(b1.skip(pos + x.len() + y.len()) =~= buf.skip(pos + x.len() + y.len()));
        assert(overwrite(b1, pos + x.len(), y) =~= overwrite(buf, pos, x + y));
    } else {
        assert(overwrite(b1, pos + x.len(), y) =~= overwrite(buf, pos, x + y));
    }
}

/// The digits of `gu_encoding(v, n)`, computed.
fn gu_digits(v: u64, n: usize) -> (d: Vec<u8>)
    requires
        1 <= n <= 5,
        v <= gu_capacity(n as nat),
    ensures
        d@ == gu_encoding(v, n as nat),
{
    proof {
        lemma2_to64();
    }
    let mut unit: u64 = if n == 2 {
        128
    } else if n == 3 {
        16384
    } else if n == 4 {
        2097152
    } else if n == 5 {
        268435456
    } else {
        1
    };
    let mut digits: Vec<u8> = Vec::new();
    let mut rem: u64 = v;
    let mut i: usize = n;
    proof {
        assert(digits@ + gu_encoding(rem, i as nat) =~= gu_encoding(v, n as nat));
    }
    while i > 1
        invariant
            1 <= i <= n,
            n <= 5,
            unit == pow2((7 * (i - 1)) as nat),
            rem <= gu_capacity(i as nat),
            digits@ + gu_encoding(rem, i as nat) == gu_encoding(v, n as nat),
        decreases i,
    {
        proof {
            lemma2_to64();
            lemma_gu_rest(rem, i as nat);
        }
        let q = rem / unit;
        let top: u64 = if q <= 223 {
            q
        } else {
            223
        };
        let ghost old_digits = digits@;
        let ghost old_rem = rem;
        let ghost rest_enc = gu_encoding((rem - top * unit) as u64, (i - 1) as nat);
        proof {
            assert(gu_encoding(rem, i as nat) == seq![(top + 32) as u8] + rest_enc);
        }
        digits.push((top as u8) + 32);
        rem = rem - top * unit;
        proof {
            assert(unit / 128 == pow2((7 * (i - 2)) as nat)) by {
                if i == 2 {} else if i == 3 {} else if i == 4 {} else {}
            }
        }
        unit = unit / 128;
        i = i - 1;
        proof {
            assert(digits@ == old_digits.push(((top + 32) as u8)));
            assert(digits@ + gu_encoding(rem, i as nat) =~= old_digits + (seq![(top + 32) as u8]
                + rest_enc));
        }
    }
    proof {
        lemma2_to64();
        reveal_with_fuel(gu_capacity, 2);
        assert(gu_capacity(1) == 223);
    }
    let ghost old_digits = digits@;
    digits.push((rem as u8) + 32);
    proof {
        assert(digits@ =~= old_digits + gu_encoding(rem, 1));
    }
    digits
}

/// A synchronous Graal writer into bytes held in memory, writing from a position
/// that starts at the beginning of the buffer.
pub struct SyncGraalWriter {
    buffer: Vec<u8>,
    pos: usize,
}

impl SyncGraalWriter {
    #[verifier::type_invariant]
    spec fn position_in_bounds(self) -> bool {
        self.pos <= self.buffer@.len()
    }

    /// The position at which the next write lands.
    pub closed spec fn position(self) -> nat {
        self.pos as nat
    }
}

impl View for SyncGraalWriter {
    /// The bytes of the buffer.
    type V = Seq<u8>;

    closed spec fn view(&self) -> Seq<u8> {
        self.buffer@
    }
}

impl SyncGraalWriter {
    /// Constructs the writer over the given buffer, positioned at its start.
    pub fn from_writer(inner: Vec<u8>) -> (w: Self)
        ensures
            w@ == inner@,
            w.position() == 0,
    {
        Self { buffer: inner, pos: 0 }
    }

    /// Gives back the buffer.
    pub fn into_inner(self) -> (v: Vec<u8>)
        ensures
            v@ == self@,
    {
        self.buffer
    }

    /// Writes the given bytes.
    pub fn write_bytes(&mut self, bytes: &[u8]) -> (r: Result<(), GraalIoError>)
        ensures
            r is Ok,
            old(self).position() <= old(self)@.len(),
            final(self)@ == overwrite(old(self)@, old(self).position() as int, bytes@),
            final(self).position() == old(self).position() + bytes@.len(),
            old(self).position() == old(self)@.len() ==> final(self)@ == old(self)@ + bytes@,
    {
        proof {
            use_type_invariant(&*self);
        }
        let mut taken = SyncGraalWriter { buffer: Vec::new(), pos: 0 };
        std::mem::swap(self, &mut taken);
        let SyncGraalWriter { buffer: mut buffer, pos: mut pos } = taken;
        let ghost start = buffer@;
        let ghost p = pos as int;
        let mut i: usize = 0;
        while i < bytes.len()
            invariant
                p == old(self).pos,
                start == old(self).buffer@,
                0 <= p <= start.len(),
                i <= bytes@.len(),
                pos == p + i,
                buffer@ == overwrite(start, p, bytes@.take(i as int)),
                pos <= buffer@.len(),
            decreases bytes@.len() - i,
        {
            let b = bytes[i];
            if pos < buffer.len() {
                buffer.set(pos, b);
                pos = pos + 1;
            } else {
                buffer.push(b);
                pos = buffer.len();
            }
            i = i + 1;
            proof {
                assert(buffer@ =~= overwrite(start, p, bytes@.take(i as int)));
            }
        }
        proof {
            assert(bytes@.take(i as int) =~= bytes@);
            if p == start.len() {
                assert(start.take(p) =~= start);
            }
        }
        *self = SyncGraalWriter { buffer, pos };
        Ok(())
    }

    /// Flushes the writer; the bytes are already in the buffer.
    pub fn flush(&mut self) -> (r: Result<(), GraalIoError>)
        ensures
            r is Ok,
            final(self)@ == old(self)@,
            final(self).position() == old(self).position(),
    {
        Ok(())
    }

    /// Writes a null-terminated string.
    pub fn write_string(&mut self, s: &str) -> (r: Result<(), GraalIoError>)
        ensures
            r is Ok,
            old(self).position() == old(self)@.len() ==> final(self)@ == old(self)@
                + s.spec_bytes() + seq![0u8],
            final(self)@ == overwrite(old(self)@, old(self).position() as int, s.spec_bytes() + seq![0u8]),
            final(self).position() == old(self).position() + s.spec_bytes().len() + 1,
    {
        proof {
            use_type_invariant(&*self);
            lemma_overwrite_twice(self@, self.position() as int, s.spec_bytes(), seq![0u8]);
        }
        self.write_bytes(s.as_bytes())?;
        let zero: [u8; 1] = [0];
        self.write_bytes(&zero)?;
        proof {
            assert(zero@ =~= seq![0u8]);
        }
        Ok(())
    }

    /// Writes a Graal-encoded string: its length in bytes as a gu8, then its bytes.
    pub fn write_gstring(&mut self, s: &str) -> (r: Result<(), GraalIoError>)
        ensures
            match r {
                Ok(()) => {
                    &&& s.spec_bytes().len() <= GUINT8_MAX
                    &&& old(self).position() == old(self)@.len() ==> final(self)@ == old(self)@
                        + gu_encoding(s.spec_bytes().len() as u64, 1) + s.spec_bytes()
                    &&& final(self)@ == overwrite(
                        old(self)@,
                        old(self).position() as int,
                        gu_encoding(s.spec_bytes().len() as u64, 1) + s.spec_bytes(),
                    )
                    &&& final(self).position() == old(self).position() + 1 + s.spec_bytes().len()
                },
                Err(e) => {
                    &&& s.spec_bytes().len() > GUINT8_MAX
                    &&& e == GraalIoError::ValueExceedsMaximum(s.len() as u64, GUINT8_MAX)
                    &&& final(self)@ == old(self)@
                    &&& final(self).position() == old(self).position()
                },
            },
    {
        let length = s.len();
        proof {
            use_type_invariant(&*self);
            lemma_encoding_shape(length as u64, 1);
            lemma_overwrite_twice(
                self@,
                self.position() as int,
                gu_encoding(length as u64, 1),
                s.spec_bytes(),
            );
        }
        self.write_gu8(length as u64)?;
        self.write_bytes(s.as_bytes())?;
        Ok(())
    }

    /// Writes a single byte.
    pub fn write_u8(&mut self, v: u8) -> (r: Result<(), GraalIoError>)
        ensures
            r is Ok,
            old(self).position() == old(self)@.len() ==> final(self)@ == old(self)@.push(v),
            final(self)@ == overwrite(old(self)@, old(self).position() as int, seq![v]),
            final(self).position() == old(self).position() + 1,
    {
        let bytes: [u8; 1] = [v];
        let r = self.write_bytes(&bytes);
        proof {
            assert(old(self)@ + bytes@ =~= old(self)@.push(v));
        }
        r
    }

    /// Writes a big-endian unsigned 16-bit integer.
    pub fn write_u16(&mut self, v: u16) -> (r: Result<(), GraalIoError>)
        ensures
            r is Ok,
            old(self).position() == old(self)@.len() ==> final(self)@ == old(self)@ + seq![
                (v / 256) as u8,
                (v % 256) as u8,
            ],
            final(self)@ == overwrite(
                old(self)@,
                old(self).position() as int,
                seq![(v / 256) as u8, (v % 256) as u8],
            ),
            final(self).position() == old(self).position() + 2,
    {
        let bytes: [u8; 2] = [(v / 256) as u8, (v % 256) as u8];
        let r = self.write_bytes(&bytes);
        proof {
            assert(bytes@ =~= seq![(v / 256) as u8, (v % 256) as u8]);
        }
        r
    }

    /// Writes a big-endian unsigned 32-bit integer.
    pub fn write_u32(&mut self, v: u32) -> (r: Result<(), GraalIoError>)
        ensures
            r is Ok,
            old(self).position() == old(self)@.len() ==> final(self)@ == old(self)@ + seq![
                (v / 0x1000000) as u8,
                ((v / 0x10000) % 256) as u8,
                ((v / 0x100) % 256) as u8,
                (v % 256) as u8,
            ],
            final(self)@ == overwrite(
                old(self)@,
                old(self).position() as int,
                seq![
                    (v / 0x1000000) as u8,
                    ((v / 0x10000) % 256) as u8,
                    ((v / 0x100) % 256) as u8,
                    (v % 256) as u8,
                ],
            ),
            final(self).position() == old(self).position() + 4,
    {
        let bytes: [u8; 4] = [
            (v / 0x1000000) as u8,
            ((v / 0x10000) % 256) as u8,
            ((v / 0x100) % 256) as u8,
            (v % 256) as u8,
        ];
        let r = self.write_bytes(&bytes);
        proof {
            assert(bytes@ =~= seq![
                (v / 0x1000000) as u8,
                ((v / 0x10000) % 256) as u8,
                ((v / 0x100) % 256) as u8,
                (v % 256) as u8,
            ]);
        }
        r
    }

    /// Writes a Graal-encoded unsigned integer of `byte_count` bytes.
    pub fn write_gu(&mut self, byte_count: usize, v: u64) -> (r: Result<(), GraalIoError>)
        ensures
            match r {
                Ok(()) => {
                    &&& 1 <= byte_count <= 5
                    &&& v <= graal_max(byte_count as nat)
                    &&& old(self).position() == old(self)@.len() ==> final(self)@ == old(self)@
                        + gu_encoding(v, byte_count as nat)
                    &&& final(self)@ == overwrite(
                        old(self)@,
                        old(self).position() as int,
                        gu_encoding(v, byte_count as nat),
                    )
                    &&& final(self).position() == old(self).position() + byte_count
                },
                Err(e) => {
                    &&& final(self)@ == old(self)@
                    &&& final(self).position() == old(self).position()
                    &&& if 1 <= byte_count <= 5 {
                        &&& v > graal_max(byte_count as nat)
                        &&& e == GraalIoError::ValueExceedsMaximum(v, graal_max(byte_count as nat))
                    } else {
                        e == GraalIoError::UnsupportedByteCount(byte_count)
                    }
                },
            },
    {
        let max = match byte_count {
            1 => GUINT8_MAX,
            2 => GUINT16_MAX,
            3 => GUINT24_MAX,
            4 => GUINT32_MAX,
            5 => GUINT40_MAX,
            _ => {
                return Err(GraalIoError::UnsupportedByteCount(byte_count));
            },
        };
        if v > max {
            return Err(GraalIoError::ValueExceedsMaximum(v, max));
        }
        proof {
            lemma_graal_max_fits(byte_count as nat);
            lemma_gu_encoding(v, byte_count as nat);
        }
        let buffer = gu_digits(v, byte_count);
        self.write_bytes(buffer.as_slice())
    }

    /// Writes a Graal-encoded unsigned integer with 1 byte.
    pub fn write_gu8(&mut self, v: u64) -> (r: Result<(), GraalIoError>)
        ensures
            match r {
                Ok(()) => {
                    &&& v <= GUINT8_MAX
                    &&& old(self).position() == old(self)@.len() ==> final(self)@ == old(self)@
                        + gu_encoding(v, 1)
                    &&& final(self)@ == overwrite(old(self)@, old(self).position() as int, gu_encoding(v, 1))
                    &&& final(self).position() == old(self).position() + 1
                },
                Err(e) => {
                    &&& v > GUINT8_MAX
                    &&& e == GraalIoError::ValueExceedsMaximum(v, GUINT8_MAX)
                    &&& final(self)@ == old(self)@
                    &&& final(self).position() == old(self).position()
                },
            },
    {
        self.write_gu(1, v)
    }

    /// Writes a Graal-encoded unsigned integer with 2 bytes.
    pub fn write_gu16(&mut self, v: u64) -> (r: Result<(), GraalIoError>)
        ensures
            match r {
                Ok(()) => {
                    &&& v <= GUINT16_MAX
                    &&& old(self).position() == old(self)@.len() ==> final(self)@ == old(self)@
                        + gu_encoding(v, 2)
                    &&& final(self)@ == overwrite(old(self)@, old(self).position() as int, gu_encoding(v, 2))
                    &&& final(self).position() == old(self).position() + 2
                },
                Err(e) => {
                    &&& v > GUINT16_MAX
                    &&& e == GraalIoError::ValueExceedsMaximum(v, GUINT16_MAX)
                    &&& final(self)@ == old(self)@
                    &&& final(self).position() == old(self).position()
                },
            },
    {
        self.write_gu(2, v)
    }

    /// Writes a Graal-encoded unsigned integer with 3 bytes.
    pub fn write_gu24(&mut self, v: u64) -> (r: Result<(), GraalIoError>)
        ensures
            match r {
                Ok(()) => {
                    &&& v <= GUINT24_MAX
                    &&& old(self).position() == old(self)@.len() ==> final(self)@ == old(self)@
                        + gu_encoding(v, 3)
                    &&& final(self)@ == overwrite(old(self)@, old(self).position() as int, gu_encoding(v, 3))
                    &&& final(self).position() == old(self).position() + 3
                },
                Err(e) => {
                    &&& v > GUINT24_MAX
                    &&& e == GraalIoError::ValueExceedsMaximum(v, GUINT24_MAX)
                    &&& final(self)@ == old(self)@
                    &&& final(self).position() == old(self).position()
                },
            },
    {
        self.write_gu(3, v)
    }

    /// Writes a Graal-encoded unsigned integer with 4 bytes.
    pub fn write_gu32(&mut self, v: u64) -> (r: Result<(), GraalIoError>)
        ensures
            match r {
                Ok(()) => {
                    &&& v <= GUINT32_MAX
                    &&& old(self).position() == old(self)@.len() ==> final(self)@ == old(self)@
                        + gu_encoding(v, 4)
                    &&& final(self)@ == overwrite(old(self)@, old(self).position() as int, gu_encoding(v, 4))
                    &&& final(self).position() == old(self).position() + 4
                },
                Err(e) => {
                    &&& v > GUINT32_MAX
                    &&& e == GraalIoError::ValueExceedsMaximum(v, GUINT32_MAX)
                    &&& final(self)@ == old(self)@
                    &&& final(self).position() == old(self).position()
                },
            },
    {
        self.write_gu(4, v)
    }

    /// Writes a Graal-encoded unsigned integer with 5 bytes.
    pub fn write_gu40(&mut self, v: u64) -> (r: Result<(), GraalIoError>)
        ensures
            match r {
                Ok(()) => {
                    &&& v <= GUINT40_MAX
                    &&& old(self).position() == old(self)@.len() ==> final(self)@ == old(self)@
                        + gu_encoding(v, 5)
                    &&& final(self)@ == overwrite(old(self)@, old(self).position() as int, gu_encoding(v, 5))
                    &&& final(self).position() == old(self).position() + 5
                },
                Err(e) => {
                    &&& v > GUINT40_MAX
                    &&& e == GraalIoError::ValueExceedsMaximum(v, GUINT40_MAX)
                    &&& final(self)@ == old(self)@
                    &&& final(self).position() == old(self).position()
                },
            },
    {
        self.write_gu(5, v)
    }
}

/// `buf` filled with zero bytes up to `pos`, if it is shorter.
pub open spec fn zero_padded(buf: Seq<u8>, pos: nat) -> Seq<u8> {
    if pos <= buf.len() {
        buf
    } else {
        buf + Seq::new((pos - buf.len()) as nat, |i: int| 0u8)
    }
}

/// A synchronous Graal writer straight into a vector that the caller lends,
/// writing from a position that starts at the beginning of the vector: what
/// it writes is in the caller's vector.
pub struct SyncGraalVecWriter<'a> {
    /// The caller's vector.
    pub target: &'a mut Vec<u8>,
    /// The position at which the next write lands.
    pub pos: usize,
}

impl<'a> SyncGraalVecWriter<'a> {
    /// The position at which the next write lands.
    pub open spec fn position(self) -> nat {
        self.pos as nat
    }
}

impl<'a> View for SyncGraalVecWriter<'a> {
    /// The bytes written so far: the vector's, with zeros up to the position
    /// if the vector is shorter.
    type V = Seq<u8>;

    open spec fn view(&self) -> Seq<u8> {
        zero_padded((*self.target)@, self.pos as nat)
    }
}

impl<'a> SyncGraalVecWriter<'a> {
    /// A writer into `target`, positioned at its start.
    pub fn new(target: &'a mut Vec<u8>) -> (w: Self)
        ensures
            *w.target == *old(target),
            *final(w.target) == *final(target),
            w.position() == 0,
            w@ == old(target)@,
    {
        SyncGraalVecWriter { target, pos: 0 }
    }

    /// Moves the vector's bytes into a writer that owns them.
    fn take_owned(&mut self) -> (w: SyncGraalWriter)
        ensures
            w@ == old(self)@,
            w.position() == old(self).position(),
            final(self).pos == old(self).pos,
            *final(final(self).target) == *final(old(self).target),
    {
        let mut buffer: Vec<u8> = Vec::new();
        std::mem::swap(&mut buffer, self.target);
        let ghost start = buffer@;
        while buffer.len() < self.pos
            invariant
                start.len() <= buffer@.len() || buffer@.len() < self.pos,
                buffer@.len() <= self.pos || buffer@ == start,
                buffer@ == zero_padded(start, buffer@.len() as nat) || buffer@ == start,
                buffer@.len() >= start.len(),
                buffer@.len() > start.len() ==> buffer@.len() <= self.pos,
                buffer@ == start + Seq::new((buffer@.len() - start.len()) as nat, |i: int| 0u8),
            decreases self.pos - buffer@.len(),
        {
            buffer.push(0);
            proof {
                assert(buffer@ =~= start + Seq::new((buffer@.len() - start.len()) as nat, |i: int| 0u8));
            }
        }
        proof {
            if self.pos as nat <= start.len() {
                assert(buffer@ =~= start);
            } else {
                assert(buffer@ =~= zero_padded(start, self.pos as nat));
            }
        }
        SyncGraalWriter { buffer, pos: self.pos }
    }

    /// Moves an owned writer's bytes back into the vector.
    fn put_owned(&mut self, w: SyncGraalWriter)
        ensures
            (*final(self).target)@ == w@,
            final(self).pos == w.position(),
            final(self)@ == w@,
            *final(final(self).target) == *final(old(self).target),
    {
        proof {
            use_type_invariant(&w);
        }
        let SyncGraalWriter { buffer, pos } = w;
        *self.target = buffer;
        self.pos = pos;
    }

    /// Writes the given bytes.
    pub fn write_bytes(&mut self, bytes: &[u8]) -> (r: Result<(), GraalIoError>)
        ensures
            r is Ok,
            old(self).position() == old(self)@.len() ==> final(self)@ == old(self)@ + bytes@,
            final(self)@ == overwrite(old(self)@, old(self).position() as int, bytes@),
            final(self).position() == old(self).position() + bytes@.len(),
            (*final(self).target)@ == final(self)@,
            *final(final(self).target) == *final(old(self).target),
    {
        let mut w = self.take_owned();
        let r = w.write_bytes(bytes);
        self.put_owned(w);
        r
    }
    /// Flushes the writer; the bytes are already in the vector.
    pub fn flush(&mut self) -> (r: Result<(), GraalIoError>)
        ensures
            r is Ok,
            final(self)@ == old(self)@,
            final(self).position() == old(self).position(),
            (*final(self).target)@ == final(self)@,
            *final(final(self).target) == *final(old(self).target),
    {
        let mut w = self.take_owned();
        let r = w.flush();
        self.put_owned(w);
        r
    }
    /// Writes a null-terminated string.
    pub fn write_string(&mut self, s: &str) -> (r: Result<(), GraalIoError>)
        ensures
            r is Ok,
            old(self).position() == old(self)@.len() ==> final(self)@ == old(self)@ + (s.spec_bytes() + seq![0u8]),
            final(self)@ == overwrite(old(self)@, old(self).position() as int, (s.spec_bytes() + seq![0u8])),
            final(self).position() == old(self).position() + (s.spec_bytes() + seq![0u8]).len(),
            (*final(self).target)@ == final(self)@,
            *final(final(self).target) == *final(old(self).target),
    {
        let mut w = self.take_owned();
        let r = w.write_string(s);
        self.put_owned(w);
        r
    }
    /// Writes a Graal-encoded string: its length in bytes as a gu8, then its bytes.
    pub fn write_gstring(&mut self, s: &str) -> (r: Result<(), GraalIoError>)
        ensures
            match r {
                Ok(()) => {
                    &&& s.spec_bytes().len() <= GUINT8_MAX
                    &&& old(self).position() == old(self)@.len() ==> final(self)@ == old(self)@ + (gu_encoding(s.spec_bytes().len() as u64, 1) + s.spec_bytes())
                    &&& final(self)@ == overwrite(old(self)@, old(self).position() as int, (gu_encoding(s.spec_bytes().len() as u64, 1) + s.spec_bytes()))
                    &&& final(self).position() == old(self).position() + (gu_encoding(s.spec_bytes().len() as u64, 1) + s.spec_bytes()).len()
                },
                Err(e) => {
                    &&& final(self)@ == old(self)@
                    &&& final(self).position() == old(self).position()
                    &&& s.spec_bytes().len() > GUINT8_MAX && e == GraalIoError::ValueExceedsMaximum(s.len() as u64, GUINT8_MAX)
                },
            },
            (*final(self).target)@ == final(self)@,
            *final(final(self).target) == *final(old(self).target),
    {
        let mut w = self.take_owned();
        let r = w.write_gstring(s);
        self.put_owned(w);
        r
    }
    /// Writes a single byte.
    pub fn write_u8(&mut self, v: u8) -> (r: Result<(), GraalIoError>)
        ensures
            r is Ok,
            old(self).position() == old(self)@.len() ==> final(self)@ == old(self)@ + seq![v],
            final(self)@ == overwrite(old(self)@, old(self).position() as int, seq![v]),
            final(self).position() == old(self).position() + seq![v].len(),
            (*final(self).target)@ == final(self)@,
            *final(final(self).target) == *final(old(self).target),
    {
        let mut w = self.take_owned();
        let r = w.write_u8(v);
        self.put_owned(w);
        r
    }
    /// Writes a big-endian unsigned 16-bit integer.
    pub fn write_u16(&mut self, v: u16) -> (r: Result<(), GraalIoError>)
        ensures
            r is Ok,
            old(self).position() == old(self)@.len() ==> final(self)@ == old(self)@ + seq![(v / 256) as u8, (v % 256) as u8],
            final(self)@ == overwrite(old(self)@, old(self).position() as int, seq![(v / 256) as u8, (v % 256) as u8]),
            final(self).position() == old(self).position() + seq![(v / 256) as u8, (v % 256) as u8].len(),
            (*final(self).target)@ == final(self)@,
            *final(final(self).target) == *final(old(self).target),
    {
        let mut w = self.take_owned();
        let r = w.write_u16(v);
        self.put_owned(w);
        r
    }
    /// Writes a big-endian unsigned 32-bit integer.
    pub fn write_u32(&mut self, v: u32) -> (r: Result<(), GraalIoError>)
        ensures
            r is Ok,
            old(self).position() == old(self)@.len() ==> final(self)@ == old(self)@ + seq![(v / 0x1000000) as u8, ((v / 0x10000) % 256) as u8, ((v / 0x100) % 256) as u8, (v % 256) as u8],
            final(self)@ == overwrite(old(self)@, old(self).position() as int, seq![(v / 0x1000000) as u8, ((v / 0x10000) % 256) as u8, ((v / 0x100) % 256) as u8, (v % 256) as u8]),
            final(self).position() == old(self).position() + seq![(v / 0x1000000) as u8, ((v / 0x10000) % 256) as u8, ((v / 0x100) % 256) as u8, (v % 256) as u8].len(),
            (*final(self).target)@ == final(self)@,
            *final(final(self).target) == *final(old(self).target),
    {
        let mut w = self.take_owned();
        let r = w.write_u32(v);
        self.put_owned(w);
        r
    }
    /// Writes a Graal-encoded unsigned integer of `byte_count` bytes.
    pub fn write_gu(&mut self, byte_count: usize, v: u64) -> (r: Result<(), GraalIoError>)
        ensures
            match r {
                Ok(()) => {
                    &&& 1 <= byte_count <= 5 && v <= graal_max(byte_count as nat)
                    &&& old(self).position() == old(self)@.len() ==> final(self)@ == old(self)@ + gu_encoding(v, byte_count as nat)
                    &&& final(self)@ == overwrite(old(self)@, old(self).position() as int, gu_encoding(v, byte_count as nat))
                    &&& final(self).position() == old(self).position() + byte_count
                },
                Err(e) => {
                    &&& final(self)@ == old(self)@
                    &&& final(self).position() == old(self).position()
                    &&& if 1 <= byte_count <= 5 {
                        &&& v > graal_max(byte_count as nat)
                        &&& e == GraalIoError::ValueExceedsMaximum(v, graal_max(byte_count as nat))
                    } else {
                        e == GraalIoError::UnsupportedByteCount(byte_count)
                    }
                },
            },
            (*final(self).target)@ == final(self)@,
            *final(final(self).target) == *final(old(self).target),
    {
        let mut w = self.take_owned();
        let r = w.write_gu(byte_count, v);
        self.put_owned(w);
        r
    }
    /// Writes a Graal-encoded unsigned integer with 1 byte.
    pub fn write_gu8(&mut self, v: u64) -> (r: Result<(), GraalIoError>)
        ensures
            match r {
                Ok(()) => {
                    &&& v <= GUINT8_MAX
                    &&& old(self).position() == old(self)@.len() ==> final(self)@ == old(self)@ + gu_encoding(v, 1)
                    &&& final(self)@ == overwrite(old(self)@, old(self).position() as int, gu_encoding(v, 1))
                    &&& final(self).position() == old(self).position() + gu_encoding(v, 1).len()
                },
                Err(e) => {
                    &&& final(self)@ == old(self)@
                    &&& final(self).position() == old(self).position()
                    &&& v > GUINT8_MAX && e == GraalIoError::ValueExceedsMaximum(v, GUINT8_MAX)
                },
            },
            (*final(self).target)@ == final(self)@,
            *final(final(self).target) == *final(old(self).target),
    {
        let mut w = self.take_owned();
        let r = w.write_gu8(v);
        self.put_owned(w);
        r
    }
    /// Writes a Graal-encoded unsigned integer with 2 bytes.
    pub fn write_gu16(&mut self, v: u64) -> (r: Result<(), GraalIoError>)
        ensures
            match r {
                Ok(()) => {
                    &&& v <= GUINT16_MAX
                    &&& old(self).position() == old(self)@.len() ==> final(self)@ == old(self)@ + gu_encoding(v, 2)
                    &&& final(self)@ == overwrite(old(self)@, old(self).position() as int, gu_encoding(v, 2))
                    &&& final(self).position() == old(self).position() + 2
                },
                Err(e) => {
                    &&& final(self)@ == old(self)@
                    &&& final(self).position() == old(self).position()
                    &&& v > GUINT16_MAX && e == GraalIoError::ValueExceedsMaximum(v, GUINT16_MAX)
                },
            },
            (*final(self).target)@ == final(self)@,
            *final(final(self).target) == *final(old(self).target),
    {
        let mut w = self.take_owned();
        let r = w.write_gu16(v);
        self.put_owned(w);
        r
    }
    /// Writes a Graal-encoded unsigned integer with 3 bytes.
    pub fn write_gu24(&mut self, v: u64) -> (r: Result<(), GraalIoError>)
        ensures
            match r {
                Ok(()) => {
                    &&& v <= GUINT24_MAX
                    &&& old(self).position() == old(self)@.len() ==> final(self)@ == old(self)@ + gu_encoding(v, 3)
                    &&& final(self)@ == overwrite(old(self)@, old(self).position() as int, gu_encoding(v, 3))
                    &&& final(self).position() == old(self).position() + 3
                },
                Err(e) => {
                    &&& final(self)@ == old(self)@
                    &&& final(self).position() == old(self).position()
                    &&& v > GUINT24_MAX && e == GraalIoError::ValueExceedsMaximum(v, GUINT24_MAX)
                },
            },
            (*final(self).target)@ == final(self)@,
            *final(final(self).target) == *final(old(self).target),
    {
        let mut w = self.take_owned();
        let r = w.write_gu24(v);
        self.put_owned(w);
        r
    }
    /// Writes a Graal-encoded unsigned integer with 4 bytes.
    pub fn write_gu32(&mut self, v: u64) -> (r: Result<(), GraalIoError>)
        ensures
            match r {
                Ok(()) => {
                    &&& v <= GUINT32_MAX
                    &&& old(self).position() == old(self)@.len() ==> final(self)@ == old(self)@ + gu_encoding(v, 4)
                    &&& final(self)@ == overwrite(old(self)@, old(self).position() as int, gu_encoding(v, 4))
                    &&& final(self).position() == old(self).position() + 4
                },
                Err(e) => {
                    &&& final(self)@ == old(self)@
                    &&& final(self).position() == old(self).position()
                    &&& v > GUINT32_MAX && e == GraalIoError::ValueExceedsMaximum(v, GUINT32_MAX)
                },
            },
            (*final(self).target)@ == final(self)@,
            *final(final(self).target) == *final(old(self).target),
    {
        let mut w = self.take_owned();
        let r = w.write_gu32(v);
        self.put_owned(w);
        r
    }
    /// Writes a Graal-encoded unsigned integer with 5 bytes.
    pub fn write_gu40(&mut self, v: u64) -> (r: Result<(), GraalIoError>)
        ensures
            match r {
                Ok(()) => {
                    &&& v <= GUINT40_MAX
                    &&& old(self).position() == old(self)@.len() ==> final(self)@ == old(self)@ + gu_encoding(v, 5)
                    &&& final(self)@ == overwrite(old(self)@, old(self).position() as int, gu_encoding(v, 5))
                    &&& final(self).position() == old(self).position() + 5
                },
                Err(e) => {
                    &&& final(self)@ == old(self)@
                    &&& final(self).position() == old(self).position()
                    &&& v > GUINT40_MAX && e == GraalIoError::ValueExceedsMaximum(v, GUINT40_MAX)
                },
            },
            (*final(self).target)@ == final(self)@,
            *final(final(self).target) == *final(old(self).target),
    {
        let mut w = self.take_owned();
        let r = w.write_gu40(v);
        self.put_owned(w);
        r
    }
}

/// The largest value that `byte_count` Graal bytes may be written with.
pub open spec fn graal_max(byte_count: nat) -> u64 {
    if byte_count == 1 {
        GUINT8_MAX
    } else if byte_count == 2 {
        GUINT16_MAX
    } else if byte_count == 3 {
        GUINT24_MAX
    } else if byte_count == 4 {
        GUINT32_MAX
    } else {
        GUINT40_MAX
    }
}

/// What `write_gu` writes for `v` in `n` bytes, `read_gu` reads back: the `n`
/// bytes are Graal digits that decode to `v`, and what follows is left, for
/// every value up to what `n` digits of at most 223 hold (so for every value
/// up to the maximum of each supported width).
pub proof fn lemma_gu_read_back(v: u64, n: nat, rest: Seq<u8>)
    requires
        1 <= n <= 9,
        v <= gu_capacity(n),
    ensures
        ({
            let s = gu_encoding(v, n) + rest;
            &&& graal_readable(s, n)
            &&& s.take(n as int) == gu_encoding(v, n)
            &&& graal_value(s.take(n as int)) == v
            &&& s.skip(n as int) == rest
        }),
{
    let e = gu_encoding(v, n);
    let s = e + rest;
    lemma_gu_encoding(v, n);
    assert(s.take(n as int) =~= e);
    assert(s.skip(n as int) =~= rest);
}

pub(crate) proof fn lemma_ascii_latin1(text: Seq<char>)
    requires
        is_ascii_chars(text),
    ensures
        latin1_chars(encode_utf8(text)) == text,
{
    let bytes = encode_utf8(text);
    is_ascii_chars_encode_utf8(text);
    is_ascii_chars_nat_bound(text);
    assert forall|i: int| 0 <= i < text.len() implies latin1_chars(bytes)[i] == text[i] by {
        assert(text[i] as u8 == bytes[i]);
        assert((text[i] as nat) < 128);
    }
    assert(latin1_chars(bytes) =~= text);
}

/// What `write_gstring` writes for an ASCII string of at most `GUINT8_MAX`
/// bytes, `read_gstring` reads back: the length byte is a Graal digit, the
/// bytes it counts give the string again, and what follows is left.
pub proof fn lemma_gstring_read_back(text: Seq<char>, rest: Seq<u8>)
    requires
        is_ascii_chars(text),
        text.len() <= GUINT8_MAX,
    ensures
        ({
            let bytes = encode_utf8(text);
            let s = gu_encoding(bytes.len() as u64, 1) + bytes + rest;
            &&& s.len() >= 1
            &&& s[0] >= 32
            &&& s.len() >= 1 + (s[0] - 32)
            &&& latin1_chars(s.subrange(1, 1 + (s[0] - 32))) == text
            &&& s.skip(1 + (s[0] - 32)) == rest
        }),
{
    let bytes = encode_utf8(text);
    is_ascii_chars_encode_utf8(text);
    let len = bytes.len() as u64;
    let s = gu_encoding(len, 1) + bytes + rest;
    assert(s[0] == (len + 32) as u8);
    assert(s.subrange(1, 1 + len) =~= bytes);
    assert(s.skip(1 + len) =~= rest);
    lemma_ascii_latin1(text);
}

/// What `write_u16` writes, `read_u16` reads back.
pub proof fn lemma_u16_read_back(v: u16)
    ensures
        be_u16((v / 256) as u8, (v % 256) as u8) == v,
{
}

} // verus!
