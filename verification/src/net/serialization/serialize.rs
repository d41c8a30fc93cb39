use vstd::prelude::*;
use vstd::string::StringSliceAdditionalSpecFns;
use vstd::utf8::encode_utf8;

use crate::io::io_sync::SyncGraalWriter;
use crate::io::{
    GUINT16_MAX, GUINT8_MAX, GraalIoError, gu_encoding, lemma_encoding_shape, lemma_graal_max_fits,
    lemma_gu_encoding,
};
use crate::net::serialization::error::GraalSerializationError;
use crate::net::serialization::{GScript, GString};

verus! {

/// The bytes of a string.
pub open spec fn str_bytes(s: Seq<char>) -> Seq<u8> {
    encode_utf8(s)
}

/// The bytes of a GString: its length as a gu8, then its bytes.
pub open spec fn gstring_bytes(s: Seq<char>) -> Seq<u8> {
    gu_encoding(str_bytes(s).len() as u64, 1) + str_bytes(s)
}

/// Script bytes as they go on the wire: each `\r` is removed and each `\n`
/// becomes 0xA7; other bytes stay.
pub open spec fn gscript_wire(b: Seq<u8>) -> Seq<u8>
    decreases b.len(),
{
    if b.len() == 0 {
        Seq::empty()
    } else {
        let front = gscript_wire(b.drop_last());
        if b.last() == 13 {
            front
        } else if b.last() == 10 {
            front.push(0xa7)
        } else {
            front.push(b.last())
        }
    }
}

/// The bytes of a GScript.
pub open spec fn gscript_bytes(s: Seq<char>) -> Seq<u8> {
    gscript_wire(str_bytes(s))
}

/// The bytes of a sequence of strings: each in double quotes, separated by commas.
pub open spec fn quoted_list(items: Seq<Seq<char>>) -> Seq<u8>
    decreases items.len(),
{
    if items.len() == 0 {
        Seq::empty()
    } else if items.len() == 1 {
        seq![34u8] + str_bytes(items[0]) + seq![34u8]
    } else {
        quoted_list(items.drop_last()) + seq![44u8, 34u8] + str_bytes(items.last()) + seq![34u8]
    }
}

/// A serializer that writes packet fields into bytes held in memory.
pub struct Serializer {
    writer: SyncGraalWriter,
}

impl Serializer {
    #[verifier::type_invariant]
    spec fn appends(self) -> bool {
        self.writer.position() == self.writer@.len()
    }
}

impl View for Serializer {
    /// The bytes written so far.
    type V = Seq<u8>;

    closed spec fn view(&self) -> Seq<u8> {
        self.writer@
    }
}

impl Serializer {
    /// A serializer that has written nothing.
    pub fn new() -> (s: Self)
        ensures
            s@ == Seq::<u8>::empty(),
    {
        Serializer { writer: SyncGraalWriter::from_writer(Vec::new()) }
    }

    /// Takes the writer out, leaving an empty one.
    fn take_writer(&mut self) -> (w: SyncGraalWriter)
        ensures
            w@ == old(self)@,
            w.position() == w@.len(),
    {
        proof {
            use_type_invariant(&*self);
        }
        let mut w = SyncGraalWriter::from_writer(Vec::new());
        std::mem::swap(&mut w, &mut self.writer);
        w
    }

    /// Puts a writer back.
    fn put_writer(&mut self, w: SyncGraalWriter)
        requires
            w.position() == w@.len(),
        ensures
            final(self)@ == w@,
    {
        self.writer = w;
    }

    /// The bytes written.
    pub fn into_bytes(self) -> (v: Vec<u8>)
        ensures
            v@ == self@,
    {
        self.writer.into_inner()
    }

    /// Writes a `u8` as a gu8.
    pub fn serialize_u8(&mut self, v: u8) -> (r: Result<(), GraalSerializationError>)
        ensures
            v <= GUINT8_MAX ==> r is Ok && final(self)@ == old(self)@ + gu_encoding(v as u64, 1),
            v > GUINT8_MAX ==> final(self)@ == old(self)@ && r == Err::<(), GraalSerializationError>(
                GraalSerializationError::Io(GraalIoError::ValueExceedsMaximum(v as u64, GUINT8_MAX)),
            ),
    {
        proof {
            use_type_invariant(&*self);
            lemma_encoding_shape(v as u64, 1);
        }
        let mut w = self.take_writer();
        let r = w.write_gu8(v as u64);
        self.put_writer(w);
        match r {
            Ok(()) => Ok(()),
            Err(e) => Err(GraalSerializationError::Io(e)),
        }
    }

    /// Writes a `u16` as a gu16.
    pub fn serialize_u16(&mut self, v: u16) -> (r: Result<(), GraalSerializationError>)
        ensures
            v <= GUINT16_MAX ==> r is Ok && final(self)@ == old(self)@ + gu_encoding(v as u64, 2),
            v > GUINT16_MAX ==> final(self)@ == old(self)@ && r == Err::<(), GraalSerializationError>(
                GraalSerializationError::Io(GraalIoError::ValueExceedsMaximum(v as u64, GUINT16_MAX)),
            ),
    {
        proof {
            use_type_invariant(&*self);
            lemma_graal_max_fits(2);
            if v <= GUINT16_MAX {
                lemma_gu_encoding(v as u64, 2);
            }
        }
        let mut w = self.take_writer();
        let r = w.write_gu16(v as u64);
        self.put_writer(w);
        match r {
            Ok(()) => Ok(()),
            Err(e) => Err(GraalSerializationError::Io(e)),
        }
    }

    /// Writes the bytes of a string as they are.
    pub fn serialize_str(&mut self, v: &str) -> (r: Result<(), GraalSerializationError>)
        ensures
            r is Ok,
            final(self)@ == old(self)@ + str_bytes(v@),
    {
        proof {
            use_type_invariant(&*self);
        }
        let mut w = self.take_writer();
        let _ = w.write_bytes(v.as_bytes());
        self.put_writer(w);
        Ok(())
    }

    /// Writes a GString: its length as a gu8, then its bytes.
    pub fn serialize_gstring(&mut self, v: &GString) -> (r: Result<(), GraalSerializationError>)
        ensures
            str_bytes(v.0@).len() <= GUINT8_MAX ==> r is Ok && final(self)@ == old(self)@
                + gstring_bytes(v.0@),
            str_bytes(v.0@).len() > GUINT8_MAX ==> final(self)@ == old(self)@ && r
                == Err::<(), GraalSerializationError>(
                GraalSerializationError::Io(
                    GraalIoError::ValueExceedsMaximum((str_bytes(v.0@).len() as usize) as u64, GUINT8_MAX),
                ),
            ),
    {
        proof {
            use_type_invariant(&*self);
            lemma_encoding_shape(str_bytes(v.0@).len() as u64, 1);
        }
        let st = v.0.as_str();
        proof {
            assert(st.spec_bytes() == str_bytes(v.0@));
        }
        let mut w = self.take_writer();
        let r = w.write_gstring(st);
        self.put_writer(w);
        match r {
            Ok(()) => {
                proof {
                    assert(old(self)@ + gu_encoding(str_bytes(v.0@).len() as u64, 1) + str_bytes(v.0@)
                        =~= old(self)@ + gstring_bytes(v.0@));
                }
                Ok(())
            },
            Err(e) => Err(GraalSerializationError::Io(e)),
        }
    }

    /// Writes a GScript: its bytes without `\r` and with `\n` as 0xA7.
    pub fn serialize_gscript(&mut self, v: &GScript) -> (r: Result<(), GraalSerializationError>)
        ensures
            r is Ok,
            final(self)@ == old(self)@ + gscript_bytes(v.0@),
    {
        proof {
            use_type_invariant(&*self);
        }
        let bytes = v.0.as_str().as_bytes();
        let mut script: Vec<u8> = Vec::with_capacity(bytes.len());
        let mut i: usize = 0;
        while i < bytes.len()
            invariant
                i <= bytes@.len(),
                bytes@ == str_bytes(v.0@),
                script@ == gscript_wire(bytes@.take(i as int)),
            decreases bytes@.len() - i,
        {
            let c = bytes[i];
            proof {
                let t = bytes@.take(i + 1);
                assert(t.drop_last() =~= bytes@.take(i as int));
                assert(t.last() == c);
            }
            if c == 10 {
                script.push(0xa7);
            } else if c != 13 {
                script.push(c);
            }
            i = i + 1;
        }
        proof {
            assert(bytes@.take(i as int) =~= bytes@);
        }
        let mut w = self.take_writer();
        let _ = w.write_bytes(script.as_slice());
        self.put_writer(w);
        Ok(())
    }

    /// Writes bytes as they are.
    fn write_raw(&mut self, bytes: &[u8])
        ensures
            final(self)@ == old(self)@ + bytes@,
    {
        let mut w = self.take_writer();
        let _ = w.write_bytes(bytes);
        self.put_writer(w);
    }

    /// Writes nothing.
    pub fn serialize_unit(&mut self) -> (r: Result<(), GraalSerializationError>)
        ensures
            r is Ok,
            final(self)@ == old(self)@,
    {
        Ok(())
    }

    /// Starts a sequence: its elements are quoted and separated by commas.
    pub fn serialize_seq(&mut self) -> (s: SerializeSeqImpl)
        ensures
            s.is_first(),
            final(self)@ == old(self)@,
    {
        SerializeSeqImpl { first: true }
    }
}

/// The state of a sequence being serialized: whether the next element is the first.
pub struct SerializeSeqImpl {
    first: bool,
}

impl SerializeSeqImpl {
    /// Whether no element has been started yet.
    pub closed spec fn is_first(self) -> bool {
        self.first
    }

    /// Starts an element: a comma unless it is the first, then a double quote.
    pub fn begin_element(&mut self, ser: &mut Serializer) -> (r: Result<(), GraalSerializationError>)
        ensures
            r is Ok,
            !final(self).is_first(),
            final(ser)@ == old(ser)@ + if old(self).is_first() {
                seq![34u8]
            } else {
                seq![44u8, 34u8]
            },
    {
        proof {
            use_type_invariant(&*ser);
        }
        let comma: [u8; 1] = [44];
        let quote: [u8; 1] = [34];
        if !self.first {
            ser.write_raw(&comma);
        } else {
            self.first = false;
        }
        ser.write_raw(&quote);
        proof {
            assert(comma@ =~= seq![44u8]);
            assert(quote@ =~= seq![34u8]);
            assert(seq![44u8] + seq![34u8] =~= seq![44u8, 34u8]);
            if !old(self).is_first() {
                assert(old(ser)@ + seq![44u8] + seq![34u8] =~= old(ser)@ + seq![44u8, 34u8]);
            }
        }
        Ok(())
    }

    /// Ends an element: a double quote.
    pub fn end_element(&mut self, ser: &mut Serializer) -> (r: Result<(), GraalSerializationError>)
        ensures
            r is Ok,
            final(self).is_first() == old(self).is_first(),
            final(ser)@ == old(ser)@ + seq![34u8],
    {
        proof {
            use_type_invariant(&*ser);
        }
        let quote: [u8; 1] = [34];
        ser.write_raw(&quote);
        proof {
            assert(quote@ =~= seq![34u8]);
        }
        Ok(())
    }

    /// Writes a string element: in double quotes, after a comma unless it is the first.
    pub fn serialize_element_str(&mut self, ser: &mut Serializer, value: &str) -> (r: Result<
        (),
        GraalSerializationError,
    >)
        ensures
            r is Ok,
            !final(self).is_first(),
            final(ser)@ == old(ser)@ + if old(self).is_first() {
                seq![34u8]
            } else {
                seq![44u8, 34u8]
            } + str_bytes(value@) + seq![34u8],
    {
        let _ = self.begin_element(ser);
        let _ = ser.serialize_str(value);
        let _ = self.end_element(ser);
        Ok(())
    }

    /// Ends the sequence; nothing more is written.
    pub fn end(self) -> (r: Result<(), GraalSerializationError>)
        ensures
            r is Ok,
    {
        Ok(())
    }
}

/// Writes strings as a sequence: each quoted, separated by commas.
pub fn serialize_str_list(ser: &mut Serializer, items: &Vec<String>) -> (r: Result<
    (),
    GraalSerializationError,
>)
    ensures
        r is Ok,
        final(ser)@ == old(ser)@ + quoted_list(items@.map_values(|s: String| s@)),
{
    let mut seq = ser.serialize_seq();
    let ghost start = ser@;
    let mut i: usize = 0;
    while i < items.len()
        invariant
            i <= items@.len(),
            seq.is_first() == (i == 0),
            ser@ == start + quoted_list(items@.take(i as int).map_values(|s: String| s@)),
        decreases items@.len() - i,
    {
        let ghost before = ser@;
        let _ = seq.serialize_element_str(ser, items[i].as_str());
        proof {
            let done = items@.take(i as int).map_values(|s: String| s@);
            let next = items@.take(i + 1).map_values(|s: String| s@);
            assert(next.drop_last() =~= done);
            assert(next.last() == items@[i as int]@);
            if i == 0 {
                assert(done.len() == 0);
                assert(quoted_list(done) =~= Seq::<u8>::empty());
                assert(ser@ =~= start + quoted_list(next));
            } else {
                assert(ser@ =~= start + quoted_list(next));
            }
        }
        i = i + 1;
    }
    proof {
        assert(items@.take(i as int) =~= items@);
    }
    let _ = seq.end();
    Ok(())
}

} // verus!
