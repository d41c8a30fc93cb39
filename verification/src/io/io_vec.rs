use vstd::prelude::*;

use super::GraalIoError;
use super::io_sync::{SyncGraalReader, SyncGraalVecWriter, SyncGraalWriter};

verus! {

/// Conversion of a borrowed byte slice into a reader over a copy of its bytes.
pub trait IntoSyncGraalReaderRef {
    /// Converts the value into a SyncGraalReader.
    fn into_sync_graal_reader(self) -> SyncGraalReader;
}

impl IntoSyncGraalReaderRef for &[u8] {
    fn into_sync_graal_reader(self) -> (r: SyncGraalReader)
        ensures
            r@ == self@,
    {
        SyncGraalReader::from_reader(super::bytes_to_vec(self))
    }
}

/// Conversion of a borrowed byte buffer into a writer straight into it,
/// positioned at its start: what is written lands in the caller's vector.
pub trait IntoSyncGraalWriterRef<'a> {
    /// Converts the value into a writer into the caller's vector.
    fn into_sync_graal_writer(self) -> SyncGraalVecWriter<'a>;
}

impl<'a> IntoSyncGraalWriterRef<'a> for &'a mut Vec<u8> {
    fn into_sync_graal_writer(self) -> (w: SyncGraalVecWriter<'a>)
        ensures
            *w.target == *old(self),
            *final(w.target) == *final(self),
            w.position() == 0,
            w@ == old(self)@,
    {
        SyncGraalVecWriter::new(self)
    }
}

/// Conversion of a byte buffer into a reader over it.
pub trait IntoSyncGraalReader {
    /// Converts the value into a SyncGraalReader.
    fn into_sync_graal_reader(self) -> SyncGraalReader;
}

impl IntoSyncGraalReader for Vec<u8> {
    fn into_sync_graal_reader(self) -> (r: SyncGraalReader)
        ensures
            r@ == self@,
    {
        SyncGraalReader::from_reader(self)
    }
}

/// Conversion of a byte buffer into a writer positioned at its start.
pub trait IntoSyncGraalWriter {
    /// Converts the value into a SyncGraalWriter.
    fn into_sync_graal_writer(self) -> SyncGraalWriter;
}

impl IntoSyncGraalWriter for Vec<u8> {
    fn into_sync_graal_writer(self) -> (w: SyncGraalWriter)
        ensures
            w@ == self@,
            w.position() == 0,
    {
        SyncGraalWriter::from_writer(self)
    }
}

/// Whether bytes remain in an in-memory reader.
pub trait InMemoryGraalReaderExt {
    /// Returns whether there are bytes available to be read.
    fn can_read(&mut self) -> Result<bool, GraalIoError>;
}

impl InMemoryGraalReaderExt for SyncGraalReader {
    fn can_read(&mut self) -> (r: Result<bool, GraalIoError>)
        ensures
            r == Ok::<bool, GraalIoError>(old(self)@.len() > 0),
            final(self)@ == old(self)@,
    {
        Ok(self.has_remaining())
    }
}

} // verus!
