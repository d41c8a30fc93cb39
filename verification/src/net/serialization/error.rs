use vstd::prelude::*;

use crate::io::GraalIoError;

verus! {

/// An error type for serialization.
#[derive(Debug)]
pub enum GraalSerializationError {
    /// An error of the underlying writer.
    Io(GraalIoError),
    /// Another error, with its message.
    Other(String),
}

} // verus!
