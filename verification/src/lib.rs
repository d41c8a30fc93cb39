//! Verified core of a Graal Online client: the Graal integer and string
//! encodings, in-memory readers and writers, the packet formats and the
//! framing, encryption and header logic of the v4, v5 and v6 protocols.

pub mod io;
pub mod net;
pub mod utils;
pub mod config;
pub mod consts;
