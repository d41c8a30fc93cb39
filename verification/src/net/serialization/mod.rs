use vstd::prelude::*;

/// The error type of serialization.
pub mod error;
/// The serializer that writes packet fields.
pub mod serialize;

verus! {

/// A GString is a string that is serialized as a length-preceded string.
#[derive(Debug)]
pub struct GString(pub String);

/// Allow conversion from GString to String.
impl From<GString> for String {
    fn from(g: GString) -> (r: String) {
        g.0
    }
}

impl vstd::std_specs::convert::FromSpecImpl<GString> for String {
    open spec fn obeys_from_spec() -> bool {
        true
    }

    open spec fn from_spec(g: GString) -> String {
        g.0
    }
}

/// Allow conversion from String to GString.
impl From<String> for GString {
    fn from(s: String) -> (r: GString) {
        GString(s)
    }
}

impl vstd::std_specs::convert::FromSpecImpl<String> for GString {
    open spec fn obeys_from_spec() -> bool {
        true
    }

    open spec fn from_spec(s: String) -> GString {
        GString(s)
    }
}

/// A GScript is a string that is serialized with each `\r` removed and each
/// `\n` written as byte 0xA7.
#[derive(Debug)]
pub struct GScript(pub String);

/// Allow conversion from GScript to String.
impl From<GScript> for String {
    fn from(g: GScript) -> (r: String) {
        g.0
    }
}

impl vstd::std_specs::convert::FromSpecImpl<GScript> for String {
    open spec fn obeys_from_spec() -> bool {
        true
    }

    open spec fn from_spec(g: GScript) -> String {
        g.0
    }
}

/// Allow conversion from String to GScript.
impl From<String> for GScript {
    fn from(s: String) -> (r: GScript) {
        GScript(s)
    }
}

impl vstd::std_specs::convert::FromSpecImpl<String> for GScript {
    open spec fn obeys_from_spec() -> bool {
        true
    }

    open spec fn from_spec(s: String) -> GScript {
        GScript(s)
    }
}

} // verus!
