//! The form in which vectors are returned.

use crate::value::{Json, Value};
use crate::wire::text_value;
use vstd::prelude::*;

verus! {

/// The form in which vectors are returned.
#[derive(Debug, Clone, Copy, PartialEq, Eq, Structural)]
pub enum VectorEncoding {
    Float,
    Base64,
}

impl VectorEncoding {
    /// The tag of the encoding on the wire: its name in lower case.
    pub open spec fn tag(self) -> Seq<char> {
        match self {
            VectorEncoding::Float => "float"@,
            VectorEncoding::Base64 => "base64"@,
        }
    }

    /// The wire form: the tag as a string.
    pub open spec fn wire(self) -> Json {
        Json::String(self.tag())
    }

    /// The tag of the encoding on the wire.
    pub fn as_str(self) -> (tag: &'static str)
        ensures
            tag@ == self.tag(),
    {
        match self {
            VectorEncoding::Float => "float",
            VectorEncoding::Base64 => "base64",
        }
    }

    /// Writes the encoding as its tag.
    pub fn encode(self) -> (v: Value)
        ensures
            v@ == self.wire(),
    {
        text_value(self.as_str())
    }
}

} // verus!
