//! Row identifiers.

use crate::value::{Json, Num, Number, Value};
use vstd::prelude::*;
use vstd::std_specs::cmp::PartialEqSpecImpl;
use vstd::std_specs::convert::{FromSpec, FromSpecImpl};

verus! {

/// The identifier of a row: an unsigned integer or a string.
#[derive(Debug, Eq, Hash)]
pub enum Id {
    Uint(u64),
    String(String),
}

/// The mathematical model of an [`Id`].
pub enum IdView {
    Uint(u64),
    String(Seq<char>),
}

impl View for Id {
    type V = IdView;

    open spec fn view(&self) -> IdView {
        match self {
            Id::Uint(n) => IdView::Uint(*n),
            Id::String(s) => IdView::String(s@),
        }
    }
}

impl IdView {
    /// The wire form: the bare number or the bare string.
    pub open spec fn wire(self) -> Json {
        match self {
            IdView::Uint(n) => Json::Number(Num::Int(n as int)),
            IdView::String(s) => Json::String(s),
        }
    }
}

impl Id {
    /// Writes the identifier as a bare number or a bare string.
    pub fn encode(&self) -> (v: Value)
        ensures
            v@ == self@.wire(),
    {
        match self {
            Id::Uint(n) => Value::Number(Number::Unsigned(*n)),
            Id::String(s) => Value::String(s.clone()),
        }
    }
}

impl PartialEq for Id {
    fn eq(&self, other: &Id) -> (r: bool) {
        match (self, other) {
            (Id::Uint(a), Id::Uint(b)) => *a == *b,
            (Id::String(a), Id::String(b)) => *a == *b,
            _ => false,
        }
    }
}

impl PartialEqSpecImpl for Id {
    open spec fn obeys_eq_spec() -> bool {
        true
    }

    open spec fn eq_spec(&self, other: &Id) -> bool {
        self@ == other@
    }
}

impl Clone for Id {
    fn clone(&self) -> (out: Id)
        ensures
            out@ == self@,
    {
        match self {
            Id::Uint(n) => Id::Uint(*n),
            Id::String(s) => Id::String(s.clone()),
        }
    }
}

impl From<u64> for Id {
    fn from(v: u64) -> (id: Id) {
        Id::Uint(v)
    }
}

impl FromSpecImpl<u64> for Id {
    open spec fn obeys_from_spec() -> bool {
        true
    }

    open spec fn from_spec(v: u64) -> Id {
        Id::Uint(v)
    }
}

/// A 64-bit signed integer keeps its bits: a negative one wraps around.
impl From<i64> for Id {
    fn from(v: i64) -> (id: Id) {
        Id::Uint(v as u64)
    }
}

impl FromSpecImpl<i64> for Id {
    open spec fn obeys_from_spec() -> bool {
        true
    }

    open spec fn from_spec(v: i64) -> Id {
        Id::Uint(v as u64)
    }
}

/// A 32-bit signed integer is widened with its sign, then keeps its bits.
impl From<i32> for Id {
    fn from(v: i32) -> (id: Id) {
        Id::Uint(v as u64)
    }
}

impl FromSpecImpl<i32> for Id {
    open spec fn obeys_from_spec() -> bool {
        true
    }

    open spec fn from_spec(v: i32) -> Id {
        Id::Uint(v as u64)
    }
}

impl From<String> for Id {
    fn from(v: String) -> (id: Id) {
        Id::String(v)
    }
}

impl FromSpecImpl<String> for Id {
    open spec fn obeys_from_spec() -> bool {
        true
    }

    open spec fn from_spec(v: String) -> Id {
        Id::String(v)
    }
}

/// The owned copy of a text is known by its view only, so the result is
/// stated on `from` itself.
impl From<&str> for Id {
    fn from(v: &str) -> (id: Id)
        ensures
            id@ == IdView::String(v@),
    {
        Id::String(v.to_owned())
    }
}

impl FromSpecImpl<&str> for Id {
    open spec fn obeys_from_spec() -> bool {
        false
    }

    open spec fn from_spec(v: &str) -> Id {
        Id::Uint(0)
    }
}

/// An integer that is not negative becomes the identifier of the same value.
pub proof fn lemma_id_of_non_negative(v: i64)
    requires
        v >= 0,
    ensures
        <Id as FromSpec<i64>>::from_spec(v)@ == IdView::Uint(v as u64),
        (v as u64) as int == v as int,
{
}

} // verus!
