//! The distance by which vectors are compared.

use crate::value::{Json, Value};
use crate::wire::text_value;
use vstd::prelude::*;

verus! {

/// The distance by which vectors are compared.
#[derive(Debug, Clone, Copy, PartialEq, Eq, Structural)]
pub enum DistanceMetric {
    CosineDistance,
    EuclideanSquared,
}

impl DistanceMetric {
    /// The tag of the metric on the wire: its name in snake case.
    pub open spec fn tag(self) -> Seq<char> {
        match self {
            DistanceMetric::CosineDistance => "cosine_distance"@,
            DistanceMetric::EuclideanSquared => "euclidean_squared"@,
        }
    }

    /// The wire form: the tag as a string.
    pub open spec fn wire(self) -> Json {
        Json::String(self.tag())
    }

    /// The tag of the metric on the wire.
    pub fn as_str(self) -> (tag: &'static str)
        ensures
            tag@ == self.tag(),
    {
        match self {
            DistanceMetric::CosineDistance => "cosine_distance",
            DistanceMetric::EuclideanSquared => "euclidean_squared",
        }
    }

    /// Writes the metric as its tag.
    pub fn encode(self) -> (v: Value)
        ensures
            v@ == self.wire(),
    {
        text_value(self.as_str())
    }
}

} // verus!
