//! Typed query expressions for a vector-search service, and their wire form.
//!
//! Two small languages describe a query: [`Filter`] says which rows match,
//! [`RankBy`] says how the matches are ordered. Both are trees that are
//! built by composition and written as nested arrays whose operators are
//! fixed, case-sensitive tags. [`Value`] is the domain of their operands and
//! of what they are written to.
//!
//! The library builds values and requests; it sends nothing and reads
//! nothing.

pub mod client;
pub mod error;
pub mod filter;
pub mod namespace;
pub mod params;
pub mod rank_by;
pub mod text;
pub mod types;
pub mod value;
pub mod wire;

pub use client::{Client, Method, Request};
pub use error::Error;
pub use filter::{ContainsAllTokensParams, Filter};
pub use namespace::Namespace;
pub use params::{
    AggregateBy, Attributes, Consistency, ConsistencyLevel, IncludeAttributes, MultiQueryParams,
    PatchByFilter, QueryParams, WriteParams,
};
pub use rank_by::{Bm25Params, Order, RankBy};
pub use types::distance_metric::DistanceMetric;
pub use types::id::Id;
pub use types::vector_encoding::VectorEncoding;
pub use value::{Float32, Float64, Number, Value};
