//! Small types shared by requests.

pub mod distance_metric;
pub mod id;
pub mod vector_encoding;

pub use distance_metric::DistanceMetric;
pub use id::Id;
pub use vector_encoding::VectorEncoding;
