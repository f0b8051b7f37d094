//! Helpers for string-keyed maps of dynamically-typed values: a builder that
//! fills such a map, and typed access to what a map holds.

pub mod builder;
pub mod error;
pub mod json;
pub mod laws;
pub mod metadata;

pub use builder::ValuesMapBuilder;
pub use error::ValuesError;
pub use json::ValuesMap;
pub use metadata::MetadataExt;
