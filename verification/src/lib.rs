//! Build Prometheus metrics declaratively as structs.
//!
//! The library compiles a struct-shaped schema — named fields with a declared
//! instrument type, documentation fragments, and optional per-field
//! configuration — into one validated construction-and-registration plan per
//! field. A token-level front end owns the conversion between source text and
//! these plain values.

pub mod error;
pub mod metric_type;
pub mod opts;
pub mod schema;
pub mod text;
