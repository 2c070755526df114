//! The cross-process mirror of the core's types and its validating
//! conversions.

pub mod mappings;
