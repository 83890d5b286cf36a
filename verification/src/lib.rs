//! A metadata compiler for enum-like type definitions.
//!
//! Each variant of a type definition may carry an annotation block:
//! a default marker, a list of platform identifiers the variant applies to,
//! a list of platforms for which it is the preferred ("primary") choice, and
//! an optional display-name override. This crate tokenizes and parses those
//! annotation blocks, validates them, aggregates them into per-type metadata,
//! and answers the generated queries (default variant, display string,
//! applicable and primary variants per platform).
//!
//! The concrete `Family`, `Init` and `PackageManager` enumerations are the
//! consumers of that machinery: their lookup tables follow the same
//! annotation vocabulary.

pub mod token;
pub mod text;
pub mod grammar;
pub mod metadata;
pub mod parse;
pub mod compile;
pub mod artifacts;
pub mod laws;
pub mod family;
pub mod init;
pub mod package_manager;
