//! Synthesis of builders for record declarations.
//!
//! From the declaration of a record (its name and its named fields, each with
//! a type and directives) the library works out a builder: a staging structure
//! with one slot and one setter per field, and a finalize operation that checks
//! the required slots and assembles the record.

pub mod declaration;
pub mod error;
pub mod directive;
pub mod classify;
pub mod artifact;
pub mod schema;
pub mod synthesis;
pub mod semantics;
pub mod runtime;
pub mod command;
pub mod laws;
