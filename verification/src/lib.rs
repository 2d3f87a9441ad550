//! Schema derivation for a document-indexing service.
//!
//! A record type is declared as a list of fields, each with its native type
//! and its annotations. The library maps every native type to the tag the
//! service knows it by, checks the declaration against a fixed set of rules,
//! and assembles the collection schema that the service expects.

pub mod attribute;
pub mod client;
pub mod collection_schema;
pub mod declaration;
pub mod error;
pub mod field;
pub mod laws;
pub mod text;
pub mod validate;
