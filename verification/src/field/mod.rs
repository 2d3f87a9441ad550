//! Field types: the tags of the indexing service and the native types that
//! map to them.

pub mod field_type;

pub use self::field_type::{map_type, FieldType, NativeType, ScalarType, ToFastsearchField};
