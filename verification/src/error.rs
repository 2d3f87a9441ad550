//! The faults that a declaration can have.

use vstd::prelude::*;
use vstd::string::StringExecFns;

verus! {

/// A fault found in a declaration.
///
/// Where a fault lies in an annotation, `field` names the field that
/// carries it, and is `None` for an annotation on the record type itself.
#[allow(inconsistent_fields)]
#[derive(Debug, PartialEq, Eq)]
pub enum SchemaError {
    /// The native type of the field has no tag.
    UnsupportedNativeType { field: String },
    /// The key already stands on the same field or type.
    DuplicateAttribute { field: Option<String>, key: String },
    /// The key is none of those that the field or type may carry.
    UnknownAttribute { field: Option<String>, key: String },
    /// The value of the key is no literal of the form that the key takes.
    NonLiteralAttributeValue { field: Option<String>, key: String },
    /// The default sorting field of the record names no declared field.
    DanglingSortField { record: String, field: String },
    /// An earlier field of the record has the same name.
    DuplicateFieldName { field: String },
    /// The name that the collection of the record would get is empty.
    EmptyCollectionName { record: String },
}

/// What a `SchemaError` holds.
#[allow(inconsistent_fields)]
pub enum SchemaErrorView {
    UnsupportedNativeType { field: Seq<char> },
    DuplicateAttribute { field: Option<Seq<char>>, key: Seq<char> },
    UnknownAttribute { field: Option<Seq<char>>, key: Seq<char> },
    NonLiteralAttributeValue { field: Option<Seq<char>>, key: Seq<char> },
    DanglingSortField { record: Seq<char>, field: Seq<char> },
    DuplicateFieldName { field: Seq<char> },
    EmptyCollectionName { record: Seq<char> },
}

/// The text of an optional string.
pub open spec fn text_of(s: Option<String>) -> Option<Seq<char>> {
    match s {
        Some(s) => Some(s@),
        None => None,
    }
}

impl View for SchemaError {
    type V = SchemaErrorView;

    open spec fn view(&self) -> SchemaErrorView {
        match self {
            SchemaError::UnsupportedNativeType { field } => SchemaErrorView::UnsupportedNativeType {
                field: field@,
            },
            SchemaError::DuplicateAttribute { field, key } => SchemaErrorView::DuplicateAttribute {
                field: text_of(*field),
                key: key@,
            },
            SchemaError::UnknownAttribute { field, key } => SchemaErrorView::UnknownAttribute {
                field: text_of(*field),
                key: key@,
            },
            SchemaError::NonLiteralAttributeValue {
                field,
                key,
            } => SchemaErrorView::NonLiteralAttributeValue { field: text_of(*field), key: key@ },
            SchemaError::DanglingSortField {
                record,
                field,
            } => SchemaErrorView::DanglingSortField { record: record@, field: field@ },
            SchemaError::DuplicateFieldName { field } => SchemaErrorView::DuplicateFieldName {
                field: field@,
            },
            SchemaError::EmptyCollectionName { record } => SchemaErrorView::EmptyCollectionName {
                record: record@,
            },
        }
    }
}

impl DeepView for SchemaError {
    type V = SchemaErrorView;

    open spec fn deep_view(&self) -> SchemaErrorView {
        self@
    }
}

/// A copy of an optional string.
fn copy_of(s: &Option<String>) -> (copy: Option<String>)
    ensures
        text_of(copy) == text_of(*s),
{
    match s {
        Some(s) => Some(s.clone()),
        None => None,
    }
}

impl Clone for SchemaError {
    fn clone(&self) -> (copy: Self)
        ensures
            copy@ == self@,
    {
        match self {
            SchemaError::UnsupportedNativeType { field } => SchemaError::UnsupportedNativeType {
                field: field.clone(),
            },
            SchemaError::DuplicateAttribute { field, key } => SchemaError::DuplicateAttribute {
                field: copy_of(field),
                key: key.clone(),
            },
            SchemaError::UnknownAttribute { field, key } => SchemaError::UnknownAttribute {
                field: copy_of(field),
                key: key.clone(),
            },
            SchemaError::NonLiteralAttributeValue {
                field,
                key,
            } => SchemaError::NonLiteralAttributeValue { field: copy_of(field), key: key.clone() },
            SchemaError::DanglingSortField { record, field } => SchemaError::DanglingSortField {
                record: record.clone(),
                field: field.clone(),
            },
            SchemaError::DuplicateFieldName { field } => SchemaError::DuplicateFieldName {
                field: field.clone(),
            },
            SchemaError::EmptyCollectionName { record } => SchemaError::EmptyCollectionName {
                record: record.clone(),
            },
        }
    }
}

/// Where an annotation stands, in words: on the record type, or on the
/// field of the given name.
pub open spec fn site_of(field: Option<Seq<char>>) -> Seq<char> {
    match field {
        Some(name) => "field `"@ + name + "`"@,
        None => "type"@,
    }
}

impl SchemaErrorView {
    /// The fault in words, with the names that locate it.
    pub open spec fn message(self) -> Seq<char> {
        match self {
            SchemaErrorView::UnsupportedNativeType { field } => "field `"@ + field
                + "`: the native type has no schema type"@,
            SchemaErrorView::DuplicateAttribute { field, key } => site_of(field)
                + ": attribute `"@ + key + "` is given more than once"@,
            SchemaErrorView::UnknownAttribute { field, key } => site_of(field)
                + ": unknown attribute `"@ + key + "`"@,
            SchemaErrorView::NonLiteralAttributeValue { field, key } => site_of(field)
                + ": the value of attribute `"@ + key + "` must be a literal"@,
            SchemaErrorView::DanglingSortField { record, field } => "type `"@ + record
                + "`: default sorting field `"@ + field + "` is not a field of the type"@,
            SchemaErrorView::DuplicateFieldName { field } => "field `"@ + field
                + "` is declared more than once"@,
            SchemaErrorView::EmptyCollectionName { record } => "type `"@ + record
                + "`: the collection name is empty"@,
        }
    }
}

/// Writes where an annotation stands.
fn site(field: &Option<String>) -> (text: String)
    ensures
        text@ == site_of(text_of(*field)),
{
    match field {
        Some(name) => {
            let mut text = String::from_str("field `");
            text.append(name.as_str());
            text.append("`");
            text
        },
        None => String::from_str("type"),
    }
}

impl SchemaError {
    /// The fault in words, with the names that locate it.
    pub fn message(&self) -> (text: String)
        ensures
            text@ == self@.message(),
    {
        match self {
            SchemaError::UnsupportedNativeType { field } => {
                let mut text = String::from_str("field `");
                text.append(field.as_str());
                text.append("`: the native type has no schema type");
                text
            },
            SchemaError::DuplicateAttribute { field, key } => {
                let mut text = site(field);
                text.append(": attribute `");
                text.append(key.as_str());
                text.append("` is given more than once");
                text
            },
            SchemaError::UnknownAttribute { field, key } => {
                let mut text = site(field);
                text.append(": unknown attribute `");
                text.append(key.as_str());
                text.append("`");
                text
            },
            SchemaError::NonLiteralAttributeValue { field, key } => {
                let mut text = site(field);
                text.append(": the value of attribute `");
                text.append(key.as_str());
                text.append("` must be a literal");
                text
            },
            SchemaError::DanglingSortField { record, field } => {
                let mut text = String::from_str("type `");
                text.append(record.as_str());
                text.append("`: default sorting field `");
                text.append(field.as_str());
                text.append("` is not a field of the type");
                text
            },
            SchemaError::DuplicateFieldName { field } => {
                let mut text = String::from_str("field `");
                text.append(field.as_str());
                text.append("` is declared more than once");
                text
            },
            SchemaError::EmptyCollectionName { record } => {
                let mut text = String::from_str("type `");
                text.append(record.as_str());
                text.append("`: the collection name is empty");
                text
            },
        }
    }
}

} // verus!
