use fastsearch::error::SchemaError;

fn text(s: &str) -> String {
    s.to_string()
}

#[test]
fn faults_on_fields_name_the_field() {
    assert_eq!(
        SchemaError::UnsupportedNativeType { field: text("blob") }.message(),
        "field `blob`: the native type has no schema type"
    );
    assert_eq!(
        SchemaError::DuplicateFieldName { field: text("id") }.message(),
        "field `id` is declared more than once"
    );
    assert_eq!(
        SchemaError::DuplicateAttribute { field: Some(text("country")), key: text("facet") }
            .message(),
        "field `country`: attribute `facet` is given more than once"
    );
    assert_eq!(
        SchemaError::UnknownAttribute { field: Some(text("country")), key: text("facets") }
            .message(),
        "field `country`: unknown attribute `facets`"
    );
    assert_eq!(
        SchemaError::NonLiteralAttributeValue { field: Some(text("country")), key: text("facet") }
            .message(),
        "field `country`: the value of attribute `facet` must be a literal"
    );
}

#[test]
fn faults_on_the_type_name_the_type() {
    assert_eq!(
        SchemaError::DuplicateAttribute { field: None, key: text("collection_name") }.message(),
        "type: attribute `collection_name` is given more than once"
    );
    assert_eq!(
        SchemaError::UnknownAttribute { field: None, key: text("sort_by") }.message(),
        "type: unknown attribute `sort_by`"
    );
    assert_eq!(
        SchemaError::NonLiteralAttributeValue { field: None, key: text("default_sorting_field") }
            .message(),
        "type: the value of attribute `default_sorting_field` must be a literal"
    );
    assert_eq!(
        SchemaError::DanglingSortField { record: text("Company"), field: text("wrong_field") }
            .message(),
        "type `Company`: default sorting field `wrong_field` is not a field of the type"
    );
    assert_eq!(
        SchemaError::EmptyCollectionName { record: text("Company") }.message(),
        "type `Company`: the collection name is empty"
    );
}
