use fastsearch::attribute::Attribute;
use fastsearch::client::FastSearchClient;
use fastsearch::collection_schema::{build_schema, FieldDeclaration};
use fastsearch::declaration::{collection_name, DeclaredField};
use fastsearch::error::SchemaError;
use fastsearch::field::field_type::{FieldType, NativeType, ScalarType};

fn company_fields() -> Vec<DeclaredField> {
    vec![
        DeclaredField::new("company_name", NativeType::Text),
        DeclaredField::new("num_employees", NativeType::I32).with(Attribute::flag("facet")),
    ]
}

fn declared(
    name: &str,
    element: ScalarType,
    array: bool,
    facet: bool,
    optional: bool,
) -> FieldDeclaration {
    FieldDeclaration {
        name: name.to_string(),
        field_type: FieldType { element, array },
        facet,
        optional,
    }
}

#[test]
fn company_schema_is_built() {
    let attributes = vec![Attribute::text("default_sorting_field", "num_employees")];
    let schema = build_schema("Company", &attributes, &company_fields()).unwrap();
    assert_eq!(schema.name(), "Company");
    assert_eq!(
        schema.fields(),
        &vec![
            declared("company_name", ScalarType::Str, false, false, false),
            declared("num_employees", ScalarType::Int32, false, true, false),
        ]
    );
    assert_eq!(schema.fields()[0].field_type.as_str(), "string");
    assert_eq!(schema.fields()[1].field_type.as_str(), "int32");
    assert_eq!(schema.default_sorting_field(), Some(&"num_employees".to_string()));
}

#[test]
fn company_schema_with_wrong_sorting_field_is_rejected() {
    let attributes = vec![Attribute::text("default_sorting_field", "wrong_field")];
    let faults = build_schema("Company", &attributes, &company_fields()).unwrap_err();
    assert_eq!(
        faults,
        vec![SchemaError::DanglingSortField {
            record: "Company".to_string(),
            field: "wrong_field".to_string(),
        }]
    );
}

#[test]
fn sorting_field_is_kept_exactly() {
    let fields = vec![
        DeclaredField::new("Rank", NativeType::U16),
        DeclaredField::new("rank", NativeType::U16),
        DeclaredField::new(" rank", NativeType::U16),
    ];
    for name in vec!["Rank", "rank", " rank"] {
        let attributes = vec![Attribute::text("default_sorting_field", name)];
        let schema = build_schema("Player", &attributes, &fields).unwrap();
        assert_eq!(schema.default_sorting_field(), Some(&name.to_string()));
    }
    let attributes = vec![Attribute::text("default_sorting_field", "RANK")];
    assert!(build_schema("Player", &attributes, &fields).is_err());
}

#[test]
fn schema_without_sorting_field_has_none() {
    let schema = build_schema("Company", &vec![], &company_fields()).unwrap();
    assert_eq!(schema.default_sorting_field(), None);
    assert_eq!(schema.name(), "Company");
}

#[test]
fn collection_name_comes_from_the_annotation() {
    let attributes = vec![
        Attribute::text("collection_name", "companies"),
        Attribute::text("default_sorting_field", "num_employees"),
    ];
    let schema = build_schema("Company", &attributes, &company_fields()).unwrap();
    assert_eq!(schema.name(), "companies");
    assert_eq!(collection_name("Company", &attributes), "companies");
    assert_eq!(collection_name("Company", &vec![]), "Company");
}

#[test]
fn fields_stand_in_declaration_order() {
    let names = vec!["zeta", "alpha", "mid", "beta", "Alpha"];
    let fields: Vec<DeclaredField> =
        names.iter().map(|name| DeclaredField::new(name, NativeType::Text)).collect();
    let schema = build_schema("Ordered", &vec![], &fields).unwrap();
    let built: Vec<&str> = schema.fields().iter().map(|field| field.name.as_str()).collect();
    assert_eq!(built, names);
}

#[test]
fn building_twice_gives_the_same_schema() {
    let attributes = vec![
        Attribute::text("collection_name", "companies"),
        Attribute::text("default_sorting_field", "num_employees"),
    ];
    let first = build_schema("Company", &attributes, &company_fields());
    let second = build_schema("Company", &attributes, &company_fields());
    assert_eq!(first, second);
    let wrong = vec![Attribute::text("default_sorting_field", "wrong_field")];
    assert_eq!(
        build_schema("Company", &wrong, &company_fields()),
        build_schema("Company", &wrong, &company_fields())
    );
}

#[test]
fn switches_are_recorded_as_given() {
    let fields = vec![
        DeclaredField::new("bare", NativeType::Text).with(Attribute::flag("facet")),
        DeclaredField::new("on", NativeType::Text).with(Attribute::boolean("facet", true)),
        DeclaredField::new("off", NativeType::Text).with(Attribute::boolean("facet", false)),
        DeclaredField::new("none", NativeType::Text),
        DeclaredField::new("maybe", NativeType::Text).with(Attribute::flag("optional")),
        DeclaredField::new("both", NativeType::Text)
            .with(Attribute::flag("optional"))
            .with(Attribute::flag("facet")),
        DeclaredField::new("neither", NativeType::Text)
            .with(Attribute::boolean("optional", false))
            .with(Attribute::boolean("facet", false)),
    ];
    let schema = build_schema("Switches", &vec![], &fields).unwrap();
    let switches: Vec<(bool, bool)> =
        schema.fields().iter().map(|field| (field.facet, field.optional)).collect();
    assert_eq!(
        switches,
        vec![
            (true, false),
            (true, false),
            (false, false),
            (false, false),
            (false, true),
            (true, true),
            (false, false),
        ]
    );
}

#[test]
fn facet_on_the_sorting_field_of_another_type_is_no_fault() {
    let fields = vec![
        DeclaredField::new("tags", NativeType::Sequence(Box::new(NativeType::Text)))
            .with(Attribute::flag("facet")),
        DeclaredField::new("title", NativeType::Text),
    ];
    let attributes = vec![Attribute::text("default_sorting_field", "title")];
    let schema = build_schema("Article", &attributes, &fields).unwrap();
    assert_eq!(schema.fields()[0], declared("tags", ScalarType::Str, true, true, false));
    assert_eq!(schema.default_sorting_field(), Some(&"title".to_string()));
}

#[test]
fn article_schema_is_built() {
    let fields = vec![
        DeclaredField::new("id", NativeType::Text),
        DeclaredField::new("title", NativeType::Text),
        DeclaredField::new("content", NativeType::Text),
        DeclaredField::new("tags", NativeType::Sequence(Box::new(NativeType::Text))),
        DeclaredField::new("views", NativeType::U32),
        DeclaredField::new("published", NativeType::Boolean),
    ];
    let attributes = vec![
        Attribute::text("collection_name", "articles"),
        Attribute::text("default_sorting_field", "views"),
    ];
    let schema = build_schema("Article", &attributes, &fields).unwrap();
    assert_eq!(schema.name(), "articles");
    let tags: Vec<&str> = schema.fields().iter().map(|field| field.field_type.as_str()).collect();
    assert_eq!(tags, vec!["string", "string", "string", "string[]", "int32", "bool"]);
    assert_eq!(schema.default_sorting_field(), Some(&"views".to_string()));
}

#[test]
fn record_without_fields_gives_an_empty_schema() {
    let schema = build_schema("Nothing", &vec![], &vec![]).unwrap();
    assert_eq!(schema.name(), "Nothing");
    assert!(schema.fields().is_empty());
    assert_eq!(schema.default_sorting_field(), None);
}

#[test]
fn new_client_is_the_client() {
    assert_eq!(FastSearchClient::new(), FastSearchClient {});
    assert_eq!(FastSearchClient::new(), FastSearchClient::new());
}

#[test]
fn copies_equal_what_they_were_taken_from() {
    let attributes = vec![
        Attribute::text("collection_name", "companies"),
        Attribute::expression("default_sorting_field", "NAME"),
        Attribute::flag("facet"),
        Attribute::boolean("optional", false),
    ];
    assert_eq!(attributes.clone(), attributes);
    let fields = company_fields();
    assert_eq!(fields.clone(), fields);
    let schema = build_schema(
        "Company",
        &vec![Attribute::text("default_sorting_field", "num_employees")],
        &fields,
    )
    .unwrap();
    assert_eq!(schema.clone(), schema);
    assert_eq!(schema.fields()[1].clone(), schema.fields()[1]);
    let faults = build_schema("", &attributes, &vec![fields[0].clone(), fields[0].clone()])
        .unwrap_err();
    assert_eq!(faults.len(), 4);
    assert_eq!(faults.clone(), faults);
}
