use fastsearch::field::field_type::{
    element_type, map_type, FieldType, NativeType, ScalarType, ToFastsearchField,
};
use std::collections::{BTreeMap, HashMap};

fn scalar(element: ScalarType) -> Option<FieldType> {
    Some(FieldType { element, array: false })
}

fn array(element: ScalarType) -> Option<FieldType> {
    Some(FieldType { element, array: true })
}

fn sequence_of(item: NativeType) -> NativeType {
    NativeType::Sequence(Box::new(item))
}

fn mapping(key: NativeType, value: NativeType) -> NativeType {
    NativeType::Mapping(Box::new(key), Box::new(value))
}

fn scalars() -> Vec<(NativeType, ScalarType)> {
    vec![
        (NativeType::Text, ScalarType::Str),
        (NativeType::I8, ScalarType::Int32),
        (NativeType::U8, ScalarType::Int32),
        (NativeType::I16, ScalarType::Int32),
        (NativeType::U16, ScalarType::Int32),
        (NativeType::I32, ScalarType::Int32),
        (NativeType::U32, ScalarType::Int32),
        (NativeType::I64, ScalarType::Int64),
        (NativeType::U64, ScalarType::Int64),
        (NativeType::Isize, ScalarType::Int64),
        (NativeType::Usize, ScalarType::Int64),
        (NativeType::F32, ScalarType::Float),
        (NativeType::F64, ScalarType::Float),
        (NativeType::Boolean, ScalarType::Bool),
    ]
}

#[test]
fn every_scalar_maps_by_the_table() {
    for (native, element) in scalars() {
        assert_eq!(map_type(&native), scalar(element));
        assert_eq!(element_type(&native), Some(element));
    }
}

#[test]
fn mapping_twice_gives_the_same_tag() {
    for (native, _) in scalars() {
        assert_eq!(map_type(&native), map_type(&native));
        assert_eq!(map_type(&native), map_type(&native.clone()));
    }
    let nested = sequence_of(mapping(NativeType::Text, NativeType::U8));
    assert_eq!(map_type(&nested), map_type(&nested.clone()));
}

#[test]
fn widths_up_to_32_bits_are_int32() {
    assert_eq!(map_type(&NativeType::U32), scalar(ScalarType::Int32));
    assert_eq!(map_type(&NativeType::I32), scalar(ScalarType::Int32));
    assert_eq!(map_type(&NativeType::U8), scalar(ScalarType::Int32));
}

#[test]
fn wide_and_machine_integers_are_int64() {
    assert_eq!(map_type(&NativeType::I64), scalar(ScalarType::Int64));
    assert_eq!(map_type(&NativeType::Usize), scalar(ScalarType::Int64));
    assert_eq!(map_type(&NativeType::Isize), scalar(ScalarType::Int64));
}

#[test]
fn text_keyed_mapping_is_object_whatever_its_values() {
    let values = vec![
        NativeType::Text,
        NativeType::F64,
        NativeType::Other,
        sequence_of(sequence_of(NativeType::I8)),
        mapping(NativeType::I8, NativeType::I8),
    ];
    for value in values {
        assert_eq!(map_type(&mapping(NativeType::Text, value)), scalar(ScalarType::Object));
    }
}

#[test]
fn mapping_with_another_key_has_no_tag() {
    assert_eq!(map_type(&mapping(NativeType::I32, NativeType::Text)), None);
    assert_eq!(map_type(&mapping(NativeType::Other, NativeType::Text)), None);
    assert_eq!(
        map_type(&mapping(mapping(NativeType::Text, NativeType::Text), NativeType::Text)),
        None
    );
}

#[test]
fn sequence_is_the_array_of_its_item() {
    for (native, element) in scalars() {
        assert_eq!(map_type(&sequence_of(native)), array(element));
    }
    assert_eq!(
        map_type(&sequence_of(mapping(NativeType::Text, NativeType::Other))),
        array(ScalarType::Object)
    );
}

#[test]
fn sequence_tag_is_item_tag_with_brackets() {
    let mut items: Vec<NativeType> = scalars().into_iter().map(|(native, _)| native).collect();
    items.push(mapping(NativeType::Text, NativeType::Boolean));
    for item in items {
        let item_tag = map_type(&item).unwrap().as_str();
        let sequence_tag = map_type(&sequence_of(item)).unwrap().as_str();
        assert_eq!(sequence_tag, format!("{}[]", item_tag));
    }
}

#[test]
fn sequence_of_sequences_has_no_tag() {
    assert_eq!(map_type(&sequence_of(sequence_of(NativeType::Text))), None);
    assert_eq!(map_type(&sequence_of(sequence_of(sequence_of(NativeType::I8)))), None);
}

#[test]
fn unsupported_types_have_no_tag() {
    assert_eq!(map_type(&NativeType::Other), None);
    assert_eq!(element_type(&NativeType::Other), None);
    assert_eq!(map_type(&sequence_of(NativeType::Other)), None);
    assert_eq!(element_type(&sequence_of(NativeType::Text)), None);
}

#[test]
fn tags_are_spelled_as_the_service_expects() {
    let spelled = vec![
        (ScalarType::Str, "string", "string[]"),
        (ScalarType::Int32, "int32", "int32[]"),
        (ScalarType::Int64, "int64", "int64[]"),
        (ScalarType::Float, "float", "float[]"),
        (ScalarType::Bool, "bool", "bool[]"),
        (ScalarType::Object, "object", "object[]"),
    ];
    for (element, alone, as_array) in spelled {
        assert_eq!(FieldType { element, array: false }.as_str(), alone);
        assert_eq!(FieldType { element, array: true }.as_str(), as_array);
    }
}

#[test]
fn reading_a_tag_gives_back_its_type() {
    let elements = vec![
        ScalarType::Str,
        ScalarType::Int32,
        ScalarType::Int64,
        ScalarType::Float,
        ScalarType::Bool,
        ScalarType::Object,
    ];
    for element in elements {
        for array in vec![false, true] {
            let field_type = FieldType { element, array };
            assert_eq!(FieldType::from_tag(field_type.as_str()), Some(field_type));
        }
    }
}

#[test]
fn reading_what_is_no_tag_gives_nothing() {
    for text in vec!["", "String", "int", "int32[", "int32[][]", "[]", "float ", "objects"] {
        assert_eq!(FieldType::from_tag(text), None);
    }
}

#[test]
fn native_scalars_name_their_tags() {
    assert_eq!(String::to_fastsearch_type(), "string");
    assert_eq!(i8::to_fastsearch_type(), "int32");
    assert_eq!(u8::to_fastsearch_type(), "int32");
    assert_eq!(i16::to_fastsearch_type(), "int32");
    assert_eq!(u16::to_fastsearch_type(), "int32");
    assert_eq!(i32::to_fastsearch_type(), "int32");
    assert_eq!(u32::to_fastsearch_type(), "int32");
    assert_eq!(i64::to_fastsearch_type(), "int64");
    assert_eq!(u64::to_fastsearch_type(), "int64");
    assert_eq!(isize::to_fastsearch_type(), "int64");
    assert_eq!(usize::to_fastsearch_type(), "int64");
    assert_eq!(bool::to_fastsearch_type(), "bool");
}

#[test]
fn native_mappings_name_object() {
    assert_eq!(HashMap::<String, u8>::to_fastsearch_type(), "object");
    assert_eq!(HashMap::<String, Vec<Vec<String>>>::to_fastsearch_type(), "object");
    assert_eq!(BTreeMap::<String, bool>::to_fastsearch_type(), "object");
    assert_eq!(Vec::<HashMap<String, u8>>::to_fastsearch_type(), "object[]");
    assert_eq!(Vec::<BTreeMap<String, String>>::to_fastsearch_type(), "object[]");
}

#[test]
fn native_sequences_name_arrays() {
    assert_eq!(Vec::<String>::to_fastsearch_type(), "string[]");
    assert_eq!(Vec::<i8>::to_fastsearch_type(), "int32[]");
    assert_eq!(Vec::<u8>::to_fastsearch_type(), "int32[]");
    assert_eq!(Vec::<i16>::to_fastsearch_type(), "int32[]");
    assert_eq!(Vec::<u16>::to_fastsearch_type(), "int32[]");
    assert_eq!(Vec::<i32>::to_fastsearch_type(), "int32[]");
    assert_eq!(Vec::<u32>::to_fastsearch_type(), "int32[]");
    assert_eq!(Vec::<i64>::to_fastsearch_type(), "int64[]");
    assert_eq!(Vec::<u64>::to_fastsearch_type(), "int64[]");
    assert_eq!(Vec::<isize>::to_fastsearch_type(), "int64[]");
    assert_eq!(Vec::<usize>::to_fastsearch_type(), "int64[]");
    assert_eq!(Vec::<bool>::to_fastsearch_type(), "bool[]");
}

#[test]
fn field_items_are_reached_from_the_field_module() {
    assert_eq!(<u8 as fastsearch::field::ToFastsearchField>::to_fastsearch_type(), "int32");
    assert_eq!(
        fastsearch::field::map_type(&fastsearch::field::NativeType::Boolean),
        Some(fastsearch::field::FieldType {
            element: fastsearch::field::ScalarType::Bool,
            array: false,
        })
    );
}
