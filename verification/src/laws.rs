//! What holds of every declaration and of the schema built from it.

use crate::attribute::{
    is_field_key, is_type_key, lemma_literal_for_is_declared, literal_for, repeats_earlier_key,
    AttributeValueView, AttributeView,
};
use crate::collection_schema::{fails_with, lemma_faultless_schema_is_well_formed, outcome};
use crate::declaration::{
    collection_name_of, declares, repeats_earlier_name, DeclaredFieldView,
};
use crate::error::SchemaErrorView;
use crate::field::field_type::supported;
use crate::validate::{
    dangles, field_attribute_faults, field_attributes_faults, field_faults, fields_faults,
    lemma_field_attribute_fault_is_violation, lemma_field_fault_is_violation,
    lemma_record_attribute_fault_is_violation, lemma_record_faults_of_prefix,
    record_attribute_faults, record_attributes_faults, violations,
};
use vstd::prelude::*;

verus! {

/// A field with the name of an earlier field makes building fail with
/// `DuplicateFieldName`, whatever the types of the two are and whatever
/// else the declaration holds.
pub proof fn law_name_collision_fails(
    record: Seq<char>,
    attributes: Seq<AttributeView>,
    fields: Seq<DeclaredFieldView>,
    i: int,
    j: int,
)
    requires
        0 <= i < j < fields.len(),
        fields[i].name == fields[j].name,
    ensures
        fails_with(
            record,
            attributes,
            fields,
            SchemaErrorView::DuplicateFieldName { field: fields[j].name },
        ),
{
    let fault = SchemaErrorView::DuplicateFieldName { field: fields[j].name };
    let all = field_faults(fields, j);
    assert(all[all.len() - 1] == fault);
    lemma_field_fault_is_violation(record, attributes, fields, j, fault);
}

/// A key that stands twice on one field makes building fail with
/// `DuplicateAttribute`, whatever the key is and whatever values the two
/// annotations give.
pub proof fn law_repeated_field_key_fails(
    record: Seq<char>,
    attributes: Seq<AttributeView>,
    fields: Seq<DeclaredFieldView>,
    i: int,
    a: int,
    b: int,
)
    requires
        0 <= i < fields.len(),
        0 <= a < b < fields[i].attributes.len(),
        fields[i].attributes[a].key == fields[i].attributes[b].key,
    ensures
        fails_with(
            record,
            attributes,
            fields,
            SchemaErrorView::DuplicateAttribute {
                field: Some(fields[i].name),
                key: fields[i].attributes[b].key,
            },
        ),
{
    let field = fields[i];
    let key = field.attributes[b].key;
    let fault = SchemaErrorView::DuplicateAttribute { field: Some(field.name), key };
    let all = field_attribute_faults(field.name, field.attributes, b);
    if is_field_key(key) {
        assert(all[0] == fault);
    } else {
        assert(all[1] == fault);
    }
    lemma_field_attribute_fault_is_violation(record, attributes, fields, i, b, fault);
}

/// A key that stands twice on the record type makes building fail with
/// `DuplicateAttribute`, whatever the key is and whatever values the two
/// annotations give.
pub proof fn law_repeated_record_key_fails(
    record: Seq<char>,
    attributes: Seq<AttributeView>,
    fields: Seq<DeclaredFieldView>,
    a: int,
    b: int,
)
    requires
        0 <= a < b < attributes.len(),
        attributes[a].key == attributes[b].key,
    ensures
        fails_with(
            record,
            attributes,
            fields,
            SchemaErrorView::DuplicateAttribute { field: None, key: attributes[b].key },
        ),
{
    let key = attributes[b].key;
    let fault = SchemaErrorView::DuplicateAttribute { field: None, key };
    let all = record_attribute_faults(record, attributes, b, fields);
    if is_type_key(key) {
        assert(all[0] == fault);
    } else {
        assert(all[1] == fault);
    }
    lemma_record_attribute_fault_is_violation(record, attributes, fields, b, fault);
}

/// A key on a field that is neither `facet` nor `optional` makes building
/// fail with `UnknownAttribute`.
pub proof fn law_unknown_field_key_fails(
    record: Seq<char>,
    attributes: Seq<AttributeView>,
    fields: Seq<DeclaredFieldView>,
    i: int,
    k: int,
)
    requires
        0 <= i < fields.len(),
        0 <= k < fields[i].attributes.len(),
        fields[i].attributes[k].key != "facet"@,
        fields[i].attributes[k].key != "optional"@,
    ensures
        fails_with(
            record,
            attributes,
            fields,
            SchemaErrorView::UnknownAttribute {
                field: Some(fields[i].name),
                key: fields[i].attributes[k].key,
            },
        ),
{
    let field = fields[i];
    let fault = SchemaErrorView::UnknownAttribute {
        field: Some(field.name),
        key: field.attributes[k].key,
    };
    assert(field_attribute_faults(field.name, field.attributes, k)[0] == fault);
    lemma_field_attribute_fault_is_violation(record, attributes, fields, i, k, fault);
}

/// A key on the record type that is neither `collection_name` nor
/// `default_sorting_field` makes building fail with `UnknownAttribute`.
pub proof fn law_unknown_record_key_fails(
    record: Seq<char>,
    attributes: Seq<AttributeView>,
    fields: Seq<DeclaredFieldView>,
    k: int,
)
    requires
        0 <= k < attributes.len(),
        attributes[k].key != "collection_name"@,
        attributes[k].key != "default_sorting_field"@,
    ensures
        fails_with(
            record,
            attributes,
            fields,
            SchemaErrorView::UnknownAttribute { field: None, key: attributes[k].key },
        ),
{
    let fault = SchemaErrorView::UnknownAttribute { field: None, key: attributes[k].key };
    assert(record_attribute_faults(record, attributes, k, fields)[0] == fault);
    lemma_record_attribute_fault_is_violation(record, attributes, fields, k, fault);
}

/// A known key on the record type whose value is no text literal makes
/// building fail with `NonLiteralAttributeValue`: a bare key, a boolean
/// and an expression alike.
pub proof fn law_non_literal_record_value_fails(
    record: Seq<char>,
    attributes: Seq<AttributeView>,
    fields: Seq<DeclaredFieldView>,
    k: int,
)
    requires
        0 <= k < attributes.len(),
        is_type_key(attributes[k].key),
        !(attributes[k].value is Text),
    ensures
        fails_with(
            record,
            attributes,
            fields,
            SchemaErrorView::NonLiteralAttributeValue { field: None, key: attributes[k].key },
        ),
{
    let fault = SchemaErrorView::NonLiteralAttributeValue { field: None, key: attributes[k].key };
    let all = record_attribute_faults(record, attributes, k, fields);
    assert(all[all.len() - 1] == fault);
    lemma_record_attribute_fault_is_violation(record, attributes, fields, k, fault);
}

/// A known key on a field whose value is neither bare nor a boolean
/// literal makes building fail with `NonLiteralAttributeValue`.
pub proof fn law_non_literal_field_value_fails(
    record: Seq<char>,
    attributes: Seq<AttributeView>,
    fields: Seq<DeclaredFieldView>,
    i: int,
    k: int,
)
    requires
        0 <= i < fields.len(),
        0 <= k < fields[i].attributes.len(),
        is_field_key(fields[i].attributes[k].key),
        !fields[i].attributes[k].value.is_switch(),
    ensures
        fails_with(
            record,
            attributes,
            fields,
            SchemaErrorView::NonLiteralAttributeValue {
                field: Some(fields[i].name),
                key: fields[i].attributes[k].key,
            },
        ),
{
    let field = fields[i];
    let fault = SchemaErrorView::NonLiteralAttributeValue {
        field: Some(field.name),
        key: field.attributes[k].key,
    };
    let all = field_attribute_faults(field.name, field.attributes, k);
    assert(all[all.len() - 1] == fault);
    lemma_field_attribute_fault_is_violation(record, attributes, fields, i, k, fault);
}

/// A field whose native type has no tag makes building fail with
/// `UnsupportedNativeType`.
pub proof fn law_unsupported_type_fails(
    record: Seq<char>,
    attributes: Seq<AttributeView>,
    fields: Seq<DeclaredFieldView>,
    i: int,
)
    requires
        0 <= i < fields.len(),
        !supported(fields[i].native_type),
    ensures
        fails_with(
            record,
            attributes,
            fields,
            SchemaErrorView::UnsupportedNativeType { field: fields[i].name },
        ),
{
    let field = fields[i];
    let fault = SchemaErrorView::UnsupportedNativeType { field: field.name };
    let first = field_attributes_faults(
        field.name,
        field.attributes,
        field.attributes.len() as int,
    );
    assert(field_faults(fields, i)[first.len() as int] == fault);
    lemma_field_fault_is_violation(record, attributes, fields, i, fault);
}

/// A default sorting field given as a text literal that is the name of no
/// declared field makes building fail with `DanglingSortField`, which
/// carries the name of the record type and the name that was given.
pub proof fn law_dangling_sort_field_fails(
    record: Seq<char>,
    attributes: Seq<AttributeView>,
    fields: Seq<DeclaredFieldView>,
    k: int,
    name: Seq<char>,
)
    requires
        0 <= k < attributes.len(),
        attributes[k].key == "default_sorting_field"@,
        attributes[k].value == AttributeValueView::Text(name),
        forall|i: int| 0 <= i < fields.len() ==> (#[trigger] fields[i]).name != name,
    ensures
        fails_with(
            record,
            attributes,
            fields,
            SchemaErrorView::DanglingSortField { record, field: name },
        ),
{
    let fault = SchemaErrorView::DanglingSortField { record, field: name };
    let all = record_attribute_faults(record, attributes, k, fields);
    assert(all[all.len() - 1] == fault);
    lemma_record_attribute_fault_is_violation(record, attributes, fields, k, fault);
}

/// A declaration whose collection would have an empty name makes building
/// fail with `EmptyCollectionName`.
pub proof fn law_empty_name_fails(
    record: Seq<char>,
    attributes: Seq<AttributeView>,
    fields: Seq<DeclaredFieldView>,
)
    requires
        collection_name_of(record, attributes).len() == 0,
    ensures
        fails_with(
            record,
            attributes,
            fields,
            SchemaErrorView::EmptyCollectionName { record },
        ),
{
    let all = violations(record, attributes, fields);
    assert(all[all.len() - 1] == SchemaErrorView::EmptyCollectionName { record });
}

/// Where building succeeds on a declaration that gives a default sorting
/// field as a text literal, the field is declared and the schema carries
/// that name exactly.
pub proof fn law_sort_field_is_kept(
    record: Seq<char>,
    attributes: Seq<AttributeView>,
    fields: Seq<DeclaredFieldView>,
    k: int,
    name: Seq<char>,
)
    requires
        outcome(record, attributes, fields) is Ok,
        0 <= k < attributes.len(),
        attributes[k].key == "default_sorting_field"@,
        attributes[k].value == AttributeValueView::Text(name),
    ensures
        outcome(record, attributes, fields)->Ok_0.default_sorting_field == Some(name),
        outcome(record, attributes, fields)->Ok_0.has_field(name),
{
    let key = "default_sorting_field"@;
    lemma_literal_for_is_declared(attributes, key);
    let found = literal_for(attributes, key);
    let text = found->Some_0;
    let at = choose|at: int|
        0 <= at < attributes.len() && (#[trigger] attributes[at]).key == key
            && attributes[at].value == AttributeValueView::Text(text);
    if at < k {
        law_repeated_record_key_fails(record, attributes, fields, at, k);
    } else if k < at {
        law_repeated_record_key_fails(record, attributes, fields, k, at);
    }
    lemma_faultless_schema_is_well_formed(record, attributes, fields);
}

/// Building succeeds on a declaration that had no fault and no default
/// sorting field and was then given one that is the name of a declared
/// field, and the schema carries that name exactly.
pub proof fn law_declared_sort_field_is_accepted(
    record: Seq<char>,
    attributes: Seq<AttributeView>,
    fields: Seq<DeclaredFieldView>,
    name: Seq<char>,
)
    requires
        outcome(record, attributes, fields) is Ok,
        forall|k: int|
            0 <= k < attributes.len() ==> (#[trigger] attributes[k]).key
                != "default_sorting_field"@,
        exists|i: int| 0 <= i < fields.len() && (#[trigger] fields[i]).name == name,
    ensures
        outcome(
            record,
            attributes.push(
                AttributeView {
                    key: "default_sorting_field"@,
                    value: AttributeValueView::Text(name),
                },
            ),
            fields,
        ) is Ok,
        outcome(
            record,
            attributes.push(
                AttributeView {
                    key: "default_sorting_field"@,
                    value: AttributeValueView::Text(name),
                },
            ),
            fields,
        )->Ok_0.default_sorting_field == Some(name),
{
    let added = AttributeView {
        key: "default_sorting_field"@,
        value: AttributeValueView::Text(name),
    };
    let extended = attributes.push(added);
    let n = attributes.len() as int;
    lemma_record_faults_of_prefix(record, attributes, extended, fields, n);
    assert(!repeats_earlier_key(extended, n));
    assert(declares(fields, name));
    assert(record_attribute_faults(record, extended, n, fields) =~= Seq::empty());
    assert(record_attributes_faults(record, extended, fields, n + 1) =~= record_attributes_faults(
        record,
        attributes,
        fields,
        n,
    ));
    assert(extended.drop_last() =~= attributes);
    assert("default_sorting_field"@ != "collection_name"@) by {
        reveal_strlit("default_sorting_field");
        reveal_strlit("collection_name");
        assert("default_sorting_field"@.len() == 21);
        assert("collection_name"@.len() == 15);
    }
    assert(collection_name_of(record, extended) == collection_name_of(record, attributes));
    assert(violations(record, extended, fields) =~= violations(record, attributes, fields));
}

/// Whether the annotation at `k` on a field breaks no rule: its key is one
/// that a field may carry and stands there for the first time, and its
/// value is bare or a boolean literal.
pub open spec fn field_attribute_is_valid(attributes: Seq<AttributeView>, k: int) -> bool {
    &&& is_field_key(attributes[k].key)
    &&& !repeats_earlier_key(attributes, k)
    &&& attributes[k].value.is_switch()
}

/// Whether the field at `i` breaks no rule: its native type has a tag, no
/// earlier field has its name, and each of its annotations is valid.
pub open spec fn field_is_valid(fields: Seq<DeclaredFieldView>, i: int) -> bool {
    &&& supported(fields[i].native_type)
    &&& !repeats_earlier_name(fields, i)
    &&& forall|k: int|
        0 <= k < fields[i].attributes.len() ==> #[trigger] field_attribute_is_valid(
            fields[i].attributes,
            k,
        )
}

/// Whether the annotation at `k` on the record type breaks no rule: its
/// key is one that the type may carry and stands there for the first
/// time, its value is a text literal, and where it gives the default
/// sorting field, a field of that name is declared.
pub open spec fn record_attribute_is_valid(
    attributes: Seq<AttributeView>,
    k: int,
    fields: Seq<DeclaredFieldView>,
) -> bool {
    &&& is_type_key(attributes[k].key)
    &&& !repeats_earlier_key(attributes, k)
    &&& attributes[k].value is Text
    &&& !dangles(attributes[k], fields)
}

/// Whether the declaration breaks no rule: every field and every
/// annotation on the record type is valid, and the collection has a name.
pub open spec fn declaration_is_valid(
    record: Seq<char>,
    attributes: Seq<AttributeView>,
    fields: Seq<DeclaredFieldView>,
) -> bool {
    &&& forall|i: int| 0 <= i < fields.len() ==> #[trigger] field_is_valid(fields, i)
    &&& forall|k: int|
        0 <= k < attributes.len() ==> #[trigger] record_attribute_is_valid(attributes, k, fields)
    &&& collection_name_of(record, attributes).len() > 0
}

/// Valid annotations on a field have no faults.
proof fn lemma_valid_field_attributes_have_no_faults(
    field: Seq<char>,
    attributes: Seq<AttributeView>,
    n: int,
)
    requires
        0 <= n <= attributes.len(),
        forall|k: int| 0 <= k < n ==> #[trigger] field_attribute_is_valid(attributes, k),
    ensures
        field_attributes_faults(field, attributes, n).len() == 0,
    decreases n,
{
    if n > 0 {
        lemma_valid_field_attributes_have_no_faults(field, attributes, n - 1);
        assert(field_attribute_is_valid(attributes, n - 1));
    }
}

/// Valid fields have no faults.
proof fn lemma_valid_fields_have_no_faults(fields: Seq<DeclaredFieldView>, n: int)
    requires
        0 <= n <= fields.len(),
        forall|i: int| 0 <= i < n ==> #[trigger] field_is_valid(fields, i),
    ensures
        fields_faults(fields, n).len() == 0,
    decreases n,
{
    if n > 0 {
        lemma_valid_fields_have_no_faults(fields, n - 1);
        let field = fields[n - 1];
        assert(field_is_valid(fields, n - 1));
        lemma_valid_field_attributes_have_no_faults(
            field.name,
            field.attributes,
            field.attributes.len() as int,
        );
    }
}

/// Valid annotations on the record type have no faults.
proof fn lemma_valid_record_attributes_have_no_faults(
    record: Seq<char>,
    attributes: Seq<AttributeView>,
    fields: Seq<DeclaredFieldView>,
    n: int,
)
    requires
        0 <= n <= attributes.len(),
        forall|k: int| 0 <= k < n ==> #[trigger] record_attribute_is_valid(attributes, k, fields),
    ensures
        record_attributes_faults(record, attributes, fields, n).len() == 0,
    decreases n,
{
    if n > 0 {
        lemma_valid_record_attributes_have_no_faults(record, attributes, fields, n - 1);
        assert(record_attribute_is_valid(attributes, n - 1, fields));
    }
}

/// Building succeeds on the declarations that break no rule, and on no
/// others.
pub proof fn law_building_succeeds_exactly_when_valid(
    record: Seq<char>,
    attributes: Seq<AttributeView>,
    fields: Seq<DeclaredFieldView>,
)
    ensures
        outcome(record, attributes, fields) is Ok <==> declaration_is_valid(
            record,
            attributes,
            fields,
        ),
{
    if declaration_is_valid(record, attributes, fields) {
        lemma_valid_fields_have_no_faults(fields, fields.len() as int);
        lemma_valid_record_attributes_have_no_faults(
            record,
            attributes,
            fields,
            attributes.len() as int,
        );
    }
    if outcome(record, attributes, fields) is Ok {
        assert forall|i: int| 0 <= i < fields.len() implies #[trigger] field_is_valid(
            fields,
            i,
        ) by {
            if !supported(fields[i].native_type) {
                law_unsupported_type_fails(record, attributes, fields, i);
            }
            if repeats_earlier_name(fields, i) {
                let j = choose|j: int| 0 <= j < i && (#[trigger] fields[j]).name == fields[i].name;
                law_name_collision_fails(record, attributes, fields, j, i);
            }
            let marks = fields[i].attributes;
            assert forall|k: int| 0 <= k < marks.len() implies #[trigger] field_attribute_is_valid(
                marks,
                k,
            ) by {
                if !is_field_key(marks[k].key) {
                    law_unknown_field_key_fails(record, attributes, fields, i, k);
                } else if !marks[k].value.is_switch() {
                    law_non_literal_field_value_fails(record, attributes, fields, i, k);
                }
                if repeats_earlier_key(marks, k) {
                    let j = choose|j: int| 0 <= j < k && (#[trigger] marks[j]).key == marks[k].key;
                    law_repeated_field_key_fails(record, attributes, fields, i, j, k);
                }
            }
        }
        assert forall|k: int|
            0 <= k < attributes.len() implies #[trigger] record_attribute_is_valid(
            attributes,
            k,
            fields,
        ) by {
            if !is_type_key(attributes[k].key) {
                law_unknown_record_key_fails(record, attributes, fields, k);
            } else if !(attributes[k].value is Text) {
                law_non_literal_record_value_fails(record, attributes, fields, k);
            } else if dangles(attributes[k], fields) {
                law_dangling_sort_field_fails(
                    record,
                    attributes,
                    fields,
                    k,
                    attributes[k].value->Text_0,
                );
            }
            if repeats_earlier_key(attributes, k) {
                let j = choose|j: int|
                    0 <= j < k && (#[trigger] attributes[j]).key == attributes[k].key;
                law_repeated_record_key_fails(record, attributes, fields, j, k);
            }
        }
        if collection_name_of(record, attributes).len() == 0 {
            law_empty_name_fails(record, attributes, fields);
        }
    }
}

/// Where building succeeds, the schema holds one field for each declared
/// field, in declaration order and under the declared name.
pub proof fn law_fields_keep_their_order(
    record: Seq<char>,
    attributes: Seq<AttributeView>,
    fields: Seq<DeclaredFieldView>,
)
    requires
        outcome(record, attributes, fields) is Ok,
    ensures
        outcome(record, attributes, fields)->Ok_0.fields.len() == fields.len(),
        forall|i: int|
            0 <= i < fields.len() ==> (#[trigger] outcome(
                record,
                attributes,
                fields,
            )->Ok_0.fields[i]).name == fields[i].name,
{
}

/// Where building succeeds, the schema is well formed: it has a name, no
/// two of its fields share one, and its default sorting field, if it has
/// one, is among its fields.
pub proof fn law_built_schema_is_well_formed(
    record: Seq<char>,
    attributes: Seq<AttributeView>,
    fields: Seq<DeclaredFieldView>,
)
    requires
        outcome(record, attributes, fields) is Ok,
    ensures
        outcome(record, attributes, fields)->Ok_0.well_formed(),
{
    lemma_faultless_schema_is_well_formed(record, attributes, fields);
}

} // verus!
