//! The rules that a declaration is held to, and the faults it has by them.

use crate::attribute::{
    field_key_known, is_field_key, is_type_key, key_repeated, repeats_earlier_key,
    type_key_known, Attribute, AttributeValue, AttributeView,
};
use crate::declaration::{
    collection_name, collection_name_of, declares, has_field, name_repeated,
    repeats_earlier_name, DeclaredField, DeclaredFieldView,
};
use crate::error::{SchemaError, SchemaErrorView};
use crate::field::field_type::{map_type, supported};
use crate::text::same_text;
use vstd::prelude::*;

verus! {

/// The fault alone where the condition holds, nothing where it does not.
pub open spec fn fault_if(condition: bool, fault: SchemaErrorView) -> Seq<SchemaErrorView> {
    if condition {
        seq![fault]
    } else {
        Seq::empty()
    }
}

/// The faults of the annotation at `k` on a field: an unknown key, a key
/// that stands on the field already, and a value that is no switch under a
/// known key, in this order.
pub open spec fn field_attribute_faults(
    field: Seq<char>,
    attributes: Seq<AttributeView>,
    k: int,
) -> Seq<SchemaErrorView> {
    let key = attributes[k].key;
    fault_if(!is_field_key(key), SchemaErrorView::UnknownAttribute { field: Some(field), key })
        + fault_if(
        repeats_earlier_key(attributes, k),
        SchemaErrorView::DuplicateAttribute { field: Some(field), key },
    ) + fault_if(
        is_field_key(key) && !attributes[k].value.is_switch(),
        SchemaErrorView::NonLiteralAttributeValue { field: Some(field), key },
    )
}

/// The faults of the first `n` annotations on a field, in their order.
pub open spec fn field_attributes_faults(
    field: Seq<char>,
    attributes: Seq<AttributeView>,
    n: int,
) -> Seq<SchemaErrorView>
    decreases n,
{
    if n <= 0 {
        Seq::empty()
    } else {
        field_attributes_faults(field, attributes, n - 1) + field_attribute_faults(
            field,
            attributes,
            n - 1,
        )
    }
}

/// The faults of the field at `i`: those of its annotations, then a native
/// type without a tag, then a name that an earlier field has.
pub open spec fn field_faults(fields: Seq<DeclaredFieldView>, i: int) -> Seq<SchemaErrorView> {
    let field = fields[i];
    field_attributes_faults(field.name, field.attributes, field.attributes.len() as int)
        + fault_if(
        !supported(field.native_type),
        SchemaErrorView::UnsupportedNativeType { field: field.name },
    ) + fault_if(
        repeats_earlier_name(fields, i),
        SchemaErrorView::DuplicateFieldName { field: field.name },
    )
}

/// The faults of the first `n` fields, in their order.
pub open spec fn fields_faults(fields: Seq<DeclaredFieldView>, n: int) -> Seq<SchemaErrorView>
    decreases n,
{
    if n <= 0 {
        Seq::empty()
    } else {
        fields_faults(fields, n - 1) + field_faults(fields, n - 1)
    }
}

/// Whether the annotation names a default sorting field that no field of
/// the list has the name of.
pub open spec fn dangles(attribute: AttributeView, fields: Seq<DeclaredFieldView>) -> bool {
    &&& attribute.key == "default_sorting_field"@
    &&& attribute.value is Text
    &&& !declares(fields, attribute.value->Text_0)
}

/// The faults of the annotation at `k` on the record type: an unknown key,
/// a key that stands on the type already, a value that is no text literal
/// under a known key, and a default sorting field that no field has the
/// name of, in this order.
pub open spec fn record_attribute_faults(
    record: Seq<char>,
    attributes: Seq<AttributeView>,
    k: int,
    fields: Seq<DeclaredFieldView>,
) -> Seq<SchemaErrorView> {
    let key = attributes[k].key;
    fault_if(!is_type_key(key), SchemaErrorView::UnknownAttribute { field: None, key }) + fault_if(
        repeats_earlier_key(attributes, k),
        SchemaErrorView::DuplicateAttribute { field: None, key },
    ) + fault_if(
        is_type_key(key) && !(attributes[k].value is Text),
        SchemaErrorView::NonLiteralAttributeValue { field: None, key },
    ) + fault_if(
        dangles(attributes[k], fields),
        SchemaErrorView::DanglingSortField { record, field: attributes[k].value->Text_0 },
    )
}

/// The faults of the first `n` annotations on the record type, in their
/// order.
pub open spec fn record_attributes_faults(
    record: Seq<char>,
    attributes: Seq<AttributeView>,
    fields: Seq<DeclaredFieldView>,
    n: int,
) -> Seq<SchemaErrorView>
    decreases n,
{
    if n <= 0 {
        Seq::empty()
    } else {
        record_attributes_faults(record, attributes, fields, n - 1) + record_attribute_faults(
            record,
            attributes,
            n - 1,
            fields,
        )
    }
}

/// All the faults of a declaration: those of its fields in declaration
/// order, then those of the annotations on the record type, then an empty
/// name for the collection.
pub open spec fn violations(
    record: Seq<char>,
    attributes: Seq<AttributeView>,
    fields: Seq<DeclaredFieldView>,
) -> Seq<SchemaErrorView> {
    fields_faults(fields, fields.len() as int) + record_attributes_faults(
        record,
        attributes,
        fields,
        attributes.len() as int,
    ) + fault_if(
        collection_name_of(record, attributes).len() == 0,
        SchemaErrorView::EmptyCollectionName { record },
    )
}

/// Every fault of one of the first `n` fields is among the faults of
/// those fields together.
pub proof fn lemma_field_fault_is_reported(
    fields: Seq<DeclaredFieldView>,
    n: int,
    i: int,
    fault: SchemaErrorView,
)
    requires
        0 <= i < n,
        field_faults(fields, i).contains(fault),
    ensures
        fields_faults(fields, n).contains(fault),
    decreases n,
{
    let earlier = fields_faults(fields, n - 1);
    let last = field_faults(fields, n - 1);
    if i == n - 1 {
        let at = choose|at: int| 0 <= at < last.len() && last[at] == fault;
        assert((earlier + last)[earlier.len() + at] == fault);
    } else {
        lemma_field_fault_is_reported(fields, n - 1, i, fault);
        let at = choose|at: int| 0 <= at < earlier.len() && earlier[at] == fault;
        assert((earlier + last)[at] == fault);
    }
}

/// Every fault of one of the first `n` annotations on a field is among the
/// faults of those annotations together.
pub proof fn lemma_field_attribute_fault_is_reported(
    field: Seq<char>,
    attributes: Seq<AttributeView>,
    n: int,
    k: int,
    fault: SchemaErrorView,
)
    requires
        0 <= k < n,
        field_attribute_faults(field, attributes, k).contains(fault),
    ensures
        field_attributes_faults(field, attributes, n).contains(fault),
    decreases n,
{
    let earlier = field_attributes_faults(field, attributes, n - 1);
    let last = field_attribute_faults(field, attributes, n - 1);
    if k == n - 1 {
        let at = choose|at: int| 0 <= at < last.len() && last[at] == fault;
        assert((earlier + last)[earlier.len() + at] == fault);
    } else {
        lemma_field_attribute_fault_is_reported(field, attributes, n - 1, k, fault);
        let at = choose|at: int| 0 <= at < earlier.len() && earlier[at] == fault;
        assert((earlier + last)[at] == fault);
    }
}

/// Every fault of one of the first `n` annotations on the record type is
/// among the faults of those annotations together.
pub proof fn lemma_record_attribute_fault_is_reported(
    record: Seq<char>,
    attributes: Seq<AttributeView>,
    fields: Seq<DeclaredFieldView>,
    n: int,
    k: int,
    fault: SchemaErrorView,
)
    requires
        0 <= k < n,
        record_attribute_faults(record, attributes, k, fields).contains(fault),
    ensures
        record_attributes_faults(record, attributes, fields, n).contains(fault),
    decreases n,
{
    let earlier = record_attributes_faults(record, attributes, fields, n - 1);
    let last = record_attribute_faults(record, attributes, n - 1, fields);
    if k == n - 1 {
        let at = choose|at: int| 0 <= at < last.len() && last[at] == fault;
        assert((earlier + last)[earlier.len() + at] == fault);
    } else {
        lemma_record_attribute_fault_is_reported(record, attributes, fields, n - 1, k, fault);
        let at = choose|at: int| 0 <= at < earlier.len() && earlier[at] == fault;
        assert((earlier + last)[at] == fault);
    }
}

/// A fault of the field at `i` is a fault of the declaration.
pub proof fn lemma_field_fault_is_violation(
    record: Seq<char>,
    attributes: Seq<AttributeView>,
    fields: Seq<DeclaredFieldView>,
    i: int,
    fault: SchemaErrorView,
)
    requires
        0 <= i < fields.len(),
        field_faults(fields, i).contains(fault),
    ensures
        violations(record, attributes, fields).contains(fault),
{
    lemma_field_fault_is_reported(fields, fields.len() as int, i, fault);
    let first = fields_faults(fields, fields.len() as int);
    let at = choose|at: int| 0 <= at < first.len() && first[at] == fault;
    assert(violations(record, attributes, fields)[at] == fault);
}

/// A fault of the annotation at `k` on the field at `i` is a fault of the
/// declaration.
pub proof fn lemma_field_attribute_fault_is_violation(
    record: Seq<char>,
    attributes: Seq<AttributeView>,
    fields: Seq<DeclaredFieldView>,
    i: int,
    k: int,
    fault: SchemaErrorView,
)
    requires
        0 <= i < fields.len(),
        0 <= k < fields[i].attributes.len(),
        field_attribute_faults(fields[i].name, fields[i].attributes, k).contains(fault),
    ensures
        violations(record, attributes, fields).contains(fault),
{
    let field = fields[i];
    lemma_field_attribute_fault_is_reported(
        field.name,
        field.attributes,
        field.attributes.len() as int,
        k,
        fault,
    );
    let first = field_attributes_faults(
        field.name,
        field.attributes,
        field.attributes.len() as int,
    );
    let at = choose|at: int| 0 <= at < first.len() && first[at] == fault;
    assert(field_faults(fields, i)[at] == fault);
    lemma_field_fault_is_violation(record, attributes, fields, i, fault);
}

/// A fault of the annotation at `k` on the record type is a fault of the
/// declaration.
pub proof fn lemma_record_attribute_fault_is_violation(
    record: Seq<char>,
    attributes: Seq<AttributeView>,
    fields: Seq<DeclaredFieldView>,
    k: int,
    fault: SchemaErrorView,
)
    requires
        0 <= k < attributes.len(),
        record_attribute_faults(record, attributes, k, fields).contains(fault),
    ensures
        violations(record, attributes, fields).contains(fault),
{
    lemma_record_attribute_fault_is_reported(
        record,
        attributes,
        fields,
        attributes.len() as int,
        k,
        fault,
    );
    let first = fields_faults(fields, fields.len() as int);
    let second = record_attributes_faults(record, attributes, fields, attributes.len() as int);
    let at = choose|at: int| 0 <= at < second.len() && second[at] == fault;
    assert(violations(record, attributes, fields)[first.len() + at] == fault);
}

/// The faults of the first `n` annotations on the record type are those
/// of the first `n` annotations of any list that begins with the same `n`.
pub proof fn lemma_record_faults_of_prefix(
    record: Seq<char>,
    attributes: Seq<AttributeView>,
    longer: Seq<AttributeView>,
    fields: Seq<DeclaredFieldView>,
    n: int,
)
    requires
        0 <= n <= attributes.len() <= longer.len(),
        forall|k: int| 0 <= k < n ==> attributes[k] == longer[k],
    ensures
        record_attributes_faults(record, longer, fields, n) == record_attributes_faults(
            record,
            attributes,
            fields,
            n,
        ),
    decreases n,
{
    if n > 0 {
        lemma_record_faults_of_prefix(record, attributes, longer, fields, n - 1);
    }
}

/// What a declaration without fault is known to be free of: every native
/// type has a tag, no field repeats the name of an earlier one, no
/// annotation on the record type names a default sorting field that is
/// not declared, and the collection has a name.
pub proof fn lemma_faultless_declaration(
    record: Seq<char>,
    attributes: Seq<AttributeView>,
    fields: Seq<DeclaredFieldView>,
)
    requires
        violations(record, attributes, fields).len() == 0,
    ensures
        forall|i: int| 0 <= i < fields.len() ==> supported((#[trigger] fields[i]).native_type),
        forall|i: int| 0 <= i < fields.len() ==> !#[trigger] repeats_earlier_name(fields, i),
        forall|k: int| 0 <= k < attributes.len() ==> !dangles(#[trigger] attributes[k], fields),
        collection_name_of(record, attributes).len() > 0,
{
    assert forall|i: int| 0 <= i < fields.len() implies supported(
        (#[trigger] fields[i]).native_type,
    ) && !repeats_earlier_name(fields, i) by {
        let field = fields[i];
        let first = field_attributes_faults(
            field.name,
            field.attributes,
            field.attributes.len() as int,
        );
        if !supported(field.native_type) {
            let fault = SchemaErrorView::UnsupportedNativeType { field: field.name };
            assert(field_faults(fields, i)[first.len() as int] == fault);
            lemma_field_fault_is_violation(record, attributes, fields, i, fault);
        }
        if repeats_earlier_name(fields, i) {
            let fault = SchemaErrorView::DuplicateFieldName { field: field.name };
            lemma_field_fault_is_violation(record, attributes, fields, i, fault);
        }
    }
    assert forall|k: int| 0 <= k < attributes.len() implies !dangles(
        #[trigger] attributes[k],
        fields,
    ) by {
        if dangles(attributes[k], fields) {
            let fault = SchemaErrorView::DanglingSortField {
                record,
                field: attributes[k].value->Text_0,
            };
            let all = record_attribute_faults(record, attributes, k, fields);
            assert(all[all.len() - 1] == fault);
            lemma_record_attribute_fault_is_violation(record, attributes, fields, k, fault);
        }
    }
}

/// Adds the fault to the list where the condition holds.
fn report_if(faults: &mut Vec<SchemaError>, condition: bool, fault: SchemaError)
    ensures
        final(faults).deep_view() == old(faults).deep_view() + fault_if(condition, fault@),
{
    if condition {
        faults.push(fault);
    }
}

/// Checks the annotations of a field and adds their faults to the list.
fn check_field_attributes(field: &DeclaredField, faults: &mut Vec<SchemaError>)
    ensures
        final(faults).deep_view() == old(faults).deep_view() + field_attributes_faults(
            field@.name,
            field@.attributes,
            field@.attributes.len() as int,
        ),
{
    let ghost before = faults.deep_view();
    let mut k: usize = 0;
    while k < field.attributes.len()
        invariant
            k <= field.attributes.len(),
            faults.deep_view() == before + field_attributes_faults(
                field@.name,
                field@.attributes,
                k as int,
            ),
        decreases field.attributes.len() - k,
    {
        let attribute = &field.attributes[k];
        let known = field_key_known(&attribute.key);
        let repeated = key_repeated(&field.attributes, k);
        let switch = attribute.value.is_switch();
        report_if(
            faults,
            !known,
            SchemaError::UnknownAttribute {
                field: Some(field.name.clone()),
                key: attribute.key.clone(),
            },
        );
        report_if(
            faults,
            repeated,
            SchemaError::DuplicateAttribute {
                field: Some(field.name.clone()),
                key: attribute.key.clone(),
            },
        );
        report_if(
            faults,
            known && !switch,
            SchemaError::NonLiteralAttributeValue {
                field: Some(field.name.clone()),
                key: attribute.key.clone(),
            },
        );
        k += 1;
    }
}

/// Checks the fields of a record and adds their faults to the list.
fn check_fields(fields: &Vec<DeclaredField>, faults: &mut Vec<SchemaError>)
    ensures
        final(faults).deep_view() == old(faults).deep_view() + fields_faults(
            fields.deep_view(),
            fields.len() as int,
        ),
{
    let ghost before = faults.deep_view();
    let mut i: usize = 0;
    while i < fields.len()
        invariant
            i <= fields.len(),
            faults.deep_view() == before + fields_faults(fields.deep_view(), i as int),
        decreases fields.len() - i,
    {
        let field = &fields[i];
        check_field_attributes(field, faults);
        let mapped = map_type(&field.native_type);
        let repeated = name_repeated(fields, i);
        report_if(
            faults,
            mapped.is_none(),
            SchemaError::UnsupportedNativeType { field: field.name.clone() },
        );
        report_if(faults, repeated, SchemaError::DuplicateFieldName { field: field.name.clone() });
        i += 1;
    }
}

/// The text of a value that is a text literal.
fn text_literal(value: &AttributeValue) -> (text: Option<&String>)
    ensures
        text is Some == value@ is Text,
        text is Some ==> text->Some_0@ == value@->Text_0,
{
    match value {
        AttributeValue::Text(text) => Some(text),
        _ => None,
    }
}

/// Checks the annotations on the record type and adds their faults to the
/// list.
fn check_record_attributes(
    record: &str,
    attributes: &Vec<Attribute>,
    fields: &Vec<DeclaredField>,
    faults: &mut Vec<SchemaError>,
)
    ensures
        final(faults).deep_view() == old(faults).deep_view() + record_attributes_faults(
            record@,
            attributes.deep_view(),
            fields.deep_view(),
            attributes.len() as int,
        ),
{
    let ghost before = faults.deep_view();
    let mut k: usize = 0;
    while k < attributes.len()
        invariant
            k <= attributes.len(),
            faults.deep_view() == before + record_attributes_faults(
                record@,
                attributes.deep_view(),
                fields.deep_view(),
                k as int,
            ),
        decreases attributes.len() - k,
    {
        let attribute = &attributes[k];
        let known = type_key_known(&attribute.key);
        let repeated = key_repeated(attributes, k);
        let text = text_literal(&attribute.value);
        report_if(
            faults,
            !known,
            SchemaError::UnknownAttribute { field: None, key: attribute.key.clone() },
        );
        report_if(
            faults,
            repeated,
            SchemaError::DuplicateAttribute { field: None, key: attribute.key.clone() },
        );
        report_if(
            faults,
            known && text.is_none(),
            SchemaError::NonLiteralAttributeValue { field: None, key: attribute.key.clone() },
        );
        if let Some(name) = text {
            let dangling = same_text(attribute.key.as_str(), "default_sorting_field")
                && !has_field(fields, name);
            report_if(
                faults,
                dangling,
                SchemaError::DanglingSortField { record: record.to_owned(), field: name.clone() },
            );
        }
        k += 1;
    }
}

/// Holds a declaration to the rules and returns every fault it has: those
/// of the fields in declaration order, then those of the annotations on
/// the record type. A declaration without fault gives the empty list.
pub fn validate(record: &str, attributes: &Vec<Attribute>, fields: &Vec<DeclaredField>) -> (faults:
    Vec<SchemaError>)
    ensures
        faults.deep_view() == violations(record@, attributes.deep_view(), fields.deep_view()),
{
    let mut faults: Vec<SchemaError> = Vec::new();
    check_fields(fields, &mut faults);
    check_record_attributes(record, attributes, fields, &mut faults);
    let unnamed = collection_name(record, attributes).as_str().is_empty();
    report_if(&mut faults, unnamed, SchemaError::EmptyCollectionName { record: record.to_owned() });
    faults
}

} // verus!
