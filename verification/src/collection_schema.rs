//! The collection schema and how it is built from a declaration.

use crate::attribute::{
    find_literal, is_switched_on, lemma_literal_for_is_declared, literal_for, switched_on,
    Attribute, AttributeValueView, AttributeView,
};
use crate::declaration::{
    collection_name, collection_name_of, repeats_earlier_name, DeclaredField, DeclaredFieldView,
};
use crate::error::{SchemaError, SchemaErrorView};
use crate::field::field_type::{map_type, map_type_spec, FieldType};
use crate::validate::{dangles, lemma_faultless_declaration, validate, violations};
use vstd::prelude::*;

verus! {

/// A field as the schema describes it.
#[derive(Debug, PartialEq, Eq)]
pub struct FieldDeclaration {
    pub name: String,
    pub field_type: FieldType,
    pub facet: bool,
    pub optional: bool,
}

/// What a `FieldDeclaration` holds.
pub struct FieldDeclarationView {
    pub name: Seq<char>,
    pub field_type: FieldType,
    pub facet: bool,
    pub optional: bool,
}

impl View for FieldDeclaration {
    type V = FieldDeclarationView;

    open spec fn view(&self) -> FieldDeclarationView {
        FieldDeclarationView {
            name: self.name@,
            field_type: self.field_type,
            facet: self.facet,
            optional: self.optional,
        }
    }
}

impl DeepView for FieldDeclaration {
    type V = FieldDeclarationView;

    open spec fn deep_view(&self) -> FieldDeclarationView {
        self@
    }
}

impl Clone for FieldDeclaration {
    fn clone(&self) -> (copy: Self)
        ensures
            copy@ == self@,
    {
        FieldDeclaration {
            name: self.name.clone(),
            field_type: self.field_type,
            facet: self.facet,
            optional: self.optional,
        }
    }
}

/// The description of a record type that the indexing service creates a
/// collection from. Its fields stand in declaration order.
#[derive(Debug, PartialEq, Eq)]
pub struct CollectionSchema {
    name: String,
    fields: Vec<FieldDeclaration>,
    default_sorting_field: Option<String>,
}

/// What a `CollectionSchema` holds.
pub struct CollectionSchemaView {
    pub name: Seq<char>,
    pub fields: Seq<FieldDeclarationView>,
    pub default_sorting_field: Option<Seq<char>>,
}

impl CollectionSchemaView {
    /// Whether some field of the schema has the name.
    pub open spec fn has_field(self, name: Seq<char>) -> bool {
        exists|i: int| 0 <= i < self.fields.len() && (#[trigger] self.fields[i]).name == name
    }

    /// What holds of every schema: the name is not empty, no two fields
    /// share a name, and the default sorting field, where there is one, is
    /// the name of a field.
    pub open spec fn well_formed(self) -> bool {
        &&& self.name.len() > 0
        &&& forall|i: int, j: int|
            0 <= i < j < self.fields.len() ==> (#[trigger] self.fields[i]).name != (
            #[trigger] self.fields[j]).name
        &&& self.default_sorting_field matches Some(name) ==> self.has_field(name)
    }
}

impl View for CollectionSchema {
    type V = CollectionSchemaView;

    closed spec fn view(&self) -> CollectionSchemaView {
        CollectionSchemaView {
            name: self.name@,
            fields: self.fields.deep_view(),
            default_sorting_field: match self.default_sorting_field {
                Some(name) => Some(name@),
                None => None,
            },
        }
    }
}

impl Clone for CollectionSchema {
    fn clone(&self) -> (copy: Self)
        ensures
            copy@ == self@,
    {
        proof {
            use_type_invariant(self);
        }
        let mut fields: Vec<FieldDeclaration> = Vec::new();
        let mut i: usize = 0;
        while i < self.fields.len()
            invariant
                i <= self.fields.len(),
                fields.len() == i,
                forall|h: int|
                    0 <= h < i ==> (#[trigger] fields.deep_view()[h]) == self.fields.deep_view()[h],
            decreases self.fields.len() - i,
        {
            let ghost before = fields.deep_view();
            fields.push(self.fields[i].clone());
            assert forall|h: int| 0 <= h < i + 1 implies (#[trigger] fields.deep_view()[h])
                == self.fields.deep_view()[h] by {
                if h < i {
                    assert(fields.deep_view()[h] == before[h]);
                }
            }
            i += 1;
        }
        assert(fields.deep_view() =~= self.fields.deep_view());
        let default_sorting_field = match &self.default_sorting_field {
            Some(name) => Some(name.clone()),
            None => None,
        };
        CollectionSchema { name: self.name.clone(), fields, default_sorting_field }
    }
}

impl CollectionSchema {
    /// Every schema is well formed, wherever it came from.
    #[verifier::type_invariant]
    spec fn holds_together(self) -> bool {
        self@.well_formed()
    }

    /// The name of the collection, which is never empty.
    pub fn name(&self) -> (name: &String)
        ensures
            name@ == self@.name,
            self@.well_formed(),
    {
        proof {
            use_type_invariant(self);
        }
        &self.name
    }

    /// The fields in declaration order, no two of them under one name.
    pub fn fields(&self) -> (fields: &Vec<FieldDeclaration>)
        ensures
            fields.deep_view() == self@.fields,
            self@.well_formed(),
    {
        proof {
            use_type_invariant(self);
        }
        &self.fields
    }

    /// The name of the field that results are sorted by where a search
    /// asks for no order, if the declaration gave one. It is the name of
    /// one of the fields.
    pub fn default_sorting_field(&self) -> (name: Option<&String>)
        ensures
            match name {
                Some(name) => self@.default_sorting_field == Some(name@),
                None => self@.default_sorting_field is None,
            },
            self@.well_formed(),
    {
        proof {
            use_type_invariant(self);
        }
        match &self.default_sorting_field {
            Some(name) => Some(name),
            None => None,
        }
    }
}

/// The field of the schema that a declared field gives: its name, the tag
/// of its native type, and the two switches as its annotations set them.
pub open spec fn declaration_of(field: DeclaredFieldView) -> FieldDeclarationView {
    FieldDeclarationView {
        name: field.name,
        field_type: map_type_spec(field.native_type).unwrap(),
        facet: switched_on(field.attributes, "facet"@),
        optional: switched_on(field.attributes, "optional"@),
    }
}

/// The schema that a declaration without fault describes.
pub open spec fn schema_of(
    record: Seq<char>,
    attributes: Seq<AttributeView>,
    fields: Seq<DeclaredFieldView>,
) -> CollectionSchemaView {
    CollectionSchemaView {
        name: collection_name_of(record, attributes),
        fields: Seq::new(fields.len(), |i: int| declaration_of(fields[i])),
        default_sorting_field: literal_for(attributes, "default_sorting_field"@),
    }
}

/// What building a schema from a declaration comes to: the schema that
/// the declaration describes where it has no fault, and else all its
/// faults.
pub open spec fn outcome(
    record: Seq<char>,
    attributes: Seq<AttributeView>,
    fields: Seq<DeclaredFieldView>,
) -> Result<CollectionSchemaView, Seq<SchemaErrorView>> {
    if violations(record, attributes, fields).len() == 0 {
        Ok(schema_of(record, attributes, fields))
    } else {
        Err(violations(record, attributes, fields))
    }
}

/// Whether building a schema from the declaration fails and the fault is
/// among those that come back.
pub open spec fn fails_with(
    record: Seq<char>,
    attributes: Seq<AttributeView>,
    fields: Seq<DeclaredFieldView>,
    fault: SchemaErrorView,
) -> bool {
    outcome(record, attributes, fields) matches Err(faults) && faults.contains(fault)
}

/// What a result of building holds.
pub open spec fn outcome_view(r: Result<CollectionSchema, Vec<SchemaError>>) -> Result<
    CollectionSchemaView,
    Seq<SchemaErrorView>,
> {
    match r {
        Ok(schema) => Ok(schema@),
        Err(faults) => Err(faults.deep_view()),
    }
}

/// The schema of a declaration without fault holds what every schema
/// holds.
pub proof fn lemma_faultless_schema_is_well_formed(
    record: Seq<char>,
    attributes: Seq<AttributeView>,
    fields: Seq<DeclaredFieldView>,
)
    requires
        violations(record, attributes, fields).len() == 0,
    ensures
        schema_of(record, attributes, fields).well_formed(),
{
    let schema = schema_of(record, attributes, fields);
    lemma_faultless_declaration(record, attributes, fields);
    assert forall|i: int, j: int| 0 <= i < j < schema.fields.len() implies (
    #[trigger] schema.fields[i]).name != (#[trigger] schema.fields[j]).name by {
        if fields[i].name == fields[j].name {
            assert(repeats_earlier_name(fields, j));
        }
    }
    lemma_literal_for_is_declared(attributes, "default_sorting_field"@);
    if let Some(name) = schema.default_sorting_field {
        let k = choose|k: int|
            0 <= k < attributes.len() && (#[trigger] attributes[k]).key
                == "default_sorting_field"@ && attributes[k].value
                == AttributeValueView::Text(name);
        assert(!dangles(attributes[k], fields));
        let j = choose|j: int| 0 <= j < fields.len() && (#[trigger] fields[j]).name == name;
        assert(schema.fields[j].name == name);
    }
}

/// Builds the fields of the schema from declared fields whose native
/// types all have a tag.
fn assemble_fields(fields: &Vec<DeclaredField>) -> (built: Vec<FieldDeclaration>)
    requires
        forall|i: int|
            0 <= i < fields.len() ==> map_type_spec(
                (#[trigger] fields.deep_view()[i]).native_type,
            ) is Some,
    ensures
        built.deep_view() == Seq::new(
            fields.deep_view().len(),
            |i: int| declaration_of(fields.deep_view()[i]),
        ),
{
    let mut built: Vec<FieldDeclaration> = Vec::new();
    let mut i: usize = 0;
    while i < fields.len()
        invariant
            i <= fields.len(),
            built.len() == i,
            forall|h: int|
                0 <= h < fields.len() ==> map_type_spec(
                    (#[trigger] fields.deep_view()[h]).native_type,
                ) is Some,
            forall|h: int|
                0 <= h < i ==> (#[trigger] built.deep_view()[h]) == declaration_of(
                    fields.deep_view()[h],
                ),
        decreases fields.len() - i,
    {
        let field = &fields[i];
        assert(field@ == fields.deep_view()[i as int]);
        let mapped = map_type(&field.native_type);
        let declaration = FieldDeclaration {
            name: field.name.clone(),
            field_type: mapped.unwrap(),
            facet: is_switched_on(&field.attributes, "facet"),
            optional: is_switched_on(&field.attributes, "optional"),
        };
        let ghost before = built.deep_view();
        built.push(declaration);
        assert forall|h: int| 0 <= h < i + 1 implies (#[trigger] built.deep_view()[h])
            == declaration_of(fields.deep_view()[h]) by {
            if h < i {
                assert(built.deep_view()[h] == before[h]);
            }
        }
        i += 1;
    }
    built
}

/// Builds the collection schema of a record type from its name, the
/// annotations on the type and its fields in declaration order.
///
/// The declaration is held to the rules first. Where it has a fault, all
/// its faults come back and no schema is built. Where it has none, the
/// schema holds the fields in declaration order, each with the tag of its
/// native type and its switches, under the name that the annotations give
/// the collection, or else the name of the record type.
pub fn build_schema(record: &str, attributes: &Vec<Attribute>, fields: &Vec<DeclaredField>) -> (r:
    Result<CollectionSchema, Vec<SchemaError>>)
    ensures
        outcome_view(r) == outcome(record@, attributes.deep_view(), fields.deep_view()),
        r matches Ok(schema) ==> schema@.well_formed(),
{
    let faults = validate(record, attributes, fields);
    if faults.len() > 0 {
        return Err(faults);
    }
    proof {
        lemma_faultless_declaration(record@, attributes.deep_view(), fields.deep_view());
        lemma_faultless_schema_is_well_formed(
            record@,
            attributes.deep_view(),
            fields.deep_view(),
        );
    }
    let default_sorting_field = match find_literal(attributes, "default_sorting_field") {
        Some(name) => Some(name.clone()),
        None => None,
    };
    let schema = CollectionSchema {
        name: collection_name(record, attributes),
        fields: assemble_fields(fields),
        default_sorting_field,
    };
    Ok(schema)
}

} // verus!
