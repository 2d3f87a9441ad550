//! A record type as it is declared, before anything is checked.

use crate::attribute::{find_literal, literal_for, Attribute, AttributeView};
use crate::field::field_type::NativeType;
use vstd::prelude::*;

verus! {

/// A field of a record: its name, its native type and its annotations in
/// the order in which they were written.
#[derive(Debug, PartialEq, Eq)]
pub struct DeclaredField {
    pub name: String,
    pub native_type: NativeType,
    pub attributes: Vec<Attribute>,
}

/// What a `DeclaredField` holds.
pub struct DeclaredFieldView {
    pub name: Seq<char>,
    pub native_type: NativeType,
    pub attributes: Seq<AttributeView>,
}

impl View for DeclaredField {
    type V = DeclaredFieldView;

    open spec fn view(&self) -> DeclaredFieldView {
        DeclaredFieldView {
            name: self.name@,
            native_type: self.native_type,
            attributes: self.attributes.deep_view(),
        }
    }
}

impl DeepView for DeclaredField {
    type V = DeclaredFieldView;

    open spec fn deep_view(&self) -> DeclaredFieldView {
        self@
    }
}

impl Clone for DeclaredField {
    fn clone(&self) -> (copy: Self)
        ensures
            copy@ == self@,
    {
        let mut attributes: Vec<Attribute> = Vec::new();
        let mut k: usize = 0;
        while k < self.attributes.len()
            invariant
                k <= self.attributes.len(),
                attributes.len() == k,
                forall|h: int|
                    0 <= h < k ==> (#[trigger] attributes.deep_view()[h])
                        == self.attributes.deep_view()[h],
            decreases self.attributes.len() - k,
        {
            let ghost before = attributes.deep_view();
            attributes.push(self.attributes[k].clone());
            assert forall|h: int| 0 <= h < k + 1 implies (#[trigger] attributes.deep_view()[h])
                == self.attributes.deep_view()[h] by {
                if h < k {
                    assert(attributes.deep_view()[h] == before[h]);
                }
            }
            k += 1;
        }
        assert(attributes.deep_view() =~= self.attributes.deep_view());
        DeclaredField {
            name: self.name.clone(),
            native_type: self.native_type.clone(),
            attributes,
        }
    }
}

impl DeclaredField {
    /// A field without annotations.
    pub fn new(name: &str, native_type: NativeType) -> (field: DeclaredField)
        ensures
            field@ == (DeclaredFieldView { name: name@, native_type, attributes: Seq::empty() }),
    {
        let field = DeclaredField { name: name.to_owned(), native_type, attributes: Vec::new() };
        assert(field@.attributes =~= Seq::empty());
        field
    }

    /// The field with one more annotation after those it has.
    pub fn with(self, attribute: Attribute) -> (field: DeclaredField)
        ensures
            field@ == (DeclaredFieldView {
                name: self@.name,
                native_type: self@.native_type,
                attributes: self@.attributes.push(attribute@),
            }),
    {
        let mut field = self;
        field.attributes.push(attribute);
        assert(field@.attributes =~= self@.attributes.push(attribute@));
        field
    }
}

/// The name of the collection: the one that an annotation on the record
/// type gives, or else the name of the record type.
pub open spec fn collection_name_of(record: Seq<char>, attributes: Seq<AttributeView>) -> Seq<
    char,
> {
    match literal_for(attributes, "collection_name"@) {
        Some(name) => name,
        None => record,
    }
}

/// Whether some field of the list has the name.
pub open spec fn declares(fields: Seq<DeclaredFieldView>, name: Seq<char>) -> bool {
    exists|j: int| 0 <= j < fields.len() && (#[trigger] fields[j]).name == name
}

/// Whether the field at `i` has the name of a field before it.
pub open spec fn repeats_earlier_name(fields: Seq<DeclaredFieldView>, i: int) -> bool {
    exists|j: int| 0 <= j < i && (#[trigger] fields[j]).name == fields[i].name
}

/// Whether some field of the list has the name.
pub fn has_field(fields: &Vec<DeclaredField>, name: &String) -> (found: bool)
    ensures
        found == declares(fields.deep_view(), name@),
{
    let mut j: usize = 0;
    while j < fields.len()
        invariant
            j <= fields.len(),
            forall|i: int| 0 <= i < j ==> (#[trigger] fields.deep_view()[i]).name != name@,
        decreases fields.len() - j,
    {
        if fields[j].name == *name {
            assert(fields.deep_view()[j as int].name == name@);
            return true;
        }
        j += 1;
    }
    false
}

/// Whether an earlier field of the list has the name of the one at `i`.
pub fn name_repeated(fields: &Vec<DeclaredField>, i: usize) -> (repeated: bool)
    requires
        i < fields.len(),
    ensures
        repeated == repeats_earlier_name(fields.deep_view(), i as int),
{
    let mut j: usize = 0;
    while j < i
        invariant
            j <= i < fields.len(),
            forall|h: int|
                0 <= h < j ==> (#[trigger] fields.deep_view()[h]).name
                    != fields.deep_view()[i as int].name,
        decreases i - j,
    {
        if fields[j].name == fields[i].name {
            assert(fields.deep_view()[j as int].name == fields.deep_view()[i as int].name);
            return true;
        }
        j += 1;
    }
    false
}

/// The name that the collection of a declaration gets.
pub fn collection_name(record: &str, attributes: &Vec<Attribute>) -> (name: String)
    ensures
        name@ == collection_name_of(record@, attributes.deep_view()),
{
    match find_literal(attributes, "collection_name") {
        Some(name) => name.clone(),
        None => record.to_owned(),
    }
}

} // verus!
