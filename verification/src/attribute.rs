//! Annotations as a declaration carries them: a key and a raw value.

use crate::text::same_text;
use vstd::prelude::*;

verus! {

/// The raw value of an annotation.
///
/// `Flag` is a bare key without a value, `Boolean` and `Text` are literals,
/// and `Expression` is anything that is not known until the program runs,
/// kept as its source text.
#[derive(Debug, PartialEq, Eq)]
pub enum AttributeValue {
    Flag,
    Boolean(bool),
    Text(String),
    Expression(String),
}

/// An annotation on a field or on the record type itself.
#[derive(Debug, PartialEq, Eq)]
pub struct Attribute {
    pub key: String,
    pub value: AttributeValue,
}

/// What an `AttributeValue` holds.
pub enum AttributeValueView {
    Flag,
    Boolean(bool),
    Text(Seq<char>),
    Expression(Seq<char>),
}

/// What an `Attribute` holds.
pub struct AttributeView {
    pub key: Seq<char>,
    pub value: AttributeValueView,
}

impl View for AttributeValue {
    type V = AttributeValueView;

    open spec fn view(&self) -> AttributeValueView {
        match self {
            AttributeValue::Flag => AttributeValueView::Flag,
            AttributeValue::Boolean(b) => AttributeValueView::Boolean(*b),
            AttributeValue::Text(s) => AttributeValueView::Text(s@),
            AttributeValue::Expression(s) => AttributeValueView::Expression(s@),
        }
    }
}

impl View for Attribute {
    type V = AttributeView;

    open spec fn view(&self) -> AttributeView {
        AttributeView { key: self.key@, value: self.value@ }
    }
}

impl DeepView for Attribute {
    type V = AttributeView;

    open spec fn deep_view(&self) -> AttributeView {
        self@
    }
}

impl Clone for AttributeValue {
    fn clone(&self) -> (copy: Self)
        ensures
            copy@ == self@,
    {
        match self {
            AttributeValue::Flag => AttributeValue::Flag,
            AttributeValue::Boolean(b) => AttributeValue::Boolean(*b),
            AttributeValue::Text(s) => AttributeValue::Text(s.clone()),
            AttributeValue::Expression(s) => AttributeValue::Expression(s.clone()),
        }
    }
}

impl Clone for Attribute {
    fn clone(&self) -> (copy: Self)
        ensures
            copy@ == self@,
    {
        Attribute { key: self.key.clone(), value: self.value.clone() }
    }
}

impl AttributeValueView {
    /// The switch that a value sets: a bare key and `true` switch on,
    /// everything else leaves off.
    pub open spec fn switches_on(self) -> bool {
        match self {
            AttributeValueView::Flag => true,
            AttributeValueView::Boolean(b) => b,
            _ => false,
        }
    }

    /// Whether the value has a form that a switch accepts: a bare key or a
    /// boolean literal.
    pub open spec fn is_switch(self) -> bool {
        self is Flag || self is Boolean
    }
}

/// The keys that a field may carry.
pub open spec fn is_field_key(key: Seq<char>) -> bool {
    key == "facet"@ || key == "optional"@
}

/// The keys that the record type may carry.
pub open spec fn is_type_key(key: Seq<char>) -> bool {
    key == "collection_name"@ || key == "default_sorting_field"@
}

/// Whether the annotation at `k` has the key of an annotation before it
/// in the same list.
pub open spec fn repeats_earlier_key(attributes: Seq<AttributeView>, k: int) -> bool {
    exists|j: int| 0 <= j < k && (#[trigger] attributes[j]).key == attributes[k].key
}

/// Whether some annotation of the list has the key and switches it on.
pub open spec fn switched_on(attributes: Seq<AttributeView>, key: Seq<char>) -> bool {
    exists|k: int|
        0 <= k < attributes.len() && (#[trigger] attributes[k]).key == key
            && attributes[k].value.switches_on()
}

/// The text literal given for the key by the last annotation of the list
/// that gives one, if any does.
pub open spec fn literal_for(attributes: Seq<AttributeView>, key: Seq<char>) -> Option<Seq<char>>
    decreases attributes.len(),
{
    if attributes.len() == 0 {
        None
    } else if attributes.last().key == key && attributes.last().value is Text {
        Some(attributes.last().value->Text_0)
    } else {
        literal_for(attributes.drop_last(), key)
    }
}

/// The literal that `literal_for` gives is the value of an annotation of
/// the list with that key, and it gives none only where no annotation of
/// the list has the key with a text literal.
pub proof fn lemma_literal_for_is_declared(attributes: Seq<AttributeView>, key: Seq<char>)
    ensures
        match literal_for(attributes, key) {
            Some(text) => exists|k: int|
                0 <= k < attributes.len() && (#[trigger] attributes[k]).key == key
                    && attributes[k].value == AttributeValueView::Text(text),
            None => forall|k: int|
                0 <= k < attributes.len() ==> !((#[trigger] attributes[k]).key == key
                    && attributes[k].value is Text),
        },
    decreases attributes.len(),
{
    if attributes.len() > 0 {
        let rest = attributes.drop_last();
        lemma_literal_for_is_declared(rest, key);
        if attributes.last().key == key && attributes.last().value is Text {
            assert(attributes[attributes.len() - 1].key == key);
        } else {
            match literal_for(rest, key) {
                Some(text) => {
                    let k = choose|k: int|
                        0 <= k < rest.len() && (#[trigger] rest[k]).key == key && rest[k].value
                            == AttributeValueView::Text(text);
                    assert(attributes[k].key == key);
                },
                None => {
                    assert forall|k: int| 0 <= k < attributes.len() implies !((
                    #[trigger] attributes[k]).key == key && attributes[k].value is Text) by {
                        if k < rest.len() {
                            assert(rest[k] == attributes[k]);
                        }
                    }
                },
            }
        }
    }
}

impl Attribute {
    /// A bare key, as in `facet`.
    pub fn flag(key: &str) -> (attribute: Attribute)
        ensures
            attribute@ == (AttributeView { key: key@, value: AttributeValueView::Flag }),
    {
        Attribute { key: key.to_owned(), value: AttributeValue::Flag }
    }

    /// A key with a boolean literal, as in `facet = true`.
    pub fn boolean(key: &str, value: bool) -> (attribute: Attribute)
        ensures
            attribute@ == (AttributeView { key: key@, value: AttributeValueView::Boolean(value) }),
    {
        Attribute { key: key.to_owned(), value: AttributeValue::Boolean(value) }
    }

    /// A key with a text literal, as in `collection_name = "companies"`.
    pub fn text(key: &str, value: &str) -> (attribute: Attribute)
        ensures
            attribute@ == (AttributeView { key: key@, value: AttributeValueView::Text(value@) }),
    {
        Attribute { key: key.to_owned(), value: AttributeValue::Text(value.to_owned()) }
    }

    /// A key with a value that is no literal, given by its source text, as
    /// in `default_sorting_field = company_name`.
    pub fn expression(key: &str, source: &str) -> (attribute: Attribute)
        ensures
            attribute@ == (AttributeView {
                key: key@,
                value: AttributeValueView::Expression(source@),
            }),
    {
        Attribute { key: key.to_owned(), value: AttributeValue::Expression(source.to_owned()) }
    }
}

impl AttributeValue {
    /// Whether the value is a bare key or a boolean literal.
    pub fn is_switch(&self) -> (r: bool)
        ensures
            r == self@.is_switch(),
    {
        match self {
            AttributeValue::Flag => true,
            AttributeValue::Boolean(_) => true,
            _ => false,
        }
    }

    /// Whether the value switches its key on.
    pub fn switches_on(&self) -> (r: bool)
        ensures
            r == self@.switches_on(),
    {
        match self {
            AttributeValue::Flag => true,
            AttributeValue::Boolean(b) => *b,
            _ => false,
        }
    }
}

/// Whether the key is one that a field may carry.
pub fn field_key_known(key: &String) -> (known: bool)
    ensures
        known == is_field_key(key@),
{
    same_text(key.as_str(), "facet") || same_text(key.as_str(), "optional")
}

/// Whether the key is one that the record type may carry.
pub fn type_key_known(key: &String) -> (known: bool)
    ensures
        known == is_type_key(key@),
{
    same_text(key.as_str(), "collection_name") || same_text(
        key.as_str(),
        "default_sorting_field",
    )
}

/// Whether an earlier annotation of the list has the key of the one at `k`.
pub fn key_repeated(attributes: &Vec<Attribute>, k: usize) -> (repeated: bool)
    requires
        k < attributes.len(),
    ensures
        repeated == repeats_earlier_key(attributes.deep_view(), k as int),
{
    let mut j: usize = 0;
    while j < k
        invariant
            j <= k < attributes.len(),
            forall|i: int|
                0 <= i < j ==> (#[trigger] attributes.deep_view()[i]).key
                    != attributes.deep_view()[k as int].key,
        decreases k - j,
    {
        if attributes[j].key == attributes[k].key {
            assert(attributes.deep_view()[j as int].key == attributes.deep_view()[k as int].key);
            return true;
        }
        j += 1;
    }
    false
}

/// Whether some annotation of the list has the key and switches it on.
pub fn is_switched_on(attributes: &Vec<Attribute>, key: &str) -> (on: bool)
    ensures
        on == switched_on(attributes.deep_view(), key@),
{
    let mut k: usize = 0;
    while k < attributes.len()
        invariant
            k <= attributes.len(),
            forall|i: int|
                0 <= i < k ==> !((#[trigger] attributes.deep_view()[i]).key == key@
                    && attributes.deep_view()[i].value.switches_on()),
        decreases attributes.len() - k,
    {
        if same_text(attributes[k].key.as_str(), key) && attributes[k].value.switches_on() {
            assert(attributes.deep_view()[k as int].key == key@);
            return true;
        }
        k += 1;
    }
    false
}

/// The text literal that the last annotation with the key and a text
/// literal gives, if there is one.
pub fn find_literal<'a>(attributes: &'a Vec<Attribute>, key: &str) -> (text: Option<&'a String>)
    ensures
        match text {
            Some(text) => literal_for(attributes.deep_view(), key@) == Some(text@),
            None => literal_for(attributes.deep_view(), key@) is None,
        },
{
    let mut k: usize = attributes.len();
    assert(attributes.deep_view().take(k as int) =~= attributes.deep_view());
    while k > 0
        invariant
            k <= attributes.len(),
            literal_for(attributes.deep_view(), key@) == literal_for(
                attributes.deep_view().take(k as int),
                key@,
            ),
        decreases k,
    {
        let ghost prefix = attributes.deep_view().take(k as int);
        k -= 1;
        assert(prefix.drop_last() =~= attributes.deep_view().take(k as int));
        if same_text(attributes[k].key.as_str(), key) {
            match &attributes[k].value {
                AttributeValue::Text(text) => {
                    return Some(text);
                },
                _ => {},
            }
        }
    }
    None
}

} // verus!
