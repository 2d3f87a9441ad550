//! The tags of the indexing service, the native types of a record, and the
//! table from the one to the other.

use crate::text::same_text;
use vstd::prelude::*;

verus! {

/// The element kinds that the indexing service knows.
#[derive(Clone, Copy, Debug, PartialEq, Eq, Structural, Hash)]
pub enum ScalarType {
    Str,
    Int32,
    Int64,
    Float,
    Bool,
    Object,
}

impl ScalarType {
    /// The lowercase name the service uses for this kind.
    pub open spec fn name(self) -> Seq<char> {
        match self {
            ScalarType::Str => "string"@,
            ScalarType::Int32 => "int32"@,
            ScalarType::Int64 => "int64"@,
            ScalarType::Float => "float"@,
            ScalarType::Bool => "bool"@,
            ScalarType::Object => "object"@,
        }
    }
}

/// A schema type tag: an element kind, alone or as an array of it.
#[derive(Clone, Copy, Debug, PartialEq, Eq, Structural, Hash)]
pub struct FieldType {
    pub element: ScalarType,
    pub array: bool,
}

impl FieldType {
    /// The tag as the service spells it: the element's name, followed by
    /// `[]` for an array.
    pub open spec fn tag(self) -> Seq<char> {
        if self.array {
            self.element.name() + "[]"@
        } else {
            self.element.name()
        }
    }

    /// The tag as a string.
    pub fn as_str(&self) -> (s: &'static str)
        ensures
            s@ == self.tag(),
    {
        proof {
            lemma_array_tags();
        }
        match (self.element, self.array) {
            (ScalarType::Str, false) => "string",
            (ScalarType::Int32, false) => "int32",
            (ScalarType::Int64, false) => "int64",
            (ScalarType::Float, false) => "float",
            (ScalarType::Bool, false) => "bool",
            (ScalarType::Object, false) => "object",
            (ScalarType::Str, true) => "string[]",
            (ScalarType::Int32, true) => "int32[]",
            (ScalarType::Int64, true) => "int64[]",
            (ScalarType::Float, true) => "float[]",
            (ScalarType::Bool, true) => "bool[]",
            (ScalarType::Object, true) => "object[]",
        }
    }
}

/// No two tags are spelled alike.
pub proof fn law_tags_are_distinct(a: FieldType, b: FieldType)
    requires
        a.tag() == b.tag(),
    ensures
        a == b,
{
    lemma_array_tags();
    reveal_strlit("[]");
    reveal_strlit("string");
    reveal_strlit("int32");
    reveal_strlit("int64");
    reveal_strlit("float");
    reveal_strlit("bool");
    reveal_strlit("object");
    let x = a.tag();
    let y = b.tag();
    assert(x.len() == y.len());
    assert(x[0] == y[0]);
    assert(x.len() >= 4 && x[3] == y[3]);
    assert(x[x.len() - 1] == y[y.len() - 1]);
}

impl FieldType {
    /// Reads a tag as the service spells it. A text that is no tag gives
    /// `None`.
    pub fn from_tag(tag: &str) -> (r: Option<FieldType>)
        ensures
            match r {
                Some(field_type) => field_type.tag() == tag@,
                None => forall|field_type: FieldType| field_type.tag() != tag@,
            },
    {
        proof {
            lemma_array_tags();
        }
        if same_text(tag, "string") {
            Some(FieldType { element: ScalarType::Str, array: false })
        } else if same_text(tag, "int32") {
            Some(FieldType { element: ScalarType::Int32, array: false })
        } else if same_text(tag, "int64") {
            Some(FieldType { element: ScalarType::Int64, array: false })
        } else if same_text(tag, "float") {
            Some(FieldType { element: ScalarType::Float, array: false })
        } else if same_text(tag, "bool") {
            Some(FieldType { element: ScalarType::Bool, array: false })
        } else if same_text(tag, "object") {
            Some(FieldType { element: ScalarType::Object, array: false })
        } else if same_text(tag, "string[]") {
            Some(FieldType { element: ScalarType::Str, array: true })
        } else if same_text(tag, "int32[]") {
            Some(FieldType { element: ScalarType::Int32, array: true })
        } else if same_text(tag, "int64[]") {
            Some(FieldType { element: ScalarType::Int64, array: true })
        } else if same_text(tag, "float[]") {
            Some(FieldType { element: ScalarType::Float, array: true })
        } else if same_text(tag, "bool[]") {
            Some(FieldType { element: ScalarType::Bool, array: true })
        } else if same_text(tag, "object[]") {
            Some(FieldType { element: ScalarType::Object, array: true })
        } else {
            None
        }
    }
}

/// Reading a tag back gives the type it was written from.
pub proof fn law_tag_reads_back(written: FieldType, read: Option<FieldType>)
    requires
        match read {
            Some(field_type) => field_type.tag() == written.tag(),
            None => forall|field_type: FieldType| field_type.tag() != written.tag(),
        },
    ensures
        read == Some(written),
{
    match read {
        Some(field_type) => {
            law_tags_are_distinct(field_type, written);
        },
        None => {
            assert(written.tag() == written.tag());
        },
    }
}

/// A native type as a record declares it.
///
/// `Mapping` stands for a keyed mapping with the key and value types given;
/// `Sequence` for a list of the element type given; `Other` for any type
/// that the service has no tag for.
#[derive(Debug, PartialEq, Eq, Hash)]
pub enum NativeType {
    Text,
    I8,
    U8,
    I16,
    U16,
    I32,
    U32,
    I64,
    U64,
    Isize,
    Usize,
    F32,
    F64,
    Boolean,
    Mapping(Box<NativeType>, Box<NativeType>),
    Sequence(Box<NativeType>),
    Other,
}

impl Clone for NativeType {
    fn clone(&self) -> (copy: Self)
        ensures
            copy == *self,
        decreases self,
    {
        match self {
            NativeType::Text => NativeType::Text,
            NativeType::I8 => NativeType::I8,
            NativeType::U8 => NativeType::U8,
            NativeType::I16 => NativeType::I16,
            NativeType::U16 => NativeType::U16,
            NativeType::I32 => NativeType::I32,
            NativeType::U32 => NativeType::U32,
            NativeType::I64 => NativeType::I64,
            NativeType::U64 => NativeType::U64,
            NativeType::Isize => NativeType::Isize,
            NativeType::Usize => NativeType::Usize,
            NativeType::F32 => NativeType::F32,
            NativeType::F64 => NativeType::F64,
            NativeType::Boolean => NativeType::Boolean,
            NativeType::Mapping(key, value) => NativeType::Mapping(
                Box::new((&**key).clone()),
                Box::new((&**value).clone()),
            ),
            NativeType::Sequence(item) => NativeType::Sequence(Box::new((&**item).clone())),
            NativeType::Other => NativeType::Other,
        }
    }
}

/// The element kind of a native type that is no sequence: the fixed table
/// for the scalars, `Object` for a mapping keyed by text whatever its
/// values are, and nothing for the rest.
pub open spec fn element_type_spec(native: NativeType) -> Option<ScalarType> {
    match native {
        NativeType::Text => Some(ScalarType::Str),
        NativeType::I8 | NativeType::U8 | NativeType::I16 | NativeType::U16 | NativeType::I32
        | NativeType::U32 => Some(ScalarType::Int32),
        NativeType::I64 | NativeType::U64 | NativeType::Isize | NativeType::Usize => Some(
            ScalarType::Int64,
        ),
        NativeType::F32 | NativeType::F64 => Some(ScalarType::Float),
        NativeType::Boolean => Some(ScalarType::Bool),
        NativeType::Mapping(key, _) => if *key == NativeType::Text {
            Some(ScalarType::Object)
        } else {
            None
        },
        NativeType::Sequence(_) | NativeType::Other => None,
    }
}

/// The tag of a native type. A sequence of a type that has an element kind
/// is the array of that kind; any other type has the tag of its element
/// kind. A sequence of sequences has no tag, nor has a type without an
/// element kind.
pub open spec fn map_type_spec(native: NativeType) -> Option<FieldType> {
    match native {
        NativeType::Sequence(item) => match element_type_spec(*item) {
            Some(element) => Some(FieldType { element, array: true }),
            None => None,
        },
        _ => match element_type_spec(native) {
            Some(element) => Some(FieldType { element, array: false }),
            None => None,
        },
    }
}

/// Whether the service has a tag for the native type.
pub open spec fn supported(native: NativeType) -> bool {
    map_type_spec(native) is Some
}

/// Looks up the element kind of a native type that is no sequence.
pub fn element_type(native: &NativeType) -> (r: Option<ScalarType>)
    ensures
        r == element_type_spec(*native),
{
    match native {
        NativeType::Text => Some(ScalarType::Str),
        NativeType::I8 | NativeType::U8 | NativeType::I16 | NativeType::U16 | NativeType::I32
        | NativeType::U32 => Some(ScalarType::Int32),
        NativeType::I64 | NativeType::U64 | NativeType::Isize | NativeType::Usize => Some(
            ScalarType::Int64,
        ),
        NativeType::F32 | NativeType::F64 => Some(ScalarType::Float),
        NativeType::Boolean => Some(ScalarType::Bool),
        NativeType::Mapping(key, _) => match **key {
            NativeType::Text => Some(ScalarType::Object),
            _ => None,
        },
        NativeType::Sequence(_) | NativeType::Other => None,
    }
}

/// Maps a native type to its schema tag, or to `None` where it has none.
pub fn map_type(native: &NativeType) -> (r: Option<FieldType>)
    ensures
        r == map_type_spec(*native),
{
    match native {
        NativeType::Sequence(item) => match element_type(item) {
            Some(element) => Some(FieldType { element, array: true }),
            None => None,
        },
        _ => match element_type(native) {
            Some(element) => Some(FieldType { element, array: false }),
            None => None,
        },
    }
}

impl NativeType {
    /// Whether the type is one of the scalars of the fixed table.
    pub open spec fn is_scalar(self) -> bool {
        !(self is Mapping) && !(self is Sequence) && !(self is Other)
    }
}

/// Every scalar of the table has a tag, and the tag is no array.
pub proof fn law_scalars_are_mapped(native: NativeType)
    requires
        native.is_scalar(),
    ensures
        map_type_spec(native) is Some,
        !map_type_spec(native)->Some_0.array,
{
}

/// A mapping keyed by text is an object, whatever the type of its values.
pub proof fn law_text_keyed_mapping_is_object(value: NativeType)
    ensures
        map_type_spec(NativeType::Mapping(Box::new(NativeType::Text), Box::new(value))) == Some(
            FieldType { element: ScalarType::Object, array: false },
        ),
{
}

/// The tag of a sequence is the tag of its items followed by `[]`, for
/// every item type that has a tag and is no sequence itself.
pub proof fn law_sequence_appends_brackets(item: NativeType)
    requires
        supported(item),
        !(item is Sequence),
    ensures
        map_type_spec(NativeType::Sequence(Box::new(item))) is Some,
        map_type_spec(NativeType::Sequence(Box::new(item)))->Some_0.tag() == map_type_spec(
            item,
        )->Some_0.tag() + "[]"@,
{
}

/// A sequence of sequences has no tag.
pub proof fn law_nested_sequence_is_unsupported(item: NativeType)
    ensures
        map_type_spec(NativeType::Sequence(Box::new(NativeType::Sequence(Box::new(item)))))
            is None,
{
}

/// A type that can stand in a document field, with the tag it is indexed
/// under.
pub trait ToFastsearchField {
    /// The declaration-side description of the implementing type.
    spec fn native_type() -> NativeType;

    /// The tag of the implementing type, as the service spells it.
    fn to_fastsearch_type() -> (tag: &'static str)
        ensures
            map_type_spec(Self::native_type()) is Some,
            tag@ == map_type_spec(Self::native_type())->Some_0.tag(),
    ;
}

/// The tag of an array is the name of its element kind followed by `[]`,
/// spelled out for each kind.
proof fn lemma_array_tags()
    ensures
        "string[]"@ == "string"@ + "[]"@,
        "int32[]"@ == "int32"@ + "[]"@,
        "int64[]"@ == "int64"@ + "[]"@,
        "float[]"@ == "float"@ + "[]"@,
        "bool[]"@ == "bool"@ + "[]"@,
        "object[]"@ == "object"@ + "[]"@,
{
    reveal_strlit("[]");
    reveal_strlit("string");
    reveal_strlit("int32");
    reveal_strlit("int64");
    reveal_strlit("float");
    reveal_strlit("bool");
    reveal_strlit("object");
    reveal_strlit("string[]");
    reveal_strlit("int32[]");
    reveal_strlit("int64[]");
    reveal_strlit("float[]");
    reveal_strlit("bool[]");
    reveal_strlit("object[]");
}

impl ToFastsearchField for String {
    open spec fn native_type() -> NativeType {
        NativeType::Text
    }

    #[inline(always)]
    fn to_fastsearch_type() -> (tag: &'static str) {
        "string"
    }
}

impl ToFastsearchField for i8 {
    open spec fn native_type() -> NativeType {
        NativeType::I8
    }

    #[inline(always)]
    fn to_fastsearch_type() -> (tag: &'static str) {
        "int32"
    }
}

impl ToFastsearchField for u8 {
    open spec fn native_type() -> NativeType {
        NativeType::U8
    }

    #[inline(always)]
    fn to_fastsearch_type() -> (tag: &'static str) {
        "int32"
    }
}

impl ToFastsearchField for i16 {
    open spec fn native_type() -> NativeType {
        NativeType::I16
    }

    #[inline(always)]
    fn to_fastsearch_type() -> (tag: &'static str) {
        "int32"
    }
}

impl ToFastsearchField for u16 {
    open spec fn native_type() -> NativeType {
        NativeType::U16
    }

    #[inline(always)]
    fn to_fastsearch_type() -> (tag: &'static str) {
        "int32"
    }
}

impl ToFastsearchField for i32 {
    open spec fn native_type() -> NativeType {
        NativeType::I32
    }

    #[inline(always)]
    fn to_fastsearch_type() -> (tag: &'static str) {
        "int32"
    }
}

impl ToFastsearchField for u32 {
    open spec fn native_type() -> NativeType {
        NativeType::U32
    }

    #[inline(always)]
    fn to_fastsearch_type() -> (tag: &'static str) {
        "int32"
    }
}

impl ToFastsearchField for i64 {
    open spec fn native_type() -> NativeType {
        NativeType::I64
    }

    #[inline(always)]
    fn to_fastsearch_type() -> (tag: &'static str) {
        "int64"
    }
}

impl ToFastsearchField for u64 {
    open spec fn native_type() -> NativeType {
        NativeType::U64
    }

    #[inline(always)]
    fn to_fastsearch_type() -> (tag: &'static str) {
        "int64"
    }
}

impl ToFastsearchField for isize {
    open spec fn native_type() -> NativeType {
        NativeType::Isize
    }

    #[inline(always)]
    fn to_fastsearch_type() -> (tag: &'static str) {
        "int64"
    }
}

impl ToFastsearchField for usize {
    open spec fn native_type() -> NativeType {
        NativeType::Usize
    }

    #[inline(always)]
    fn to_fastsearch_type() -> (tag: &'static str) {
        "int64"
    }
}

impl ToFastsearchField for bool {
    open spec fn native_type() -> NativeType {
        NativeType::Boolean
    }

    #[inline(always)]
    fn to_fastsearch_type() -> (tag: &'static str) {
        "bool"
    }
}

impl<T> ToFastsearchField for std::collections::HashMap<String, T> {
    open spec fn native_type() -> NativeType {
        NativeType::Mapping(Box::new(NativeType::Text), Box::new(NativeType::Other))
    }

    #[inline(always)]
    fn to_fastsearch_type() -> (tag: &'static str) {
        "object"
    }
}

impl<T> ToFastsearchField for std::collections::BTreeMap<String, T> {
    open spec fn native_type() -> NativeType {
        NativeType::Mapping(Box::new(NativeType::Text), Box::new(NativeType::Other))
    }

    #[inline(always)]
    fn to_fastsearch_type() -> (tag: &'static str) {
        "object"
    }
}

impl ToFastsearchField for Vec<String> {
    open spec fn native_type() -> NativeType {
        NativeType::Sequence(Box::new(NativeType::Text))
    }

    #[inline(always)]
    fn to_fastsearch_type() -> (tag: &'static str) {
        proof {
            lemma_array_tags();
        }
        "string[]"
    }
}

impl ToFastsearchField for Vec<i8> {
    open spec fn native_type() -> NativeType {
        NativeType::Sequence(Box::new(NativeType::I8))
    }

    #[inline(always)]
    fn to_fastsearch_type() -> (tag: &'static str) {
        proof {
            lemma_array_tags();
        }
        "int32[]"
    }
}

impl ToFastsearchField for Vec<u8> {
    open spec fn native_type() -> NativeType {
        NativeType::Sequence(Box::new(NativeType::U8))
    }

    #[inline(always)]
    fn to_fastsearch_type() -> (tag: &'static str) {
        proof {
            lemma_array_tags();
        }
        "int32[]"
    }
}

impl ToFastsearchField for Vec<i16> {
    open spec fn native_type() -> NativeType {
        NativeType::Sequence(Box::new(NativeType::I16))
    }

    #[inline(always)]
    fn to_fastsearch_type() -> (tag: &'static str) {
        proof {
            lemma_array_tags();
        }
        "int32[]"
    }
}

impl ToFastsearchField for Vec<u16> {
    open spec fn native_type() -> NativeType {
        NativeType::Sequence(Box::new(NativeType::U16))
    }

    #[inline(always)]
    fn to_fastsearch_type() -> (tag: &'static str) {
        proof {
            lemma_array_tags();
        }
        "int32[]"
    }
}

impl ToFastsearchField for Vec<i32> {
    open spec fn native_type() -> NativeType {
        NativeType::Sequence(Box::new(NativeType::I32))
    }

    #[inline(always)]
    fn to_fastsearch_type() -> (tag: &'static str) {
        proof {
            lemma_array_tags();
        }
        "int32[]"
    }
}

impl ToFastsearchField for Vec<u32> {
    open spec fn native_type() -> NativeType {
        NativeType::Sequence(Box::new(NativeType::U32))
    }

    #[inline(always)]
    fn to_fastsearch_type() -> (tag: &'static str) {
        proof {
            lemma_array_tags();
        }
        "int32[]"
    }
}

impl ToFastsearchField for Vec<i64> {
    open spec fn native_type() -> NativeType {
        NativeType::Sequence(Box::new(NativeType::I64))
    }

    #[inline(always)]
    fn to_fastsearch_type() -> (tag: &'static str) {
        proof {
            lemma_array_tags();
        }
        "int64[]"
    }
}

impl ToFastsearchField for Vec<u64> {
    open spec fn native_type() -> NativeType {
        NativeType::Sequence(Box::new(NativeType::U64))
    }

    #[inline(always)]
    fn to_fastsearch_type() -> (tag: &'static str) {
        proof {
            lemma_array_tags();
        }
        "int64[]"
    }
}

impl ToFastsearchField for Vec<isize> {
    open spec fn native_type() -> NativeType {
        NativeType::Sequence(Box::new(NativeType::Isize))
    }

    #[inline(always)]
    fn to_fastsearch_type() -> (tag: &'static str) {
        proof {
            lemma_array_tags();
        }
        "int64[]"
    }
}

impl ToFastsearchField for Vec<usize> {
    open spec fn native_type() -> NativeType {
        NativeType::Sequence(Box::new(NativeType::Usize))
    }

    #[inline(always)]
    fn to_fastsearch_type() -> (tag: &'static str) {
        proof {
            lemma_array_tags();
        }
        "int64[]"
    }
}

impl ToFastsearchField for Vec<bool> {
    open spec fn native_type() -> NativeType {
        NativeType::Sequence(Box::new(NativeType::Boolean))
    }

    #[inline(always)]
    fn to_fastsearch_type() -> (tag: &'static str) {
        proof {
            lemma_array_tags();
        }
        "bool[]"
    }
}

impl<T> ToFastsearchField for Vec<std::collections::HashMap<String, T>> {
    open spec fn native_type() -> NativeType {
        NativeType::Sequence(
            Box::new(NativeType::Mapping(Box::new(NativeType::Text), Box::new(NativeType::Other))),
        )
    }

    #[inline(always)]
    fn to_fastsearch_type() -> (tag: &'static str) {
        proof {
            lemma_array_tags();
        }
        "object[]"
    }
}

impl<T> ToFastsearchField for Vec<std::collections::BTreeMap<String, T>> {
    open spec fn native_type() -> NativeType {
        NativeType::Sequence(
            Box::new(NativeType::Mapping(Box::new(NativeType::Text), Box::new(NativeType::Other))),
        )
    }

    #[inline(always)]
    fn to_fastsearch_type() -> (tag: &'static str) {
        proof {
            lemma_array_tags();
        }
        "object[]"
    }
}

} // verus!
