//! The schema part of an OpenAPI document as this library reads it, with the
//! mathematical view of each type. Formats and enumerated literals are held as
//! the text the document gives; whatever else a schema says and the library
//! never looks into is carried along in `rest`.
use vstd::prelude::*;

verus! {

/// A place where a schema is expected: a schema, or a reference to one.
#[derive(Debug, PartialEq, Eq)]
pub enum SchemaRef {
    Reference(String),
    Item(Schema),
}

/// What an object schema says of properties that it does not list.
#[derive(Debug, PartialEq, Eq)]
pub enum Additional {
    Absent,
    Any(bool),
    Schema(Box<SchemaRef>),
}

/// The property that selects the variant of a union, and the tag values that
/// are mapped to references explicitly.
#[derive(Debug, PartialEq, Eq)]
pub struct Discriminator {
    pub property_name: String,
    pub mapping: Vec<(String, String)>,
}

#[derive(Debug, PartialEq, Eq)]
pub enum SchemaKind {
    Object { properties: Vec<(String, SchemaRef)>, required: Vec<String>, additional: Additional },
    Array { items: Option<Box<SchemaRef>>, unique_items: bool },
    String { format: Option<String>, enumeration: Vec<Option<String>> },
    Integer { format: Option<String>, enumeration: Vec<Option<String>> },
    Number { format: Option<String>, enumeration: Vec<Option<String>> },
    Boolean { enumeration: Vec<Option<String>> },
    OneOf(Vec<SchemaRef>),
    AllOf(Vec<SchemaRef>),
    AnyOf(Vec<SchemaRef>),
    Not(Box<SchemaRef>),
    /// A schema without a type; `trivial` says that it constrains nothing.
    Any { trivial: bool },
}

#[derive(Debug, PartialEq, Eq)]
pub struct Schema {
    pub description: Option<String>,
    pub discriminator: Option<Discriminator>,
    pub kind: SchemaKind,
    pub rest: String,
}

pub enum SchemaRefView {
    Reference(Seq<char>),
    Item(SchemaView),
}

pub enum AdditionalView {
    Absent,
    Any(bool),
    Schema(Box<SchemaRefView>),
}

pub struct DiscriminatorView {
    pub property_name: Seq<char>,
    pub mapping: Seq<(Seq<char>, Seq<char>)>,
}

pub enum SchemaKindView {
    Object {
        properties: Seq<(Seq<char>, SchemaRefView)>,
        required: Seq<Seq<char>>,
        additional: AdditionalView,
    },
    Array { items: Option<Box<SchemaRefView>>, unique_items: bool },
    String { format: Option<Seq<char>>, enumeration: Seq<Option<Seq<char>>> },
    Integer { format: Option<Seq<char>>, enumeration: Seq<Option<Seq<char>>> },
    Number { format: Option<Seq<char>>, enumeration: Seq<Option<Seq<char>>> },
    Boolean { enumeration: Seq<Option<Seq<char>>> },
    OneOf(Seq<SchemaRefView>),
    AllOf(Seq<SchemaRefView>),
    AnyOf(Seq<SchemaRefView>),
    Not(Box<SchemaRefView>),
    Any { trivial: bool },
}

pub struct SchemaView {
    pub description: Option<Seq<char>>,
    pub discriminator: Option<DiscriminatorView>,
    pub kind: SchemaKindView,
    pub rest: Seq<char>,
}

impl DeepView for Discriminator {
    type V = DiscriminatorView;

    open spec fn deep_view(&self) -> DiscriminatorView {
        DiscriminatorView {
            property_name: self.property_name@,
            mapping: self.mapping.deep_view(),
        }
    }
}

/// The view of a schema or reference.
pub open spec fn schema_ref_view(r: SchemaRef) -> SchemaRefView
    decreases r,
{
    match r {
        SchemaRef::Reference(reference) => SchemaRefView::Reference(reference@),
        SchemaRef::Item(schema) => SchemaRefView::Item(schema_view(schema)),
    }
}

/// The views of a list of schemas or references, in order.
pub open spec fn schema_refs_view(list: Seq<SchemaRef>) -> Seq<SchemaRefView>
    decreases list,
{
    Seq::new(list.len(), |i: int| if 0 <= i < list.len() { schema_ref_view(list[i]) } else { arbitrary() })
}

/// The views of a list of named schemas or references, in order.
pub open spec fn properties_view(list: Seq<(String, SchemaRef)>) -> Seq<(Seq<char>, SchemaRefView)>
    decreases list,
{
    Seq::new(
        list.len(),
        |i: int| if 0 <= i < list.len() { (list[i].0@, schema_ref_view(list[i].1)) } else { arbitrary() },
    )
}

pub open spec fn additional_view(a: Additional) -> AdditionalView
    decreases a,
{
    match a {
        Additional::Absent => AdditionalView::Absent,
        Additional::Any(allowed) => AdditionalView::Any(allowed),
        Additional::Schema(inner) => AdditionalView::Schema(Box::new(schema_ref_view(*inner))),
    }
}

pub open spec fn schema_kind_view(kind: SchemaKind) -> SchemaKindView
    decreases kind,
{
    match kind {
        SchemaKind::Object { properties, required, additional } => SchemaKindView::Object {
            properties: properties_view(properties@),
            required: required.deep_view(),
            additional: additional_view(additional),
        },
        SchemaKind::Array { items, unique_items } => SchemaKindView::Array {
            items: match items {
                Some(inner) => Some(Box::new(schema_ref_view(*inner))),
                None => None,
            },
            unique_items,
        },
        SchemaKind::String { format, enumeration } => SchemaKindView::String {
            format: format.deep_view(),
            enumeration: enumeration.deep_view(),
        },
        SchemaKind::Integer { format, enumeration } => SchemaKindView::Integer {
            format: format.deep_view(),
            enumeration: enumeration.deep_view(),
        },
        SchemaKind::Number { format, enumeration } => SchemaKindView::Number {
            format: format.deep_view(),
            enumeration: enumeration.deep_view(),
        },
        SchemaKind::Boolean { enumeration } => SchemaKindView::Boolean {
            enumeration: enumeration.deep_view(),
        },
        SchemaKind::OneOf(list) => SchemaKindView::OneOf(schema_refs_view(list@)),
        SchemaKind::AllOf(list) => SchemaKindView::AllOf(schema_refs_view(list@)),
        SchemaKind::AnyOf(list) => SchemaKindView::AnyOf(schema_refs_view(list@)),
        SchemaKind::Not(inner) => SchemaKindView::Not(Box::new(schema_ref_view(*inner))),
        SchemaKind::Any { trivial } => SchemaKindView::Any { trivial },
    }
}

pub open spec fn schema_view(schema: Schema) -> SchemaView
    decreases schema,
{
    SchemaView {
        description: schema.description.deep_view(),
        discriminator: schema.discriminator.deep_view(),
        kind: schema_kind_view(schema.kind),
        rest: schema.rest@,
    }
}

impl DeepView for SchemaRef {
    type V = SchemaRefView;

    open spec fn deep_view(&self) -> SchemaRefView {
        schema_ref_view(*self)
    }
}

impl DeepView for Schema {
    type V = SchemaView;

    open spec fn deep_view(&self) -> SchemaView {
        schema_view(*self)
    }
}

} // verus!
