//! What schemas compile to: type expressions and named types, with the
//! mathematical view of each. Rendering these as source text is left to the
//! caller.
use vstd::prelude::*;

verus! {

/// The type that stands for a schema where one is used.
#[derive(Debug, PartialEq, Eq)]
pub enum TypeExpr {
    /// A named type of the compiled model.
    Model(String),
    Text,
    Bytes,
    Date,
    DateTime,
    Int32,
    Int64,
    Float,
    Double,
    Bool,
    /// A type named by the document itself through a format it made up.
    Custom(String),
    /// Any JSON value.
    AnyValue,
    /// The one empty object type, shared by all that refer to it.
    EmptyModel,
    /// A map from strings to values of the inner type.
    MapOf(Box<TypeExpr>),
    ListOf(Box<TypeExpr>),
    /// A list that keeps its order and holds nothing twice.
    SetOf(Box<TypeExpr>),
}

pub enum TypeExprView {
    Model(Seq<char>),
    Text,
    Bytes,
    Date,
    DateTime,
    Int32,
    Int64,
    Float,
    Double,
    Bool,
    Custom(Seq<char>),
    AnyValue,
    EmptyModel,
    MapOf(Box<TypeExprView>),
    ListOf(Box<TypeExprView>),
    SetOf(Box<TypeExprView>),
}

pub open spec fn type_expr_view(t: TypeExpr) -> TypeExprView
    decreases t,
{
    match t {
        TypeExpr::Model(ident) => TypeExprView::Model(ident@),
        TypeExpr::Text => TypeExprView::Text,
        TypeExpr::Bytes => TypeExprView::Bytes,
        TypeExpr::Date => TypeExprView::Date,
        TypeExpr::DateTime => TypeExprView::DateTime,
        TypeExpr::Int32 => TypeExprView::Int32,
        TypeExpr::Int64 => TypeExprView::Int64,
        TypeExpr::Float => TypeExprView::Float,
        TypeExpr::Double => TypeExprView::Double,
        TypeExpr::Bool => TypeExprView::Bool,
        TypeExpr::Custom(path) => TypeExprView::Custom(path@),
        TypeExpr::AnyValue => TypeExprView::AnyValue,
        TypeExpr::EmptyModel => TypeExprView::EmptyModel,
        TypeExpr::MapOf(inner) => TypeExprView::MapOf(Box::new(type_expr_view(*inner))),
        TypeExpr::ListOf(inner) => TypeExprView::ListOf(Box::new(type_expr_view(*inner))),
        TypeExpr::SetOf(inner) => TypeExprView::SetOf(Box::new(type_expr_view(*inner))),
    }
}

impl DeepView for TypeExpr {
    type V = TypeExprView;

    open spec fn deep_view(&self) -> TypeExprView {
        type_expr_view(*self)
    }
}

/// One field of a struct or of a union variant.
#[derive(Debug, PartialEq, Eq)]
pub struct Field {
    pub ident: String,
    /// The property's name in the document, where the identifier differs from it.
    pub rename: Option<String>,
    pub ty: TypeExpr,
    /// An optional field is left out of what is written when it is absent.
    pub required: bool,
    pub description: Option<String>,
}

pub struct FieldView {
    pub ident: Seq<char>,
    pub rename: Option<Seq<char>>,
    pub ty: TypeExprView,
    pub required: bool,
    pub description: Option<Seq<char>>,
}

impl DeepView for Field {
    type V = FieldView;

    open spec fn deep_view(&self) -> FieldView {
        FieldView {
            ident: self.ident@,
            rename: self.rename.deep_view(),
            ty: self.ty.deep_view(),
            required: self.required,
            description: self.description.deep_view(),
        }
    }
}

/// What a struct or a union variant holds.
#[derive(Debug, PartialEq, Eq)]
pub enum Body {
    /// Nothing at all.
    Unit,
    /// Only a map of extra fields, of this value type.
    Extra(TypeExpr),
    /// Named fields, and the value type of the map of extra fields if there is one.
    Named { fields: Vec<Field>, extra: Option<TypeExpr> },
}

pub enum BodyView {
    Unit,
    Extra(TypeExprView),
    Named { fields: Seq<FieldView>, extra: Option<TypeExprView> },
}

impl DeepView for Body {
    type V = BodyView;

    open spec fn deep_view(&self) -> BodyView {
        match self {
            Body::Unit => BodyView::Unit,
            Body::Extra(t) => BodyView::Extra(t.deep_view()),
            Body::Named { fields, extra } => BodyView::Named {
                fields: fields.deep_view(),
                extra: extra.deep_view(),
            },
        }
    }
}

/// One variant of a union.
#[derive(Debug, PartialEq, Eq)]
pub struct Variant {
    pub ident: String,
    /// The tag value, where the identifier differs from it.
    pub rename: Option<String>,
    pub description: Option<String>,
    pub body: Body,
}

pub struct VariantView {
    pub ident: Seq<char>,
    pub rename: Option<Seq<char>>,
    pub description: Option<Seq<char>>,
    pub body: BodyView,
}

impl DeepView for Variant {
    type V = VariantView;

    open spec fn deep_view(&self) -> VariantView {
        VariantView {
            ident: self.ident@,
            rename: self.rename.deep_view(),
            description: self.description.deep_view(),
            body: self.body.deep_view(),
        }
    }
}

/// One member of a closed enumeration: the identifier it gets and the literal
/// it is read from and written as.
#[derive(Debug, PartialEq, Eq)]
pub struct Literal {
    pub ident: String,
    pub literal: String,
}

pub struct LiteralView {
    pub ident: Seq<char>,
    pub literal: Seq<char>,
}

impl DeepView for Literal {
    type V = LiteralView;

    open spec fn deep_view(&self) -> LiteralView {
        LiteralView { ident: self.ident@, literal: self.literal@ }
    }
}

#[derive(Debug, PartialEq, Eq)]
pub enum CompiledKind {
    Struct(Body),
    /// A union whose variant is chosen by the value of the property `tag`.
    Tagged { tag: String, variants: Vec<Variant> },
    /// A union whose variants are tried in order.
    Untagged(Vec<Variant>),
    Enumeration(Vec<Literal>),
}

pub enum CompiledKindView {
    Struct(BodyView),
    Tagged { tag: Seq<char>, variants: Seq<VariantView> },
    Untagged(Seq<VariantView>),
    Enumeration(Seq<LiteralView>),
}

impl DeepView for CompiledKind {
    type V = CompiledKindView;

    open spec fn deep_view(&self) -> CompiledKindView {
        match self {
            CompiledKind::Struct(body) => CompiledKindView::Struct(body.deep_view()),
            CompiledKind::Tagged { tag, variants } => CompiledKindView::Tagged {
                tag: tag@,
                variants: variants.deep_view(),
            },
            CompiledKind::Untagged(variants) => CompiledKindView::Untagged(variants.deep_view()),
            CompiledKind::Enumeration(literals) => CompiledKindView::Enumeration(
                literals.deep_view(),
            ),
        }
    }
}

/// A named type of the compiled model.
#[derive(Debug, PartialEq, Eq)]
pub struct CompiledType {
    pub ident: String,
    pub description: Option<String>,
    pub kind: CompiledKind,
}

pub struct CompiledTypeView {
    pub ident: Seq<char>,
    pub description: Option<Seq<char>>,
    pub kind: CompiledKindView,
}

impl DeepView for CompiledType {
    type V = CompiledTypeView;

    open spec fn deep_view(&self) -> CompiledTypeView {
        CompiledTypeView {
            ident: self.ident@,
            description: self.description.deep_view(),
            kind: self.kind.deep_view(),
        }
    }
}

/// Why a document cannot be compiled.
#[derive(Clone, Copy, Debug, PartialEq, Eq, Structural)]
pub enum CompileErrorKind {
    /// A type depends on itself, directly or through others.
    CyclicDependency,
    /// `anyOf` is not supported.
    AnyOf,
    /// `not` is not supported.
    Not,
    /// A schema without a type that still constrains something.
    FreeForm,
    /// An enumeration that holds `null`.
    NullableEnum,
    /// An enumeration of integers, numbers or booleans.
    ScalarEnum,
    /// An object with properties where only a reference can stand.
    InlineObject,
    /// An enumeration where only a reference can stand.
    InlineEnum,
    /// A union or intersection where only a reference can stand.
    InlineComposite,
    /// A reference that does not begin with `#/components/schemas/`.
    ForeignReference,
    /// A reference to a schema that the table does not hold.
    MissingSchema,
    /// A reference whose target is itself a reference.
    ReferenceChain,
    /// A branch of `allOf` that is neither an object nor a nested `allOf`.
    IntersectionBranch,
    /// More than one branch of `allOf` that speaks of additional properties.
    ConflictingAdditional,
    /// A discriminator without a property name.
    EmptyDiscriminator,
    /// A branch of `oneOf` that is not a reference.
    InlineVariant,
    /// A discriminator mapping to a schema that is no branch of the union.
    UnknownVariant,
    /// A variant of a tagged union that is neither an object nor an `allOf`.
    VariantShape,
    /// A name from which no identifier can be made.
    InvalidIdentifier,
    /// A made-up format that is no path of a type.
    InvalidFormat,
    /// A reference that does not point to a shared part of the expected kind,
    /// or to one that the document does not hold.
    UnresolvedReference,
    /// A parameter that is described by content instead of a schema.
    ContentParameter,
    /// A header parameter whose value would have to be parsed.
    HeaderParse,
    /// A cookie parameter.
    CookieParameter,
    /// More than one media type for one body.
    MultipleMediaTypes,
    /// An operation without an operation id.
    MissingOperationId,
    /// Two operations with the same operation id.
    DuplicateOperationId,
    /// A response declared for a range of status codes.
    StatusRange,
    /// A status code outside 100 to 999.
    InvalidStatus,
    /// An endpoint that more than one deployable unit claims.
    EndpointClaimedTwice,
    /// Two deployable units with the same module name.
    DuplicateModule,
    /// A discriminator that names a property which the object does not have,
    /// or that stands on a schema that is no object.
    DiscriminatorProperty,
    /// A reference that is not a document, a `#` and a path that begins with
    /// a slash.
    InvalidReference,
    /// A reference to a document that has not been loaded.
    DocumentNotLoaded,
    /// A segment of a reference that the document does not have.
    SegmentNotFound,
    /// A segment of a reference under which no mapping stands.
    NotAMapping,
    /// A reference into another document where only the own document can be
    /// meant.
    NonLocalReference,
}

/// A fatal error of compilation: what went wrong, and the name, reference or
/// identifier at which it was found.
#[derive(Debug, PartialEq, Eq)]
pub struct CompileError {
    pub kind: CompileErrorKind,
    pub subject: String,
}

pub struct CompileErrorView {
    pub kind: CompileErrorKind,
    pub subject: Seq<char>,
}

impl DeepView for CompileError {
    type V = CompileErrorView;

    open spec fn deep_view(&self) -> CompileErrorView {
        CompileErrorView { kind: self.kind, subject: self.subject@ }
    }
}

} // verus!
