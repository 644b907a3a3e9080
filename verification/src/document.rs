//! The parts of an OpenAPI document other than schemas, as this library reads
//! them, with the mathematical view of each. Maps keep the order of the
//! document. Whatever else a part says and the library never looks into is
//! carried along in `rest`.
use vstd::prelude::*;
use crate::schema::{SchemaRef, SchemaRefView};

verus! {

/// A part of a document, or a reference to one.
#[derive(Debug, PartialEq, Eq)]
pub enum RefOr<T> {
    Reference(String),
    Item(T),
}

pub enum RefOrView<V> {
    Reference(Seq<char>),
    Item(V),
}

impl<T: DeepView> DeepView for RefOr<T> {
    type V = RefOrView<T::V>;

    open spec fn deep_view(&self) -> RefOrView<T::V> {
        match self {
            RefOr::Reference(reference) => RefOrView::Reference(reference@),
            RefOr::Item(item) => RefOrView::Item(item.deep_view()),
        }
    }
}

/// What stands under one media type of a body. An example is carried as the
/// text that it is written in, like every part that the library never looks
/// into but that a reference can stand for.
#[derive(Debug, PartialEq, Eq)]
pub struct MediaType {
    pub schema: Option<SchemaRef>,
    pub examples: Vec<(String, RefOr<String>)>,
    pub rest: String,
}

pub struct MediaTypeView {
    pub schema: Option<SchemaRefView>,
    pub examples: Seq<(Seq<char>, RefOrView<Seq<char>>)>,
    pub rest: Seq<char>,
}

impl DeepView for MediaType {
    type V = MediaTypeView;

    open spec fn deep_view(&self) -> MediaTypeView {
        MediaTypeView {
            schema: self.schema.deep_view(),
            examples: self.examples.deep_view(),
            rest: self.rest@,
        }
    }
}

/// How the value of a parameter or header is described.
#[derive(Debug, PartialEq, Eq)]
pub enum ParameterFormat {
    Schema(SchemaRef),
    Content(Vec<(String, MediaType)>),
}

pub enum ParameterFormatView {
    Schema(SchemaRefView),
    Content(Seq<(Seq<char>, MediaTypeView)>),
}

impl DeepView for ParameterFormat {
    type V = ParameterFormatView;

    open spec fn deep_view(&self) -> ParameterFormatView {
        match self {
            ParameterFormat::Schema(schema) => ParameterFormatView::Schema(schema.deep_view()),
            ParameterFormat::Content(content) => ParameterFormatView::Content(
                content.deep_view(),
            ),
        }
    }
}

/// Where a parameter is read from.
#[derive(Clone, Copy, Debug, PartialEq, Eq, Structural)]
pub enum ParameterLocation {
    Query,
    Header,
    Path,
    Cookie,
}

#[derive(Debug, PartialEq, Eq)]
pub struct Parameter {
    pub location: ParameterLocation,
    pub name: String,
    pub description: Option<String>,
    pub required: bool,
    pub format: ParameterFormat,
    pub examples: Vec<(String, RefOr<String>)>,
    pub rest: String,
}

pub struct ParameterView {
    pub location: ParameterLocation,
    pub name: Seq<char>,
    pub description: Option<Seq<char>>,
    pub required: bool,
    pub format: ParameterFormatView,
    pub examples: Seq<(Seq<char>, RefOrView<Seq<char>>)>,
    pub rest: Seq<char>,
}

impl DeepView for Parameter {
    type V = ParameterView;

    open spec fn deep_view(&self) -> ParameterView {
        ParameterView {
            location: self.location,
            name: self.name@,
            description: self.description.deep_view(),
            required: self.required,
            format: self.format.deep_view(),
            examples: self.examples.deep_view(),
            rest: self.rest@,
        }
    }
}

/// A header of a response.
#[derive(Debug, PartialEq, Eq)]
pub struct Header {
    pub format: ParameterFormat,
    pub examples: Vec<(String, RefOr<String>)>,
    pub rest: String,
}

pub struct HeaderView {
    pub format: ParameterFormatView,
    pub examples: Seq<(Seq<char>, RefOrView<Seq<char>>)>,
    pub rest: Seq<char>,
}

impl DeepView for Header {
    type V = HeaderView;

    open spec fn deep_view(&self) -> HeaderView {
        HeaderView {
            format: self.format.deep_view(),
            examples: self.examples.deep_view(),
            rest: self.rest@,
        }
    }
}

#[derive(Debug, PartialEq, Eq)]
pub struct RequestBody {
    pub description: Option<String>,
    pub content: Vec<(String, MediaType)>,
    pub required: bool,
    pub rest: String,
}

pub struct RequestBodyView {
    pub description: Option<Seq<char>>,
    pub content: Seq<(Seq<char>, MediaTypeView)>,
    pub required: bool,
    pub rest: Seq<char>,
}

impl DeepView for RequestBody {
    type V = RequestBodyView;

    open spec fn deep_view(&self) -> RequestBodyView {
        RequestBodyView {
            description: self.description.deep_view(),
            content: self.content.deep_view(),
            required: self.required,
            rest: self.rest@,
        }
    }
}

#[derive(Debug, PartialEq, Eq)]
pub struct Response {
    pub description: String,
    pub headers: Vec<(String, RefOr<Header>)>,
    pub content: Vec<(String, MediaType)>,
    pub links: Vec<(String, RefOr<String>)>,
    pub rest: String,
}

pub struct ResponseView {
    pub description: Seq<char>,
    pub headers: Seq<(Seq<char>, RefOrView<HeaderView>)>,
    pub content: Seq<(Seq<char>, MediaTypeView)>,
    pub links: Seq<(Seq<char>, RefOrView<Seq<char>>)>,
    pub rest: Seq<char>,
}

impl DeepView for Response {
    type V = ResponseView;

    open spec fn deep_view(&self) -> ResponseView {
        ResponseView {
            description: self.description@,
            headers: self.headers.deep_view(),
            content: self.content.deep_view(),
            links: self.links.deep_view(),
            rest: self.rest@,
        }
    }
}

/// The status under which a response is declared: one code, or a range of a
/// hundred codes given by its first digit.
#[derive(Clone, Copy, Debug, PartialEq, Eq, Structural)]
pub enum StatusCode {
    Code(u16),
    Range(u16),
}

impl DeepView for StatusCode {
    type V = StatusCode;

    open spec fn deep_view(&self) -> StatusCode {
        *self
    }
}

#[derive(Debug, PartialEq, Eq)]
pub struct Responses {
    pub default: Option<RefOr<Response>>,
    pub responses: Vec<(StatusCode, RefOr<Response>)>,
}

pub struct ResponsesView {
    pub default: Option<RefOrView<ResponseView>>,
    pub responses: Seq<(StatusCode, RefOrView<ResponseView>)>,
}

impl DeepView for Responses {
    type V = ResponsesView;

    open spec fn deep_view(&self) -> ResponsesView {
        ResponsesView {
            default: self.default.deep_view(),
            responses: self.responses.deep_view(),
        }
    }
}

#[derive(Clone, Copy, Debug, PartialEq, Eq, Structural)]
pub enum Method {
    Get,
    Put,
    Post,
    Delete,
    Options,
    Head,
    Patch,
    Trace,
}

impl DeepView for Method {
    type V = Method;

    open spec fn deep_view(&self) -> Method {
        *self
    }
}

/// How the gateway hands a request to the function that serves it.
#[derive(Debug, PartialEq, Eq)]
pub struct Integration {
    pub http_method: String,
    pub kind: String,
    pub uri: String,
    /// Whether the deployment tool substitutes variables in `uri`.
    pub substituted: bool,
}

pub struct IntegrationView {
    pub http_method: Seq<char>,
    pub kind: Seq<char>,
    pub uri: Seq<char>,
    pub substituted: bool,
}

impl DeepView for Integration {
    type V = IntegrationView;

    open spec fn deep_view(&self) -> IntegrationView {
        IntegrationView {
            http_method: self.http_method@,
            kind: self.kind@,
            uri: self.uri@,
            substituted: self.substituted,
        }
    }
}

#[derive(Debug, PartialEq, Eq)]
pub struct Operation {
    pub operation_id: Option<String>,
    pub tags: Vec<String>,
    pub description: Option<String>,
    pub parameters: Vec<RefOr<Parameter>>,
    pub request_body: Option<RefOr<RequestBody>>,
    pub responses: Responses,
    /// The security requirements, each as the list of the schemes it names;
    /// `None` where the operation declares none.
    pub security: Option<Vec<Vec<String>>>,
    pub integration: Option<Integration>,
    pub rest: String,
}

pub struct OperationView {
    pub operation_id: Option<Seq<char>>,
    pub tags: Seq<Seq<char>>,
    pub description: Option<Seq<char>>,
    pub parameters: Seq<RefOrView<ParameterView>>,
    pub request_body: Option<RefOrView<RequestBodyView>>,
    pub responses: ResponsesView,
    pub security: Option<Seq<Seq<Seq<char>>>>,
    pub integration: Option<IntegrationView>,
    pub rest: Seq<char>,
}

impl DeepView for Operation {
    type V = OperationView;

    open spec fn deep_view(&self) -> OperationView {
        OperationView {
            operation_id: self.operation_id.deep_view(),
            tags: self.tags.deep_view(),
            description: self.description.deep_view(),
            parameters: self.parameters.deep_view(),
            request_body: self.request_body.deep_view(),
            responses: self.responses.deep_view(),
            security: self.security.deep_view(),
            integration: self.integration.deep_view(),
            rest: self.rest@,
        }
    }
}

/// What stands under one path: its operations, in the order get, put, post,
/// delete, options, head, patch, trace, and the parameters they share.
#[derive(Debug, PartialEq, Eq)]
pub struct PathItem {
    pub operations: Vec<(Method, Operation)>,
    pub parameters: Vec<RefOr<Parameter>>,
    pub rest: String,
}

pub struct PathItemView {
    pub operations: Seq<(Method, OperationView)>,
    pub parameters: Seq<RefOrView<ParameterView>>,
    pub rest: Seq<char>,
}

impl DeepView for PathItem {
    type V = PathItemView;

    open spec fn deep_view(&self) -> PathItemView {
        PathItemView {
            operations: self.operations.deep_view(),
            parameters: self.parameters.deep_view(),
            rest: self.rest@,
        }
    }
}

/// The shared parts of a document, by kind and name.
#[derive(Debug, PartialEq, Eq)]
pub struct Components {
    pub schemas: Vec<(String, SchemaRef)>,
    pub responses: Vec<(String, RefOr<Response>)>,
    pub parameters: Vec<(String, RefOr<Parameter>)>,
    pub request_bodies: Vec<(String, RefOr<RequestBody>)>,
    pub headers: Vec<(String, RefOr<Header>)>,
    pub security_schemes: Vec<(String, RefOr<String>)>,
    pub examples: Vec<(String, RefOr<String>)>,
    pub links: Vec<(String, RefOr<String>)>,
    /// The shared callbacks: each lists, by expression, what stands under
    /// the path that the expression gives.
    pub callbacks: Vec<(String, RefOr<Vec<(String, RefOr<PathItem>)>>)>,
}

pub struct ComponentsView {
    pub schemas: Seq<(Seq<char>, SchemaRefView)>,
    pub responses: Seq<(Seq<char>, RefOrView<ResponseView>)>,
    pub parameters: Seq<(Seq<char>, RefOrView<ParameterView>)>,
    pub request_bodies: Seq<(Seq<char>, RefOrView<RequestBodyView>)>,
    pub headers: Seq<(Seq<char>, RefOrView<HeaderView>)>,
    pub security_schemes: Seq<(Seq<char>, RefOrView<Seq<char>>)>,
    pub examples: Seq<(Seq<char>, RefOrView<Seq<char>>)>,
    pub links: Seq<(Seq<char>, RefOrView<Seq<char>>)>,
    pub callbacks: Seq<(Seq<char>, RefOrView<Seq<(Seq<char>, RefOrView<PathItemView>)>>)>,
}

impl DeepView for Components {
    type V = ComponentsView;

    open spec fn deep_view(&self) -> ComponentsView {
        ComponentsView {
            schemas: self.schemas.deep_view(),
            responses: self.responses.deep_view(),
            parameters: self.parameters.deep_view(),
            request_bodies: self.request_bodies.deep_view(),
            headers: self.headers.deep_view(),
            security_schemes: self.security_schemes.deep_view(),
            examples: self.examples.deep_view(),
            links: self.links.deep_view(),
            callbacks: self.callbacks.deep_view(),
        }
    }
}

/// A document.
#[derive(Debug, PartialEq, Eq)]
pub struct OpenApi {
    pub paths: Vec<(String, RefOr<PathItem>)>,
    pub components: Option<Components>,
    pub rest: String,
}

pub struct OpenApiView {
    pub paths: Seq<(Seq<char>, RefOrView<PathItemView>)>,
    pub components: Option<ComponentsView>,
    pub rest: Seq<char>,
}

impl DeepView for OpenApi {
    type V = OpenApiView;

    open spec fn deep_view(&self) -> OpenApiView {
        OpenApiView {
            paths: self.paths.deep_view(),
            components: self.components.deep_view(),
            rest: self.rest@,
        }
    }
}

} // verus!
