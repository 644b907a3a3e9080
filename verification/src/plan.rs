//! What operations compile to: plans for reading parameters and bodies and for
//! writing responses, with the mathematical view of each.
use vstd::prelude::*;
use crate::document::{Method, ParameterLocation};
use crate::ir::{TypeExpr, TypeExprView};

verus! {

/// How the bytes of a body and the value that the handler sees correspond.
#[derive(Debug, PartialEq, Eq)]
pub enum BodySchema {
    /// Any JSON value, decoded without a schema.
    JsonValue,
    /// The bytes as they are.
    Bytes,
    /// The bytes as a UTF-8 string, not decoded any further.
    Text,
    /// JSON, decoded strictly into the given type.
    Json(TypeExpr),
}

pub enum BodySchemaView {
    JsonValue,
    Bytes,
    Text,
    Json(TypeExprView),
}

impl DeepView for BodySchema {
    type V = BodySchemaView;

    open spec fn deep_view(&self) -> BodySchemaView {
        match self {
            BodySchema::JsonValue => BodySchemaView::JsonValue,
            BodySchema::Bytes => BodySchemaView::Bytes,
            BodySchema::Text => BodySchemaView::Text,
            BodySchema::Json(t) => BodySchemaView::Json(t.deep_view()),
        }
    }
}

/// How one parameter of an operation is read.
#[derive(Debug, PartialEq, Eq)]
pub struct RequestParameter {
    /// The parameter's name in the document.
    pub name: String,
    /// Its name as an argument of the handler.
    pub ident: String,
    pub location: ParameterLocation,
    /// A required parameter that is missing is an error; an optional one that
    /// is missing is absent.
    pub required: bool,
    /// The type of the value that the handler sees (inside an option where the
    /// parameter is optional).
    pub ty: TypeExpr,
    /// The type that each raw string is parsed into; `None` where the raw
    /// string is the value.
    pub parse: Option<TypeExpr>,
    /// Whether all values of a repeated query parameter are read, instead of
    /// the first.
    pub repeated: bool,
    pub description: Option<String>,
}

pub struct RequestParameterView {
    pub name: Seq<char>,
    pub ident: Seq<char>,
    pub location: ParameterLocation,
    pub required: bool,
    pub ty: TypeExprView,
    pub parse: Option<TypeExprView>,
    pub repeated: bool,
    pub description: Option<Seq<char>>,
}

impl DeepView for RequestParameter {
    type V = RequestParameterView;

    open spec fn deep_view(&self) -> RequestParameterView {
        RequestParameterView {
            name: self.name@,
            ident: self.ident@,
            location: self.location,
            required: self.required,
            ty: self.ty.deep_view(),
            parse: self.parse.deep_view(),
            repeated: self.repeated,
            description: self.description.deep_view(),
        }
    }
}

/// How the body of a request is read.
#[derive(Debug, PartialEq, Eq)]
pub struct RequestBodyPlan {
    /// The one media type that the request must declare.
    pub mime: String,
    pub required: bool,
    pub body: BodySchema,
    pub description: Option<String>,
}

pub struct RequestBodyPlanView {
    pub mime: Seq<char>,
    pub required: bool,
    pub body: BodySchemaView,
    pub description: Option<Seq<char>>,
}

impl DeepView for RequestBodyPlan {
    type V = RequestBodyPlanView;

    open spec fn deep_view(&self) -> RequestBodyPlanView {
        RequestBodyPlanView {
            mime: self.mime@,
            required: self.required,
            body: self.body.deep_view(),
            description: self.description.deep_view(),
        }
    }
}

/// The media type and the plan of a response body.
#[derive(Debug, PartialEq, Eq)]
pub struct ResponseBody {
    pub mime: String,
    pub body: BodySchema,
}

pub struct ResponseBodyView {
    pub mime: Seq<char>,
    pub body: BodySchemaView,
}

impl DeepView for ResponseBody {
    type V = ResponseBodyView;

    open spec fn deep_view(&self) -> ResponseBodyView {
        ResponseBodyView { mime: self.mime@, body: self.body.deep_view() }
    }
}

/// One case of the responses of an operation.
#[derive(Debug, PartialEq, Eq)]
pub struct ResponseVariant {
    pub ident: String,
    /// The status of the response; `None` for the default case, whose status
    /// the handler supplies.
    pub status: Option<u16>,
    /// `None` for a response without content.
    pub body: Option<ResponseBody>,
    pub description: String,
}

pub struct ResponseVariantView {
    pub ident: Seq<char>,
    pub status: Option<u16>,
    pub body: Option<ResponseBodyView>,
    pub description: Seq<char>,
}

impl DeepView for ResponseVariant {
    type V = ResponseVariantView;

    open spec fn deep_view(&self) -> ResponseVariantView {
        ResponseVariantView {
            ident: self.ident@,
            status: self.status,
            body: self.body.deep_view(),
            description: self.description@,
        }
    }
}

/// Everything that the wrapper of one operation needs.
#[derive(Debug, PartialEq, Eq)]
pub struct ApiOperation {
    pub operation_id: String,
    pub method: Method,
    pub request_path: String,
    /// The name of the handler's method for the operation.
    pub handler_ident: String,
    /// The name of the wrapper that the dispatcher calls.
    pub wrapper_ident: String,
    /// The name of the type of the operation's responses.
    pub response_ident: String,
    pub parameters: Vec<RequestParameter>,
    pub body: Option<RequestBodyPlan>,
    pub responses: Vec<ResponseVariant>,
    /// Whether the request is authenticated before the handler runs.
    pub authenticated: bool,
    pub description: Option<String>,
}

pub struct ApiOperationView {
    pub operation_id: Seq<char>,
    pub method: Method,
    pub request_path: Seq<char>,
    pub handler_ident: Seq<char>,
    pub wrapper_ident: Seq<char>,
    pub response_ident: Seq<char>,
    pub parameters: Seq<RequestParameterView>,
    pub body: Option<RequestBodyPlanView>,
    pub responses: Seq<ResponseVariantView>,
    pub authenticated: bool,
    pub description: Option<Seq<char>>,
}

impl DeepView for ApiOperation {
    type V = ApiOperationView;

    open spec fn deep_view(&self) -> ApiOperationView {
        ApiOperationView {
            operation_id: self.operation_id@,
            method: self.method,
            request_path: self.request_path@,
            handler_ident: self.handler_ident@,
            wrapper_ident: self.wrapper_ident@,
            response_ident: self.response_ident@,
            parameters: self.parameters.deep_view(),
            body: self.body.deep_view(),
            responses: self.responses.deep_view(),
            authenticated: self.authenticated,
            description: self.description.deep_view(),
        }
    }
}

} // verus!
