//! What the operation compiler computes, as mathematics over the views of a
//! document whose references are all local and of the models made from it.
use vstd::prelude::*;
use crate::document::{
    ComponentsView, Method, OperationView, ParameterFormatView, ParameterLocation, ParameterView,
    RefOrView, RequestBodyView, ResponseView, ResponsesView, StatusCode,
};
use crate::ir::{CompileErrorKind, CompileErrorView, CompiledTypeView, TypeExprView};
use crate::model_spec::{fail, ident_of, ref_type, referenced_name};
use crate::outside::{parsed_ident, pascal_case, snake_case};
use crate::plan::{
    ApiOperationView, BodySchemaView, RequestBodyPlanView, RequestParameterView, ResponseBodyView,
    ResponseVariantView,
};
use crate::schema::{SchemaKindView, SchemaRefView, SchemaView};
use crate::status::status_name;
use crate::table::lookup;
use crate::text::{decimal_digits, has_prefix};

verus! {

/// The type that stands where `r` stands, once the models have been made.
pub open spec fn typed(
    table: Seq<(Seq<char>, SchemaRefView)>,
    r: SchemaRefView,
    models: Seq<CompiledTypeView>,
) -> Result<TypeExprView, CompileErrorView> {
    match ref_type(table, r, models, Seq::empty(), false) {
        Err(e) => Err(e),
        Ok(((t, _), _)) => Ok(t),
    }
}

/// The schema that stands where `r` stands: the schema itself, or the shared
/// schema that a reference points to.
pub open spec fn resolved_schema(table: Seq<(Seq<char>, SchemaRefView)>, r: SchemaRefView) -> Result<
    SchemaView,
    CompileErrorView,
> {
    match r {
        SchemaRefView::Item(schema) => Ok(schema),
        SchemaRefView::Reference(reference) => match referenced_name(reference) {
            Err(e) => Err(e),
            Ok(name) => match lookup(table, name) {
                None => fail(CompileErrorKind::MissingSchema, reference),
                Some(SchemaRefView::Reference(_)) => fail(
                    CompileErrorKind::ReferenceChain,
                    reference,
                ),
                Some(SchemaRefView::Item(schema)) => Ok(schema),
            },
        },
    }
}

/// How a body of the media type `mime` and the schema `schema` is read and
/// written. JSON without a schema is any JSON value; JSON with a string schema
/// is the raw text, or the raw bytes for the binary format; JSON with any
/// other schema is decoded into its type. Text of any kind is a string.
/// Everything else is bytes, whatever the schema says.
pub open spec fn body_plan(
    table: Seq<(Seq<char>, SchemaRefView)>,
    models: Seq<CompiledTypeView>,
    schema: Option<SchemaRefView>,
    mime: Seq<char>,
) -> Result<BodySchemaView, CompileErrorView> {
    if mime == "application/json"@ {
        match schema {
            None => Ok(BodySchemaView::JsonValue),
            Some(r) => match resolved_schema(table, r) {
                Err(e) => Err(e),
                Ok(target) => match target.kind {
                    SchemaKindView::String { format, enumeration } => if enumeration.len() > 0 {
                        fail(CompileErrorKind::InlineEnum, mime)
                    } else if format == Some("binary"@) {
                        Ok(BodySchemaView::Bytes)
                    } else {
                        Ok(BodySchemaView::Text)
                    },
                    _ => match typed(table, r, models) {
                        Err(e) => Err(e),
                        Ok(t) => Ok(BodySchemaView::Json(t)),
                    },
                },
            },
        }
    } else if mime == "application/octet-stream"@ {
        Ok(BodySchemaView::Bytes)
    } else if has_prefix(mime, "text/"@) {
        Ok(BodySchemaView::Text)
    } else {
        Ok(BodySchemaView::Bytes)
    }
}

/// Whether a schema is a string that needs no parsing: no enumeration, and no
/// format or one of the formats that are plain strings.
pub open spec fn is_plain_string(schema: SchemaView) -> bool {
    schema.kind matches SchemaKindView::String { format, enumeration } && enumeration.len() == 0
        && (format is None || format == Some("byte"@) || format == Some("password"@))
}

/// Whether a parameter is described by an array schema in place.
pub open spec fn is_array(format: ParameterFormatView) -> bool {
    format matches ParameterFormatView::Schema(SchemaRefView::Item(schema)) && schema.kind
        is Array
}

/// The type that the raw strings of a parameter are parsed into, if they are
/// parsed at all: strings and arrays of strings are taken as they are.
pub open spec fn parse_type(
    table: Seq<(Seq<char>, SchemaRefView)>,
    models: Seq<CompiledTypeView>,
    r: SchemaRefView,
    ty: TypeExprView,
) -> Result<Option<TypeExprView>, CompileErrorView> {
    match r {
        SchemaRefView::Reference(_) => Ok(Some(ty)),
        SchemaRefView::Item(schema) => if is_plain_string(schema) {
            Ok(None)
        } else {
            match schema.kind {
                SchemaKindView::Array { items: Some(item), unique_items } => match *item {
                    SchemaRefView::Reference(_) => Ok(Some(ty)),
                    SchemaRefView::Item(item_schema) => if is_plain_string(item_schema) {
                        Ok(None)
                    } else {
                        match typed(table, *item, models) {
                            Err(e) => Err(e),
                            Ok(t) => Ok(Some(t)),
                        }
                    },
                },
                _ => Ok(Some(ty)),
            }
        },
    }
}

/// The plan for one parameter.
pub open spec fn parameter_plan(
    table: Seq<(Seq<char>, SchemaRefView)>,
    models: Seq<CompiledTypeView>,
    parameter: ParameterView,
) -> Result<RequestParameterView, CompileErrorView> {
    match ident_of(snake_case(parameter.name)) {
        Err(e) => Err(e),
        Ok(ident) => match parameter.format {
            ParameterFormatView::Content(_) => fail(
                CompileErrorKind::ContentParameter,
                parameter.name,
            ),
            ParameterFormatView::Schema(r) => match typed(table, r, models) {
                Err(e) => Err(e),
                Ok(ty) => match parse_type(table, models, r, ty) {
                    Err(e) => Err(e),
                    Ok(parse) => if parameter.location == ParameterLocation::Cookie {
                        fail(CompileErrorKind::CookieParameter, parameter.name)
                    } else if parameter.location == ParameterLocation::Header && parse is Some {
                        fail(CompileErrorKind::HeaderParse, parameter.name)
                    } else {
                        Ok(
                            RequestParameterView {
                                name: parameter.name,
                                ident,
                                location: parameter.location,
                                required: parameter.required,
                                ty,
                                parse,
                                repeated: parameter.location == ParameterLocation::Query
                                    && is_array(parameter.format),
                                description: parameter.description,
                            },
                        )
                    },
                },
            },
        },
    }
}

/// The part that stands where `r` stands: the part itself, or the shared part
/// named after `prefix` in the reference.
pub open spec fn resolved<V>(
    shared: Seq<(Seq<char>, RefOrView<V>)>,
    prefix: Seq<char>,
    r: RefOrView<V>,
) -> Result<V, CompileErrorView> {
    match r {
        RefOrView::Item(item) => Ok(item),
        RefOrView::Reference(reference) => if !has_prefix(reference, prefix) {
            fail(CompileErrorKind::UnresolvedReference, reference)
        } else {
            match lookup(shared, reference.subrange(prefix.len() as int, reference.len() as int)) {
                None => fail(CompileErrorKind::UnresolvedReference, reference),
                Some(RefOrView::Reference(_)) => fail(CompileErrorKind::ReferenceChain, reference),
                Some(RefOrView::Item(item)) => Ok(item),
            }
        },
    }
}

/// The plans for a list of parameters, in order, after the plans `acc`.
pub open spec fn parameter_plans(
    components: ComponentsView,
    models: Seq<CompiledTypeView>,
    parameters: Seq<RefOrView<ParameterView>>,
    acc: Seq<RequestParameterView>,
) -> Result<Seq<RequestParameterView>, CompileErrorView>
    decreases parameters.len(),
{
    if parameters.len() == 0 {
        Ok(acc)
    } else {
        match resolved(components.parameters, "#/components/parameters/"@, parameters[0]) {
            Err(e) => Err(e),
            Ok(parameter) => match parameter_plan(components.schemas, models, parameter) {
                Err(e) => Err(e),
                Ok(plan) => parameter_plans(
                    components,
                    models,
                    parameters.drop_first(),
                    acc.push(plan),
                ),
            },
        }
    }
}

/// The plan for the body of a request; `None` where the body declares no
/// content. At most one media type is supported.
pub open spec fn request_body_plan(
    table: Seq<(Seq<char>, SchemaRefView)>,
    models: Seq<CompiledTypeView>,
    path: Seq<char>,
    body: RequestBodyView,
) -> Result<Option<RequestBodyPlanView>, CompileErrorView> {
    if body.content.len() == 0 {
        Ok(None)
    } else if body.content.len() > 1 {
        fail(CompileErrorKind::MultipleMediaTypes, path)
    } else {
        let mime = body.content[0].0;
        let plan = match body.content[0].1.schema {
            Some(r) => body_plan(table, models, Some(r), mime),
            None => Ok(BodySchemaView::Bytes),
        };
        match plan {
            Err(e) => Err(e),
            Ok(plan) => Ok(
                Some(
                    RequestBodyPlanView {
                        mime,
                        required: body.required,
                        body: plan,
                        description: body.description,
                    },
                ),
            ),
        }
    }
}

/// The name of the case for a declared status.
pub open spec fn status_ident(status: StatusCode) -> Result<Seq<char>, CompileErrorView> {
    match status {
        StatusCode::Range(digit) => fail(CompileErrorKind::StatusRange, decimal_digits(digit as nat)),
        StatusCode::Code(code) => match status_name(code) {
            Some(name) => Ok(name),
            None => if 100 <= code <= 999 {
                Ok("HttpStatus"@ + decimal_digits(code as nat))
            } else {
                fail(CompileErrorKind::InvalidStatus, decimal_digits(code as nat))
            },
        },
    }
}

/// The case for one response. `status` is `None` for the default response.
pub open spec fn response_variant(
    components: ComponentsView,
    models: Seq<CompiledTypeView>,
    path: Seq<char>,
    ident: Seq<char>,
    status: Option<u16>,
    r: RefOrView<ResponseView>,
) -> Result<ResponseVariantView, CompileErrorView> {
    match resolved(components.responses, "#/components/responses/"@, r) {
        Err(e) => Err(e),
        Ok(response) => if response.content.len() == 0 {
            Ok(ResponseVariantView { ident, status, body: None, description: response.description })
        } else if response.content.len() > 1 {
            fail(CompileErrorKind::MultipleMediaTypes, path)
        } else {
            match body_plan(
                components.schemas,
                models,
                response.content[0].1.schema,
                response.content[0].0,
            ) {
                Err(e) => Err(e),
                Ok(plan) => Ok(
                    ResponseVariantView {
                        ident,
                        status,
                        body: Some(ResponseBodyView { mime: response.content[0].0, body: plan }),
                        description: response.description,
                    },
                ),
            }
        },
    }
}

/// The cases for the responses that are declared under a status, in order,
/// after the cases `acc`.
pub open spec fn status_variants(
    components: ComponentsView,
    models: Seq<CompiledTypeView>,
    path: Seq<char>,
    responses: Seq<(StatusCode, RefOrView<ResponseView>)>,
    acc: Seq<ResponseVariantView>,
) -> Result<Seq<ResponseVariantView>, CompileErrorView>
    decreases responses.len(),
{
    if responses.len() == 0 {
        Ok(acc)
    } else {
        match status_ident(responses[0].0) {
            Err(e) => Err(e),
            Ok(ident) => match response_variant(
                components,
                models,
                path,
                ident,
                Some(responses[0].0->Code_0),
                responses[0].1,
            ) {
                Err(e) => Err(e),
                Ok(variant) => status_variants(
                    components,
                    models,
                    path,
                    responses.drop_first(),
                    acc.push(variant),
                ),
            },
        }
    }
}

/// The cases for the responses of an operation: one for each declared status,
/// in order, and last the default case if there is one.
pub open spec fn response_variants(
    components: ComponentsView,
    models: Seq<CompiledTypeView>,
    path: Seq<char>,
    responses: ResponsesView,
) -> Result<Seq<ResponseVariantView>, CompileErrorView> {
    match status_variants(components, models, path, responses.responses, Seq::empty()) {
        Err(e) => Err(e),
        Ok(variants) => match responses.default {
            None => Ok(variants),
            Some(r) => match response_variant(components, models, path, "Default"@, None, r) {
                Err(e) => Err(e),
                Ok(variant) => Ok(variants.push(variant)),
            },
        },
    }
}

/// Whether an operation asks for authentication: it does unless it declares a
/// security requirement that is empty. An operation that declares nothing is
/// authenticated.
pub open spec fn is_authenticated(security: Option<Seq<Seq<Seq<char>>>>) -> bool {
    match security {
        None => true,
        Some(requirements) => !exists|i: int|
            0 <= i < requirements.len() && (#[trigger] requirements[i]).len() == 0,
    }
}

/// The identifier that a name is, where it is one as it stands.
pub open spec fn plain_ident(name: Seq<char>) -> Result<Seq<char>, CompileErrorView> {
    if parsed_ident(name) == Some(name) {
        Ok(name)
    } else {
        fail(CompileErrorKind::InvalidIdentifier, name)
    }
}

/// The plan for the body of the request of an operation, if it has one.
pub open spec fn operation_body_plan(
    components: ComponentsView,
    models: Seq<CompiledTypeView>,
    path: Seq<char>,
    body: Option<RefOrView<RequestBodyView>>,
) -> Result<Option<RequestBodyPlanView>, CompileErrorView> {
    match body {
        None => Ok(None),
        Some(r) => match resolved(components.request_bodies, "#/components/requestBodies/"@, r) {
            Err(e) => Err(e),
            Ok(body) => request_body_plan(components.schemas, models, path, body),
        },
    }
}

/// The plan for one operation.
pub open spec fn operation_plan(
    components: ComponentsView,
    models: Seq<CompiledTypeView>,
    method: Method,
    path: Seq<char>,
    operation: OperationView,
) -> Result<ApiOperationView, CompileErrorView> {
    match operation.operation_id {
        None => fail(CompileErrorKind::MissingOperationId, path),
        Some(operation_id) => match operation_body_plan(
            components,
            models,
            path,
            operation.request_body,
        ) {
            Err(e) => Err(e),
            Ok(body) => match parameter_plans(
                components,
                models,
                operation.parameters,
                Seq::empty(),
            ) {
                Err(e) => Err(e),
                Ok(parameters) => match ident_of(snake_case(operation_id)) {
                    Err(e) => Err(e),
                    Ok(handler_ident) => match plain_ident("handle_"@ + snake_case(operation_id)) {
                        Err(e) => Err(e),
                        Ok(wrapper_ident) => match ident_of(
                            pascal_case(operation_id) + "Response"@,
                        ) {
                            Err(e) => Err(e),
                            Ok(response_ident) => match response_variants(
                                components,
                                models,
                                path,
                                operation.responses,
                            ) {
                                Err(e) => Err(e),
                                Ok(responses) => Ok(
                                    ApiOperationView {
                                        operation_id,
                                        method,
                                        request_path: path,
                                        handler_ident,
                                        wrapper_ident,
                                        response_ident,
                                        parameters,
                                        body,
                                        responses,
                                        authenticated: is_authenticated(operation.security),
                                        description: operation.description,
                                    },
                                ),
                            },
                        },
                    },
                },
            },
        },
    }
}

} // verus!
